use zones_core::errors::ZonePlanError;
use zones_core::format::{format_offset, offset_zone_id};
use zones_core::geojoin::{plan_geometry_join, GeoFeature, GeometryJoinError};
use zones_core::render::{
    csv_cell, escape_json, escape_xml, html_escape, offset_map_views,
    render_offset_atlas_html, render_offset_candidate_maps_index_html, ComparisonSummaryRow,
};
use zones_core::rplan::{rplan_context_intake_report, rplan_plan_units, RplanContextFacts};
use zones_core::scores::{unit_zone_rows, zone_tallies};
use zones_core::plans::PlanUnit;
use zones_core::sources::source_caveat_lines;
use zones_core::seeds::{
    seed_source_manifest, seed_us_county_seed_geometry_reconciliation,
    seed_us_county_seed_time_zone_assignments, seed_us_county_smoke_time_zone_assignments,
};
use zones_core::zones::{GeometryJoinOptions, GeometryJoinUnitStatus, OffsetCandidateGrid, OffsetMapView, ZonePlan, ZoneSpec};

fn seed_unit_ids() -> Vec<String> {
    vec!["west-a", "west-b", "east-a", "east-b"].into_iter().map(String::from).collect()
}

fn feature(property_id: Option<&str>, feature_id: Option<&str>, geometry_type: Option<&str>) -> GeoFeature {
    GeoFeature {
        property_id: property_id.map(String::from),
        feature_id: feature_id.map(String::from),
        geometry_type: geometry_type.map(String::from),
    }
}

#[test]
fn attach_geojson_geometries_matches_plan_units() {
    let features = vec![
        feature(Some("west-a"), None, Some("Polygon")),
        feature(Some("west-b"), None, Some("Polygon")),
        feature(Some("east-a"), None, Some("Polygon")),
        feature(Some("east-b"), None, Some("Polygon")),
    ];
    let options = GeometryJoinOptions::default();
    let plan = plan_geometry_join(&"FeatureCollection".to_string(), &features, &seed_unit_ids(), options.require_all_units)
        .unwrap();

    assert_eq!(plan.matched_unit_count, 4);
    assert!(plan.unmatched_unit_ids.is_empty());
    assert!(plan.unused_feature_unit_ids.is_empty());
    assert_eq!(plan.unit_statuses.len(), 4);
    assert_eq!(
        plan.unit_statuses[0],
        GeometryJoinUnitStatus {
            unit_id: "west-a".to_string(),
            matched: true,
            geometry_type: Some("Polygon".to_string()),
        }
    );
    assert_eq!(plan.feature_for_unit, vec![Some(0), Some(1), Some(2), Some(3)]);
}

#[test]
fn attach_geojson_geometries_reports_missing_required_units() {
    let features = vec![feature(Some("west-a"), None, Some("Point"))];
    let err = plan_geometry_join(&"FeatureCollection".to_string(), &features, &seed_unit_ids(), true).unwrap_err();

    assert_eq!(
        err,
        GeometryJoinError::MissingRequiredUnits {
            unit_ids: vec![
                "west-b".to_string(),
                "east-a".to_string(),
                "east-b".to_string()
            ],
        }
    );
}

#[test]
fn geometry_join_reads_ids_and_reports_leftovers() {
    let features = vec![
        feature(None, Some("east-b"), Some("MultiPolygon")),
        feature(None, None, None),
        feature(Some("zz-extra"), Some("west-a"), Some("Polygon")),
        feature(Some("aa-extra"), None, Some("Point")),
    ];
    let plan = plan_geometry_join(&"FeatureCollection".to_string(), &features, &seed_unit_ids(), false).unwrap();

    assert_eq!(plan.matched_unit_count, 1);
    assert_eq!(plan.unmatched_unit_ids, vec!["west-a".to_string(), "west-b".to_string(), "east-a".to_string()]);
    assert_eq!(plan.unused_feature_unit_ids, vec!["aa-extra".to_string(), "zz-extra".to_string()]);
    assert_eq!(plan.feature_for_unit, vec![None, None, None, Some(0)]);
    assert_eq!(plan.unit_statuses[3].geometry_type, Some("MultiPolygon".to_string()));
}

#[test]
fn geometry_join_errors() {
    assert_eq!(
        plan_geometry_join(&"Feature".to_string(), &vec![], &seed_unit_ids(), false),
        Err(GeometryJoinError::InvalidRootType { kind: "Feature".to_string() })
    );
    assert_eq!(
        plan_geometry_join(
            &"FeatureCollection".to_string(),
            &vec![feature(Some("west-a"), None, None)],
            &seed_unit_ids(),
            false
        ),
        Err(GeometryJoinError::MissingGeometry { unit_id: "west-a".to_string() })
    );
    assert_eq!(
        plan_geometry_join(
            &"FeatureCollection".to_string(),
            &vec![feature(Some("west-a"), None, Some("Point")), feature(None, Some("west-a"), Some("Point"))],
            &seed_unit_ids(),
            false
        ),
        Err(GeometryJoinError::DuplicateFeatureUnitId { unit_id: "west-a".to_string() })
    );
}

#[test]
fn geometry_join_gives_a_feature_to_the_first_unit_with_its_id() {
    let ids = vec!["a".to_string(), "a".to_string()];
    let plan = plan_geometry_join(&"FeatureCollection".to_string(), &vec![feature(Some("a"), None, Some("Point"))], &ids, false).unwrap();
    assert_eq!(plan.feature_for_unit, vec![Some(0), None]);
    assert_eq!(plan.matched_unit_count, 1);
    assert_eq!(plan.unmatched_unit_ids, vec!["a".to_string()]);
}

#[test]
fn escapes_markup_and_json() {
    assert_eq!(escape_xml("a<b & \"c\">"), "a&lt;b &amp; &quot;c&quot;&gt;");
    assert_eq!(html_escape("plain"), "plain");
    assert_eq!(escape_json("line\n\"q\"\\\r"), "line\\n\\\"q\\\"\\\\\\r");
    assert_eq!(csv_cell("plain"), "plain");
    assert_eq!(csv_cell("a,b"), "\"a,b\"");
    assert_eq!(csv_cell("say \"hi\""), "\"say \"\"hi\"\"\"");
}

#[test]
fn formats_offsets_and_zone_ids() {
    assert_eq!(format_offset(-360), "UTC-06:00");
    assert_eq!(format_offset(345), "UTC+05:45");
    assert_eq!(format_offset(0), "UTC+00:00");
    assert_eq!(offset_zone_id(-285), "utc-minus-04-45");
    assert_eq!(offset_zone_id(330), "utc-plus-05-30");
    assert_eq!(offset_zone_id(0), "utc-plus-00-00");
}

#[test]
fn grids_and_views_have_names() {
    assert_eq!(OffsetCandidateGrid::WholeHour.step_minutes(), 60);
    assert_eq!(OffsetCandidateGrid::HalfHour.step_minutes(), 30);
    assert_eq!(OffsetCandidateGrid::QuarterHour.step_minutes(), 15);
    assert_eq!(OffsetCandidateGrid::QuarterHour.slug(), "quarter-hour");
    assert_eq!(OffsetCandidateGrid::WholeHour.label(), "whole-hour");
    let views = offset_map_views();
    assert_eq!(views.len(), 5);
    assert_eq!(views[0], OffsetMapView::CurrentStandard);
    assert_eq!(views[4], OffsetMapView::BestQuarterHour);
}

#[test]
fn atlas_page_lists_each_map() {
    let files = vec![
        (OffsetMapView::CurrentStandard, format!("{}.svg", OffsetMapView::CurrentStandard.slug())),
        (OffsetMapView::BestHalfHour, "half <b>.svg".to_string()),
    ];
    let page = render_offset_atlas_html(
        &"seed&input".to_string(),
        &"12.5".to_string(),
        &"20.0".to_string(),
        &"7.5".to_string(),
        &"5.0".to_string(),
        &"3.8".to_string(),
        &files,
    );
    assert!(page.starts_with("<!doctype html>"));
    assert!(page.contains("Input <code>seed&amp;input</code>."));
    assert!(page.contains("<div class=\"metric\"><strong>12.5</strong><span>current standard mean error</span></div>"));
    assert!(page.contains("<div class=\"metric\"><strong>3.8</strong><span>best quarter-hour mean error</span></div>"));
    assert!(page.contains(&format!(
        "<section class=\"map-card\"><h2>{}</h2><object data=\"half &lt;b&gt;.svg\" type=\"image/svg+xml\"></object></section>\n",
        html_escape(OffsetMapView::BestHalfHour.title())
    )));
    assert!(page.ends_with("</main>\n</body>\n</html>\n"));
}

#[test]
fn candidate_packet_index_links_each_packet() {
    let links = vec![(
        "Whole hour".to_string(),
        "whole-hour/atlas/index.html".to_string(),
        "whole-hour/offset-fit.geojson".to_string(),
    )];
    let summary = vec![
        ComparisonSummaryRow {
            label: "Current-law baseline".to_string(),
            weighted_error: "12.5".to_string(),
            weighted_error_delta: "+0.0".to_string(),
            moved_unit_count: 0,
            moved_population: 0,
        },
        ComparisonSummaryRow {
            label: "Whole <hour>".to_string(),
            weighted_error: "9.0".to_string(),
            weighted_error_delta: "-3.5".to_string(),
            moved_unit_count: 2,
            moved_population: 130,
        },
    ];
    let page = render_offset_candidate_maps_index_html(&"input-1".to_string(), &links, &summary);
    assert!(page.contains("<p>Input <code>input-1</code>."));
    assert!(page.contains("<h2>Comparison summary</h2>\n<p>Lower error deltas are measurements, not recommendations.</p>"));
    assert!(page.contains(
        "<tr><td>Current-law baseline</td><td>12.5</td><td>+0.0</td><td>0</td><td>0</td></tr>\n<tr><td>Whole &lt;hour&gt;</td><td>9.0</td><td>-3.5</td><td>2</td><td>130</td></tr>\n</tbody>\n</table>\n<p>Each packet includes"
    ));
    let links_end = page.find("</ul>").unwrap();
    assert!(links_end < page.find("<table>").unwrap());
    assert!(page.contains(
        "<li><strong>Whole hour</strong>: <a href=\"whole-hour/atlas/index.html\">atlas</a> | <a href=\"whole-hour/offset-fit.geojson\">GeoJSON</a></li>\n"
    ));
    assert!(page.contains("Recommendation gate closed."));
}

#[test]
fn rplan_intake_counts_edges_and_readiness() {
    let facts = RplanContextFacts {
        context_hash: "h".to_string(),
        computed_context_hash: "h".to_string(),
        unit_kind: "County".to_string(),
        canonical_order: "SortedGeoid".to_string(),
        unit_count: 4,
        graph_edge_list_lengths: Some(vec![1, 2, 2, 1]),
        population_count: Some(4),
        has_geometry_context: false,
        source_hash_count: 2,
    };
    let report = rplan_context_intake_report(facts.clone());
    assert_eq!(report.graph_edge_count, 3);
    assert!(report.context_hash_matches);
    assert!(report.rplan_context_ready);

    let mut stale = facts;
    stale.computed_context_hash = "other".to_string();
    stale.population_count = None;
    let report = rplan_context_intake_report(stale);
    assert!(!report.context_hash_matches);
    assert!(!report.has_populations);
    assert_eq!(report.population_count, 0);
    assert!(!report.rplan_context_ready);
}

#[test]
fn rplan_units_check_graph_populations_and_signs() {
    let ids = vec!["01001".to_string(), "01003".to_string()];
    assert_eq!(rplan_plan_units(&ids, false, &Some(vec![1, 2]), 2), Err(ZonePlanError::MissingRplanGraph));
    assert_eq!(rplan_plan_units(&ids, true, &None, 2), Err(ZonePlanError::MissingRplanPopulations));
    assert_eq!(
        rplan_plan_units(&ids, true, &Some(vec![1, 2]), 3),
        Err(ZonePlanError::SolarOffsetMismatch { solar_offset_count: 3, unit_count: 2 })
    );
    assert_eq!(
        rplan_plan_units(&ids, true, &Some(vec![1, -2]), 2),
        Err(ZonePlanError::NegativeRplanPopulation { unit_index: 1 })
    );
    let units = rplan_plan_units(&ids, true, &Some(vec![5, 7]), 2).unwrap();
    assert_eq!(units[1], PlanUnit { id: "01003".to_string(), name: "01003".to_string(), population: 7, source_refs: None });
}

#[test]
fn zone_rows_and_tallies_group_units_by_zone() {
    let units = vec![
        PlanUnit { id: "a".to_string(), name: "A".to_string(), population: 10, source_refs: None },
        PlanUnit { id: "b".to_string(), name: "B".to_string(), population: 20, source_refs: None },
        PlanUnit { id: "c".to_string(), name: "C".to_string(), population: 30, source_refs: None },
    ];
    let plan = ZonePlan {
        name: "p".to_string(),
        zones: vec![
            ZoneSpec { id: "utc-plus-01-00".to_string(), utc_offset_minutes: 60 },
            ZoneSpec { id: "utc-minus-01-00".to_string(), utc_offset_minutes: -60 },
        ],
        assignment: vec![0, 1, 0],
    };
    let rows = unit_zone_rows(&units, &plan, &vec![0, 0]);
    assert_eq!(rows[1].reference_zone_id, Some("utc-plus-01-00".to_string()));
    assert_eq!(rows[1].moved_from_reference, Some(true));
    assert_eq!(rows[2].moved_from_reference, None);
    let tallies = zone_tallies(&rows);
    assert_eq!(tallies.len(), 2);
    assert_eq!(tallies[0].zone_id, "utc-minus-01-00");
    assert_eq!((tallies[0].unit_count, tallies[0].population, tallies[0].moved_unit_count, tallies[0].moved_population), (1, 20, 1, 20));
    assert_eq!(tallies[1].zone_id, "utc-plus-01-00");
    assert_eq!((tallies[1].unit_count, tallies[1].population, tallies[1].moved_unit_count, tallies[1].moved_population), (2, 40, 0, 0));
}

#[test]
fn seed_county_sets_reconcile() {
    let smoke = seed_us_county_smoke_time_zone_assignments();
    assert_eq!(smoke.assignments.len(), 4);
    assert!(smoke.report(&seed_source_manifest()).is_ok());
    let seed = seed_us_county_seed_time_zone_assignments();
    let report = seed.report(&seed_source_manifest()).unwrap();
    assert_eq!(report.assignment_count, 4);
    assert_eq!(report.reconciled_count, 4);
    let reconciliation = seed_us_county_seed_geometry_reconciliation();
    assert_eq!(reconciliation.rows.len(), 4);
    assert!(reconciliation.rows[1].evidence_note.contains("0.9999933435"));
    assert!(reconciliation.rows[0]
        .evidence_note
        .ends_with("Expected assignment zone: utc-minus-06-00; geometry source: BTS/NTAD Time Zones ArcGIS FeatureServer layer 0."));
    assert!(reconciliation.report(&seed_source_manifest()).is_ok());
}

#[test]
fn source_caveats_are_prefixed_by_source() {
    let lines = source_caveat_lines(&seed_source_manifest());
    assert_eq!(lines.len(), 7);
    assert_eq!(
        lines[0],
        "census-tiger-counties-2024: Boundary source only; not evidence of legal time-zone assignment."
    );
}
