use zones_core::baseline::{build_county_baseline_plan_input, CountyContextFacts};
use zones_core::dataset::RepresentativePoint;
use zones_core::evaluation::{validate_plan_input, zone_plan_source_ref_report};
use zones_core::errors::{TemporalModelError, ZonePlanError};
use zones_core::points::{CountyRepresentativePointRecord, CountyRepresentativePointSet};
use zones_core::seeds::{seed_source_manifest, seed_us_county_smoke_time_zone_assignments, seed_zone_catalog};
use zones_core::temporal::RepresentativePointMethod;
use zones_core::zones::{ZoneScenario, ZoneScenarioKind};

fn county_ids() -> Vec<String> {
    vec!["01001", "01003", "12001", "12003"].into_iter().map(String::from).collect()
}

fn smoke_points() -> CountyRepresentativePointSet {
    CountyRepresentativePointSet {
        point_set_id: "zones-us-county-smoke-representative-points".to_string(),
        source_manifest_id: "zones-us-foundation-sources".to_string(),
        generated_on: "2026-05-26".to_string(),
        records: county_ids()
            .into_iter()
            .map(|unit_id| CountyRepresentativePointRecord {
                unit_id,
                point: RepresentativePoint {
                    coordinate_error: None,
                    method: RepresentativePointMethod::InternalPoint,
                    source_id: "census-county-gazetteer-2024".to_string(),
                },
                solar_offset_error: None,
                caveats: vec!["Census internal point is exploratory and not population-weighted.".to_string()],
            })
            .collect(),
    }
}

fn smoke_context() -> CountyContextFacts {
    CountyContextFacts {
        unit_ids: county_ids(),
        boundary_source_id: Some("census-tiger-counties-2024".to_string()),
        adjacency: Some(vec![vec![1], vec![0, 2], vec![1, 3], vec![2]]),
        populations: Some(vec![10, 20, 30, 40]),
    }
}

fn smoke_scenario() -> ZoneScenario {
    ZoneScenario {
        scenario_id: "us-county-smoke-current-law-shape".to_string(),
        kind: ZoneScenarioKind::CurrentLaw,
        label: "US county smoke current-law baseline input".to_string(),
        authority_source_id: Some("dot-49-cfr-71".to_string()),
    }
}

#[test]
fn county_baseline_orders_zones_by_id_and_keeps_reference() {
    let built = build_county_baseline_plan_input(
        &"zones-us-county-baseline-smoke-plan-input".to_string(),
        smoke_scenario(),
        smoke_context(),
        &seed_us_county_smoke_time_zone_assignments(),
        &smoke_points(),
        &seed_zone_catalog(),
        vec!["caveat".to_string()],
    )
    .unwrap();
    let input = built.input;

    assert_eq!(input.plan.name, "zones-us-county-baseline-smoke-plan-input-plan");
    assert_eq!(
        input.plan.zones.iter().map(|zone| (zone.id.as_str(), zone.utc_offset_minutes)).collect::<Vec<_>>(),
        vec![("utc-minus-05-00", -300), ("utc-minus-06-00", -360)]
    );
    assert_eq!(input.plan.assignment, vec![1, 1, 0, 0]);
    assert_eq!(input.reference_assignment, vec![1, 1, 0, 0]);
    assert_eq!(built.point_record_for_unit, vec![0, 1, 2, 3]);
    assert_eq!(input.units[2].name, "GEOID 12001 baseline smoke unit");
    assert_eq!(input.units[3].population, 40);
    let refs = input.units[0].source_refs.clone().unwrap();
    assert_eq!(refs.boundary_source_id, Some("census-tiger-counties-2024".to_string()));
    assert_eq!(refs.population_source_id, Some("census-county-population-estimates-2024".to_string()));
    assert_eq!(refs.time_zone_geometry_source_id, Some("dot-time-zone-map-layer".to_string()));
    assert_eq!(refs.caveats.len(), 2);
    assert_eq!(input.adjacency, vec![vec![1], vec![0, 2], vec![1, 3], vec![2]]);
}

#[test]
fn county_baseline_reports_missing_parts() {
    let mut context = smoke_context();
    context.unit_ids.push("13001".to_string());
    context.populations = Some(vec![10, 20, 30, 40, 50]);
    let err = build_county_baseline_plan_input(
        &"input".to_string(),
        smoke_scenario(),
        context,
        &seed_us_county_smoke_time_zone_assignments(),
        &smoke_points(),
        &seed_zone_catalog(),
        vec![],
    )
    .unwrap_err();
    assert_eq!(err, ZonePlanError::RplanContext("missing county time-zone assignment for unit 13001".to_string()));

    let mut points = smoke_points();
    points.records.remove(2);
    let err = build_county_baseline_plan_input(
        &"input".to_string(),
        smoke_scenario(),
        smoke_context(),
        &seed_us_county_smoke_time_zone_assignments(),
        &points,
        &seed_zone_catalog(),
        vec![],
    )
    .unwrap_err();
    assert_eq!(err, ZonePlanError::RplanContext("missing representative point for unit 12001".to_string()));

    let mut context = smoke_context();
    context.adjacency = None;
    let err = build_county_baseline_plan_input(
        &"input".to_string(),
        smoke_scenario(),
        context,
        &seed_us_county_smoke_time_zone_assignments(),
        &smoke_points(),
        &seed_zone_catalog(),
        vec![],
    )
    .unwrap_err();
    assert_eq!(err, ZonePlanError::MissingRplanGraph);

    let mut context = smoke_context();
    context.populations = Some(vec![10, -1, 30, 40]);
    let err = build_county_baseline_plan_input(
        &"input".to_string(),
        smoke_scenario(),
        context,
        &seed_us_county_smoke_time_zone_assignments(),
        &smoke_points(),
        &seed_zone_catalog(),
        vec![],
    )
    .unwrap_err();
    assert_eq!(err, ZonePlanError::NegativeRplanPopulation { unit_index: 1 });

    let mut catalog = seed_zone_catalog();
    catalog.zones.remove(2);
    let err = build_county_baseline_plan_input(
        &"input".to_string(),
        smoke_scenario(),
        smoke_context(),
        &seed_us_county_smoke_time_zone_assignments(),
        &smoke_points(),
        &catalog,
        vec![],
    )
    .unwrap_err();
    assert_eq!(
        err,
        ZonePlanError::PlanZoneMissingFromCatalog {
            zone_id: "utc-minus-05-00".to_string(),
            catalog_id: "zones-seed-offset-catalog".to_string(),
        }
    );

    let mut points = smoke_points();
    points.source_manifest_id = "other".to_string();
    let err = build_county_baseline_plan_input(
        &"input".to_string(),
        smoke_scenario(),
        smoke_context(),
        &seed_us_county_smoke_time_zone_assignments(),
        &points,
        &seed_zone_catalog(),
        vec![],
    )
    .unwrap_err();
    assert_eq!(
        err,
        ZonePlanError::SourceManifestMismatch {
            input_source_manifest_id: "zones-us-foundation-sources".to_string(),
            manifest_id: "zones-us-foundation-sources".to_string(),
        }
    );
}

#[test]
fn representative_points_report_counts_methods() {
    let counts = smoke_points().report(&seed_source_manifest()).unwrap();
    assert_eq!(counts.record_count, 4);
    assert_eq!(counts.internal_point_count, 4);
    assert_eq!(counts.caveated_record_count, 4);
    assert_eq!(counts.caveat_count, 4);
    assert!(counts.exploratory_point_method);

    let mut points = smoke_points();
    points.records[3].point.source_id = "unknown-points".to_string();
    assert_eq!(
        points.report(&seed_source_manifest()),
        Err(TemporalModelError::UnknownSourceReference {
            owner_kind: "county_representative_point.source_id",
            source_id: "unknown-points".to_string(),
        })
    );
    let mut points = smoke_points();
    points.records[0].solar_offset_error = Some(TemporalModelError::InvalidLongitude { longitude: "NaN".to_string() });
    assert_eq!(
        points.report(&seed_source_manifest()),
        Err(TemporalModelError::InvalidLongitude { longitude: "NaN".to_string() })
    );
}

#[test]
fn county_baseline_input_passes_the_plan_checks() {
    let built = build_county_baseline_plan_input(
        &"zones-us-county-baseline-smoke-plan-input".to_string(),
        smoke_scenario(),
        smoke_context(),
        &seed_us_county_smoke_time_zone_assignments(),
        &smoke_points(),
        &seed_zone_catalog(),
        vec!["caveat".to_string()],
    )
    .unwrap();
    assert_eq!(validate_plan_input(&built.input, None), Ok(()));
    let report = zone_plan_source_ref_report(&built.input, &seed_source_manifest(), None, Ok((1, true))).unwrap();
    assert_eq!(report.units_with_source_refs + report.units_missing_source_refs, report.unit_count);
    assert_eq!(
        report.boundary_source_ref_count + report.missing_boundary_source_ref_count,
        report.unit_count
    );
    assert_eq!(
        report.time_zone_geometry_source_ref_count + report.missing_time_zone_geometry_source_ref_count,
        report.unit_count
    );
    assert!(report.publishable_source_ref_coverage);
}
