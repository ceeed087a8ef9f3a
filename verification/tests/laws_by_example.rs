use std::collections::HashSet;

use zones_core::candidates::candidate_zone_plan;
use zones_core::format::offset_zone_id;
use zones_core::geojoin::{plan_geometry_join, GeoFeature};
use zones_core::render::{escape_json, escape_xml};
use zones_core::errors::TemporalModelError;
use zones_core::seeds::{
    seed_module_boundary_contract, seed_source_gate_policy, seed_source_limitation_matrix,
    seed_source_manifest, seed_us_county_seed_geometry_reconciliation,
    seed_us_county_seed_time_zone_assignments, seed_us_county_smoke_time_zone_assignments,
    seed_zone_catalog,
};
use zones_core::temporal::{OffsetRule, TemporalExtent};
use zones_core::plans::PlanUnit;
use zones_core::scores::{unit_zone_rows, zone_tallies};
use zones_core::zones::{ZonePlan, ZoneSpec};

#[test]
fn zone_ids_are_distinct_across_the_offset_range() {
    let mut seen = HashSet::new();
    for offset in -840..=840 {
        assert!(seen.insert(offset_zone_id(offset)), "repeated id for {offset}");
    }
    assert_eq!(seen.len(), 1681);
}

#[test]
fn escaped_text_holds_no_raw_markup_or_line_breaks() {
    let text = "<a href=\"x\">&\n\r</a>";
    let xml = escape_xml(text);
    assert!(!xml.contains('<') && !xml.contains('>') && !xml.contains('"'));
    let json = escape_json(text);
    assert!(!json.contains('\n') && !json.contains('\r'));
    assert_eq!(escape_xml("plain text"), "plain text");
}

#[test]
fn catalog_report_splits_zones_by_hour_alignment() {
    let report = seed_zone_catalog().report().unwrap();
    assert_eq!(report.whole_hour_offset_count + report.non_whole_hour_offset_count, report.zone_count);
    assert!(report.half_hour_offset_count + report.quarter_hour_offset_count <= report.non_whole_hour_offset_count);
}

#[test]
fn manifest_report_counts_each_source_under_one_kind() {
    let report = seed_source_manifest().report().unwrap();
    let kinds = report.legal_text_count
        + report.geospatial_boundary_count
        + report.time_rule_database_count
        + report.population_count
        + report.representative_point_count
        + report.derived_manifest_count
        + report.research_note_count
        + report.imported_count;
    assert_eq!(kinds, report.source_count);
}

#[test]
fn ready_gate_leaves_nothing_uncovered() {
    let report = seed_source_gate_policy().report(&seed_source_manifest()).unwrap();
    assert!(report.source_gate_ready);
    assert!(report.missing_source_ids.is_empty() && report.extra_entry_source_ids.is_empty());

    let mut policy = seed_source_gate_policy();
    policy.entries.pop();
    let report = policy.report(&seed_source_manifest()).unwrap();
    assert!(!report.source_gate_ready);
    assert_eq!(report.missing_source_ids, vec!["iana-tzdb-theory".to_string()]);
}

#[test]
fn candidate_zone_holds_each_units_best_offset() {
    let best = vec![-300, -360, -345, -360, -285, -345];
    let (zones, assignment) = candidate_zone_plan(&best);
    for (unit, offset) in best.iter().enumerate() {
        assert_eq!(zones[assignment[unit]].utc_offset_minutes, *offset);
    }
}

#[test]
fn daylight_saving_adds_exactly_the_delta() {
    let rule = OffsetRule {
        rule_id: "r".to_string(),
        zone_id: "z".to_string(),
        standard_offset_minutes: 570,
        temporal_extent: TemporalExtent::current(),
        dst_delta_minutes: Some(60),
        transition_rule_ref: None,
        observance_notes: vec![],
    };
    assert_eq!(rule.effective_offset_minutes(false), 570);
    assert_eq!(rule.effective_offset_minutes(true) - rule.effective_offset_minutes(false), 60);
    let no_dst = OffsetRule { dst_delta_minutes: None, ..rule };
    assert_eq!(no_dst.effective_offset_minutes(true), 570);
}

#[test]
fn zone_tallies_account_for_every_unit_once() {
    let units = (0..7u64)
        .map(|k| PlanUnit {
            id: format!("u{k}"),
            name: format!("Unit {k}"),
            population: 10 + k,
            source_refs: None,
        })
        .collect::<Vec<_>>();
    let plan = ZonePlan {
        name: "three zones".to_string(),
        zones: vec![
            ZoneSpec { id: "utc-minus-05-00".to_string(), utc_offset_minutes: -300 },
            ZoneSpec { id: "utc-minus-06-00".to_string(), utc_offset_minutes: -360 },
            ZoneSpec { id: "utc-minus-07-00".to_string(), utc_offset_minutes: -420 },
        ],
        assignment: vec![2, 0, 1, 0, 2, 2, 1],
    };
    let rows = unit_zone_rows(&units, &plan, &vec![2, 0, 0, 0, 1, 2, 1]);
    let tallies = zone_tallies(&rows);
    assert_eq!(tallies.len(), 3);
    assert_eq!(tallies.iter().map(|t| t.unit_count).sum::<usize>(), units.len());
    assert_eq!(
        tallies.iter().map(|t| t.population).sum::<u64>(),
        units.iter().map(|u| u.population).sum::<u64>()
    );
    assert_eq!(tallies.iter().map(|t| t.moved_unit_count).sum::<usize>(), 2);
}

#[test]
fn geometry_join_gives_each_feature_to_one_unit() {
    let feature = |id: &str| GeoFeature {
        property_id: Some(id.to_string()),
        feature_id: None,
        geometry_type: Some("Polygon".to_string()),
    };
    let features = vec![feature("a"), feature("b")];
    let ids = vec!["a".to_string(), "b".to_string(), "a".to_string(), "c".to_string()];
    let plan = plan_geometry_join(&"FeatureCollection".to_string(), &features, &ids, false).unwrap();
    let taken = plan.feature_for_unit.iter().flatten().collect::<Vec<_>>();
    let distinct = taken.iter().collect::<HashSet<_>>();
    assert_eq!(taken.len(), distinct.len());
    assert_eq!(plan.feature_for_unit, vec![Some(0), Some(1), None, None]);
    assert_eq!(plan.matched_unit_count, 2);
}

#[test]
fn gate_report_counts_each_entry_once_per_dimension() {
    let report = seed_source_gate_policy().report(&seed_source_manifest()).unwrap();
    let modes = report.manual_reference_count
        + report.fletch_candidate_count
        + report.local_derived_count
        + report.synthetic_fixture_count
        + report.imported_count;
    let caches = report.reference_only_count
        + report.ignored_local_cache_count
        + report.derived_metadata_only_count
        + report.committed_fixture_count;
    assert_eq!(modes, report.policy_entry_count);
    assert_eq!(caches, report.policy_entry_count);
    assert!(report.source_gate_ready);
    assert_eq!(report.covered_source_count, report.source_count);
}

#[test]
fn limitation_support_levels_partition_assessments() {
    let report = seed_source_limitation_matrix().report().unwrap();
    assert_eq!(
        report.supports_count + report.partial_count + report.not_supported_count + report.unknown_count,
        report.assessment_count
    );
}

#[test]
fn county_assignment_statuses_partition_assignments() {
    let report = seed_us_county_smoke_time_zone_assignments().report(&seed_source_manifest()).unwrap();
    assert_eq!(
        report.placeholder_count + report.reconciled_count + report.split_county_count + report.uncertain_count,
        report.assignment_count
    );
}

#[test]
fn manifest_with_a_repeated_source_id_does_not_validate() {
    let mut manifest = seed_source_manifest();
    assert!(manifest.validate().is_ok());
    manifest.sources[4].source_id = manifest.sources[1].source_id.clone();
    assert_eq!(
        manifest.validate(),
        Err(TemporalModelError::DuplicateSourceId { source_id: "census-county-gazetteer-2024".to_string() })
    );
}

#[test]
fn seed_records_validate() {
    let manifest = seed_source_manifest();
    assert!(seed_source_gate_policy().validate().is_ok());
    assert!(seed_source_limitation_matrix().validate().is_ok());
    assert!(seed_module_boundary_contract().validate().is_ok());
    assert!(seed_us_county_seed_time_zone_assignments().report(&manifest).is_ok());
    assert!(seed_us_county_seed_geometry_reconciliation().report(&manifest).is_ok());
}
