use zones_core::errors::TemporalModelError;
use zones_core::seeds::{
    seed_module_boundary_contract, seed_source_gate_policy, seed_source_limitation_matrix,
    seed_source_manifest, seed_zone_catalog,
};
use zones_core::sources::{validate_source_references, SourceCitation, SourceKind, SourceManifest};
use zones_core::temporal::TemporalExtent;

#[test]
fn temporal_extent_rejects_reversed_dates() {
    let extent = TemporalExtent {
        valid_from: Some("2026-01-01".to_string()),
        valid_to: Some("2025-01-01".to_string()),
    };

    assert_eq!(
        extent.validate(),
        Err(TemporalModelError::InvalidTemporalExtent {
            valid_from: "2026-01-01".to_string(),
            valid_to: "2025-01-01".to_string(),
        })
    );
}

#[test]
fn source_manifest_validates_referenced_sources() {
    let manifest = SourceManifest {
        manifest_id: "zones-us-baseline-sources".to_string(),
        generated_on: "2026-05-26".to_string(),
        sources: vec![
            SourceCitation {
                source_id: "census-tiger-counties-2024".to_string(),
                title: "2024 TIGER/Line Counties".to_string(),
                kind: SourceKind::GeospatialBoundary,
                url: "https://www.census.gov/cgi-bin/geo/shapefiles/index.php?layergroup=Counties&year=2024".to_string(),
                retrieved_on: "2026-05-26".to_string(),
                vintage: Some("2024".to_string()),
                content_hash: None,
                caveats: vec!["not a legal time-zone source".to_string()],
            },
            SourceCitation {
                source_id: "dot-49-cfr-71".to_string(),
                title: "49 CFR Part 71".to_string(),
                kind: SourceKind::LegalText,
                url: "https://www.ecfr.gov/current/title-49/subtitle-A/part-71".to_string(),
                retrieved_on: "2026-05-26".to_string(),
                vintage: None,
                content_hash: None,
                caveats: vec![],
            },
        ],
    };

    assert!(validate_source_references(
        &manifest,
        &[
            ("boundary_graph", "census-tiger-counties-2024"),
            ("time_zone_regime", "dot-49-cfr-71")
        ],
    )
    .is_ok());
}

#[test]
fn seed_source_manifest_reports_source_mix() {
    let report = seed_source_manifest().report().unwrap();

    assert_eq!(report.manifest_id, "zones-us-foundation-sources");
    assert_eq!(report.source_count, 7);
    assert_eq!(report.caveated_source_count, 7);
    assert_eq!(report.legal_text_count, 2);
    assert_eq!(report.geospatial_boundary_count, 2);
    assert_eq!(report.time_rule_database_count, 1);
    assert_eq!(report.population_count, 1);
    assert_eq!(report.representative_point_count, 1);
}

#[test]
fn seed_source_gate_policy_reports_ready_gate() {
    let report = seed_source_gate_policy()
        .report(&seed_source_manifest())
        .unwrap();

    assert_eq!(report.policy_id, "zones-us-foundation-source-gate-v0");
    assert_eq!(report.source_count, 7);
    assert_eq!(report.policy_entry_count, 7);
    assert_eq!(report.covered_source_count, 7);
    assert_eq!(report.missing_source_ids, Vec::<String>::new());
    assert_eq!(report.extra_entry_source_ids, Vec::<String>::new());
    assert_eq!(report.fletch_candidate_count, 4);
    assert_eq!(report.manual_reference_count, 3);
    assert_eq!(report.ignored_local_cache_count, 4);
    assert_eq!(report.reference_only_count, 3);
    assert_eq!(report.hash_required_count, 4);
    assert_eq!(report.gate_note_count, 8);
    assert!(report.source_gate_ready);
}

#[test]
fn seed_source_limitation_matrix_reports_claim_support() {
    let report = seed_source_limitation_matrix().report().unwrap();

    assert_eq!(report.matrix_id, "zones-source-limitation-matrix-v0");
    assert_eq!(report.entry_count, 5);
    assert_eq!(report.assessment_count, 14);
    assert_eq!(report.supports_count, 6);
    assert_eq!(report.partial_count, 4);
    assert_eq!(report.not_supported_count, 4);
    assert_eq!(report.caveated_entry_count, 5);
}

#[test]
fn source_limitation_matrix_rejects_duplicate_sources() {
    let mut matrix = seed_source_limitation_matrix();
    matrix.entries[1].source_id = "iana-tzdb".to_string();

    assert_eq!(
        matrix.validate(),
        Err(TemporalModelError::DuplicateSourceLimitationSourceId {
            source_id: "iana-tzdb".to_string(),
        })
    );
}

#[test]
fn seed_module_boundary_contract_reports_ownership() {
    let report = seed_module_boundary_contract().report().unwrap();

    assert_eq!(report.contract_id, "zones-module-boundaries-v0");
    assert_eq!(report.module_count, 4);
    assert_eq!(report.ownership_statement_count, 8);
    assert_eq!(report.exclusion_statement_count, 8);
    assert_eq!(report.dependency_edge_count, 5);
    assert_eq!(report.downstream_edge_count, 4);
    assert_eq!(report.caveat_count, 1);
}

#[test]
fn module_boundary_contract_rejects_empty_ownership() {
    let mut contract = seed_module_boundary_contract();
    contract.entries[0].owns.clear();

    assert_eq!(
        contract.validate(),
        Err(TemporalModelError::EmptyModuleOwnership {
            module_id: "rline".to_string(),
        })
    );
}

#[test]
fn seed_zone_catalog_reports_non_whole_hour_offsets() {
    let report = seed_zone_catalog().report().unwrap();

    assert_eq!(report.catalog_id, "zones-seed-offset-catalog");
    assert_eq!(report.zone_count, 5);
    assert_eq!(report.whole_hour_offset_count, 3);
    assert_eq!(report.non_whole_hour_offset_count, 2);
    assert_eq!(report.half_hour_offset_count, 1);
    assert_eq!(report.quarter_hour_offset_count, 1);
    assert_eq!(report.min_utc_offset_minutes, -480);
    assert_eq!(report.max_utc_offset_minutes, 345);
}

#[test]
fn source_manifest_rejects_unknown_reference() {
    let manifest = SourceManifest {
        manifest_id: "zones-empty".to_string(),
        generated_on: "2026-05-26".to_string(),
        sources: vec![],
    };

    assert_eq!(
        validate_source_references(&manifest, &[("boundary_graph", "missing-source")]),
        Err(TemporalModelError::UnknownSourceReference {
            owner_kind: "boundary_graph",
            source_id: "missing-source".to_string(),
        })
    );
}
