use zones_core::dataset::{
    validate_unique_ids, BoundaryGraphVersion, RepresentativePoint, TemporalBoundaryUnit,
    TemporalDataset, TemporalUnitEdge,
};
use zones_core::errors::TemporalModelError;
use zones_core::sources::{SourceCitation, SourceKind, SourceManifest};
use zones_core::temporal::{
    EvaluationContext, Jurisdiction, OffsetRule, RegimeAuthority, RepresentativePointMethod,
    TemporalEdgeKind, TemporalExtent, TimeZoneAssignment, TimeZoneRegime, UnitLevel,
};

fn point(source_id: &str, method: RepresentativePointMethod) -> RepresentativePoint {
    RepresentativePoint {
        coordinate_error: None,
        method,
        source_id: source_id.to_string(),
    }
}

fn pilot_source(source_id: &str, title: &str, kind: SourceKind, caveat: &str) -> SourceCitation {
    SourceCitation {
        source_id: source_id.to_string(),
        title: title.to_string(),
        kind,
        url: "https://github.com/giodl73-repo/ZONES".to_string(),
        retrieved_on: "2026-05-26".to_string(),
        vintage: Some("fixture".to_string()),
        content_hash: None,
        caveats: vec![caveat.to_string()],
    }
}

fn pilot_dataset() -> TemporalDataset {
    TemporalDataset {
        dataset_id: "zones-temporal-non-us-pilot".to_string(),
        source_manifest: SourceManifest {
            manifest_id: "zones-temporal-pilot-sources".to_string(),
            generated_on: "2026-05-26".to_string(),
            sources: vec![
                pilot_source(
                    "pilot-boundaries",
                    "Synthetic civic boundary pilot",
                    SourceKind::GeospatialBoundary,
                    "Synthetic boundary graph used only to validate the temporal model contract.",
                ),
                pilot_source(
                    "pilot-time-law",
                    "Synthetic non-US time-law pilot",
                    SourceKind::LegalText,
                    "Synthetic authority source; proves shape, not legal truth.",
                ),
                pilot_source(
                    "pilot-population",
                    "Synthetic population weights",
                    SourceKind::Population,
                    "Synthetic weights for evaluation-context validation only.",
                ),
            ],
        },
        jurisdictions: vec![
            Jurisdiction {
                jurisdiction_id: "NP".to_string(),
                name: "Nepal".to_string(),
                parent_jurisdiction_id: None,
                source_id: "pilot-boundaries".to_string(),
                temporal_extent: TemporalExtent::current(),
            },
            Jurisdiction {
                jurisdiction_id: "AU".to_string(),
                name: "Australia".to_string(),
                parent_jurisdiction_id: None,
                source_id: "pilot-boundaries".to_string(),
                temporal_extent: TemporalExtent::current(),
            },
        ],
        units: vec![
            TemporalBoundaryUnit {
                unit_id: "NP-KTM".to_string(),
                jurisdiction_id: "NP".to_string(),
                unit_level: UnitLevel::District,
                name: "Kathmandu pilot district".to_string(),
                geometry_ref: Some("pilot-boundaries#NP-KTM".to_string()),
                representative_point: point("pilot-boundaries", RepresentativePointMethod::SourceProvided),
                temporal_extent: TemporalExtent::current(),
            },
            TemporalBoundaryUnit {
                unit_id: "AU-ADL".to_string(),
                jurisdiction_id: "AU".to_string(),
                unit_level: UnitLevel::Municipality,
                name: "Adelaide pilot municipality".to_string(),
                geometry_ref: Some("pilot-boundaries#AU-ADL".to_string()),
                representative_point: point("pilot-boundaries", RepresentativePointMethod::SourceProvided),
                temporal_extent: TemporalExtent::current(),
            },
        ],
        boundary_graphs: vec![BoundaryGraphVersion {
            graph_id: "pilot-global-temporal-graph".to_string(),
            unit_universe_id: "pilot-global-temporal-units".to_string(),
            source_id: "pilot-boundaries".to_string(),
            temporal_extent: TemporalExtent::current(),
            adjacency: vec![vec![], vec![]],
        }],
        regimes: vec![
            TimeZoneRegime {
                regime_id: "nepal-current-law".to_string(),
                authority: RegimeAuthority::CurrentLaw,
                jurisdiction_scope: "NP".to_string(),
                source_id: "pilot-time-law".to_string(),
                temporal_extent: TemporalExtent::current(),
                assignments: vec![TimeZoneAssignment {
                    unit_id: "NP-KTM".to_string(),
                    zone_id: "NPT".to_string(),
                    temporal_extent: TemporalExtent::current(),
                }],
                offset_rules: vec![OffsetRule {
                    rule_id: "npt-current".to_string(),
                    zone_id: "NPT".to_string(),
                    standard_offset_minutes: 345,
                    temporal_extent: TemporalExtent::current(),
                    dst_delta_minutes: None,
                    transition_rule_ref: None,
                    observance_notes: vec!["Quarter-hour offset pilot.".to_string()],
                }],
            },
            TimeZoneRegime {
                regime_id: "south-australia-current-law".to_string(),
                authority: RegimeAuthority::CurrentLaw,
                jurisdiction_scope: "AU-SA".to_string(),
                source_id: "pilot-time-law".to_string(),
                temporal_extent: TemporalExtent::current(),
                assignments: vec![TimeZoneAssignment {
                    unit_id: "AU-ADL".to_string(),
                    zone_id: "ACST".to_string(),
                    temporal_extent: TemporalExtent::current(),
                }],
                offset_rules: vec![OffsetRule {
                    rule_id: "acst-current".to_string(),
                    zone_id: "ACST".to_string(),
                    standard_offset_minutes: 570,
                    temporal_extent: TemporalExtent::current(),
                    dst_delta_minutes: Some(60),
                    transition_rule_ref: Some("southern-hemisphere-seasonal-dst".to_string()),
                    observance_notes: vec!["Half-hour standard offset with a DST delta pilot.".to_string()],
                }],
            },
        ],
        evaluation_contexts: vec![
            EvaluationContext {
                evaluation_period: TemporalExtent::current(),
                boundary_graph_id: "pilot-global-temporal-graph".to_string(),
                regime_id: "nepal-current-law".to_string(),
                representative_point_method: RepresentativePointMethod::SourceProvided,
                weighting_source_id: "pilot-population".to_string(),
                source_vintage: "fixture".to_string(),
            },
            EvaluationContext {
                evaluation_period: TemporalExtent::current(),
                boundary_graph_id: "pilot-global-temporal-graph".to_string(),
                regime_id: "south-australia-current-law".to_string(),
                representative_point_method: RepresentativePointMethod::SourceProvided,
                weighting_source_id: "pilot-population".to_string(),
                source_vintage: "fixture".to_string(),
            },
        ],
        caveats: vec![
            "Synthetic non-US fixture validates the data contract only; it is not a legal dataset."
                .to_string(),
        ],
    }
}

#[test]
fn temporal_global_model_validates_non_us_regime_over_time() {
    let unit = TemporalBoundaryUnit {
        unit_id: "CA-BC-001".to_string(),
        jurisdiction_id: "CA-BC".to_string(),
        unit_level: UnitLevel::Province,
        name: "British Columbia pilot unit".to_string(),
        geometry_ref: Some("sha256:geometry-placeholder".to_string()),
        representative_point: point("pilot-source", RepresentativePointMethod::InternalPoint),
        temporal_extent: TemporalExtent {
            valid_from: Some("2020-01-01".to_string()),
            valid_to: None,
        },
    };
    let graph = BoundaryGraphVersion {
        graph_id: "ca-bc-pilot-2020".to_string(),
        unit_universe_id: "ca-bc-pilot-units".to_string(),
        source_id: "pilot-source".to_string(),
        temporal_extent: TemporalExtent {
            valid_from: Some("2020-01-01".to_string()),
            valid_to: None,
        },
        adjacency: vec![vec![]],
    };
    let regime = TimeZoneRegime {
        regime_id: "ca-bc-current-law-pilot".to_string(),
        authority: RegimeAuthority::CurrentLaw,
        jurisdiction_scope: "CA-BC".to_string(),
        source_id: "pilot-time-source".to_string(),
        temporal_extent: TemporalExtent {
            valid_from: Some("2020-01-01".to_string()),
            valid_to: None,
        },
        assignments: vec![TimeZoneAssignment {
            unit_id: "CA-BC-001".to_string(),
            zone_id: "america-vancouver".to_string(),
            temporal_extent: TemporalExtent::current(),
        }],
        offset_rules: vec![OffsetRule {
            rule_id: "america-vancouver-standard-dst".to_string(),
            zone_id: "america-vancouver".to_string(),
            standard_offset_minutes: -480,
            temporal_extent: TemporalExtent::current(),
            dst_delta_minutes: Some(60),
            transition_rule_ref: Some("iana:America/Vancouver".to_string()),
            observance_notes: vec!["pilot rule; verify against source before use".to_string()],
        }],
    };

    assert!(unit.validate().is_ok());
    assert!(graph.validate(1).is_ok());
    assert!(regime.validate(&vec![unit]).is_ok());
    assert_eq!(regime.offset_rules[0].effective_offset_minutes(false), -480);
    assert_eq!(regime.offset_rules[0].effective_offset_minutes(true), -420);
}

#[test]
fn regime_rejects_unknown_zone_assignment() {
    let unit = TemporalBoundaryUnit {
        unit_id: "FR-001".to_string(),
        jurisdiction_id: "FR".to_string(),
        unit_level: UnitLevel::Imported,
        name: "France pilot unit".to_string(),
        geometry_ref: None,
        representative_point: point("pilot-source", RepresentativePointMethod::SourceProvided),
        temporal_extent: TemporalExtent::current(),
    };
    let regime = TimeZoneRegime {
        regime_id: "fr-bad".to_string(),
        authority: RegimeAuthority::AnalyticCounterfactual,
        jurisdiction_scope: "FR".to_string(),
        source_id: "pilot-source".to_string(),
        temporal_extent: TemporalExtent::current(),
        assignments: vec![TimeZoneAssignment {
            unit_id: "FR-001".to_string(),
            zone_id: "missing-zone".to_string(),
            temporal_extent: TemporalExtent::current(),
        }],
        offset_rules: vec![],
    };

    assert_eq!(
        regime.validate(&vec![unit]),
        Err(TemporalModelError::UnknownAssignmentZone {
            zone_id: "missing-zone".to_string(),
        })
    );
}

#[test]
fn seed_temporal_dataset_reports_non_us_offsets_and_dst() {
    let report = pilot_dataset().report().unwrap();

    assert_eq!(report.dataset_id, "zones-temporal-non-us-pilot");
    assert_eq!(report.unit_count, 2);
    assert_eq!(report.current_law_regime_count, 2);
    assert_eq!(report.offset_rule_count, 2);
    assert_eq!(report.dst_rule_count, 1);
    assert_eq!(report.non_whole_hour_rule_count, 2);
}

#[test]
fn temporal_dataset_rejects_unknown_evaluation_regime() {
    let mut dataset = pilot_dataset();
    dataset.evaluation_contexts[0].regime_id = "missing-regime".to_string();

    assert_eq!(
        dataset.validate(),
        Err(TemporalModelError::UnknownEvaluationRegime {
            regime_id: "missing-regime".to_string(),
        })
    );
}

#[test]
fn temporal_dataset_report_counts_every_record() {
    let report = pilot_dataset().report().unwrap();

    assert_eq!(report.source_manifest_id, "zones-temporal-pilot-sources");
    assert_eq!(report.jurisdiction_count, 2);
    assert_eq!(report.boundary_graph_count, 1);
    assert_eq!(report.regime_count, 2);
    assert_eq!(report.evaluation_context_count, 2);
    assert_eq!(report.historical_law_regime_count, 0);
    assert_eq!(report.proposed_scenario_regime_count, 0);
    assert_eq!(report.analytic_counterfactual_regime_count, 0);
    assert_eq!(report.caveat_count, 1);
}

#[test]
fn temporal_dataset_rejects_duplicate_unit_ids() {
    let mut dataset = pilot_dataset();
    dataset.units[1].unit_id = "NP-KTM".to_string();

    assert_eq!(
        dataset.validate(),
        Err(TemporalModelError::DuplicateDatasetId {
            kind: "unit",
            id: "NP-KTM".to_string(),
        })
    );
}

#[test]
fn temporal_dataset_rejects_empty_dataset_id() {
    let mut dataset = pilot_dataset();
    dataset.dataset_id = String::new();

    assert_eq!(
        dataset.validate(),
        Err(TemporalModelError::EmptyId {
            kind: "temporal_dataset.dataset_id",
        })
    );
}

#[test]
fn temporal_dataset_rejects_unknown_unit_jurisdiction() {
    let mut dataset = pilot_dataset();
    dataset.units[0].jurisdiction_id = "IN".to_string();

    assert_eq!(
        dataset.validate(),
        Err(TemporalModelError::UnknownJurisdiction {
            owner_kind: "boundary_unit.jurisdiction_id",
            jurisdiction_id: "IN".to_string(),
        })
    );
}

#[test]
fn temporal_dataset_rejects_unknown_parent_jurisdiction() {
    let mut dataset = pilot_dataset();
    dataset.jurisdictions[1].parent_jurisdiction_id = Some("OC".to_string());

    assert_eq!(
        dataset.validate(),
        Err(TemporalModelError::UnknownJurisdiction {
            owner_kind: "jurisdiction.parent_jurisdiction_id",
            jurisdiction_id: "OC".to_string(),
        })
    );
}

#[test]
fn temporal_dataset_rejects_graph_of_wrong_size() {
    let mut dataset = pilot_dataset();
    dataset.boundary_graphs[0].adjacency = vec![vec![]];

    assert_eq!(
        dataset.validate(),
        Err(TemporalModelError::GraphUnitMismatch {
            adjacency_len: 1,
            unit_count: 2,
        })
    );
}

#[test]
fn temporal_dataset_rejects_uncited_weighting_source() {
    let mut dataset = pilot_dataset();
    dataset.evaluation_contexts[1].weighting_source_id = "census-weights".to_string();

    assert_eq!(
        dataset.validate(),
        Err(TemporalModelError::UnknownSourceReference {
            owner_kind: "evaluation_context",
            source_id: "census-weights".to_string(),
        })
    );
}

#[test]
fn temporal_dataset_reports_coordinate_errors_of_units() {
    let mut dataset = pilot_dataset();
    dataset.units[1].representative_point.coordinate_error = Some(TemporalModelError::InvalidLatitude {
        latitude: "-95".to_string(),
    });

    assert_eq!(
        dataset.validate(),
        Err(TemporalModelError::InvalidLatitude {
            latitude: "-95".to_string(),
        })
    );
}

#[test]
fn temporal_dataset_rejects_unknown_evaluation_graph() {
    let mut dataset = pilot_dataset();
    dataset.evaluation_contexts[1].boundary_graph_id = "missing-graph".to_string();

    assert_eq!(
        dataset.validate(),
        Err(TemporalModelError::UnknownEvaluationBoundaryGraph {
            boundary_graph_id: "missing-graph".to_string(),
        })
    );
}

#[test]
fn boundary_graph_rejects_out_of_range_edges_and_bad_weights() {
    let mut graph = BoundaryGraphVersion {
        graph_id: "g".to_string(),
        unit_universe_id: "u".to_string(),
        source_id: "s".to_string(),
        temporal_extent: TemporalExtent::current(),
        adjacency: vec![
            vec![TemporalUnitEdge { to: 1, kind: TemporalEdgeKind::LandBoundary, weight_error: None }],
            vec![TemporalUnitEdge { to: 2, kind: TemporalEdgeKind::Ferry, weight_error: None }],
        ],
    };
    assert_eq!(
        graph.validate(2),
        Err(TemporalModelError::EdgeOutOfBounds { from: 1, to: 2, unit_count: 2 })
    );

    graph.adjacency[1][0].to = 0;
    graph.adjacency[0][0].weight_error = Some("-1".to_string());
    assert_eq!(
        graph.validate(2),
        Err(TemporalModelError::InvalidEdgeWeight { from: 0, to: 1, weight: "-1".to_string() })
    );

    graph.adjacency[0][0].weight_error = None;
    assert_eq!(graph.validate(2), Ok(()));
}

#[test]
fn unique_ids_reject_empty_then_repeated_ids() {
    let ids = vec!["a".to_string(), "b".to_string(), "a".to_string()];
    assert_eq!(
        validate_unique_ids("unit", &ids),
        Err(TemporalModelError::DuplicateDatasetId { kind: "unit", id: "a".to_string() })
    );
    let ids = vec!["a".to_string(), String::new(), "a".to_string()];
    assert_eq!(
        validate_unique_ids("unit", &ids),
        Err(TemporalModelError::EmptyId { kind: "unit" })
    );
    assert_eq!(validate_unique_ids("unit", &vec!["x".to_string()]), Ok(()));
}

#[test]
fn temporal_extent_accepts_open_and_ordered_intervals() {
    assert_eq!(TemporalExtent::current().validate(), Ok(()));
    let ordered = TemporalExtent {
        valid_from: Some("2020-01-01".to_string()),
        valid_to: Some("2020-01-02".to_string()),
    };
    assert_eq!(ordered.validate(), Ok(()));
    let same = TemporalExtent {
        valid_from: Some("2020-01-01".to_string()),
        valid_to: Some("2020-01-01".to_string()),
    };
    assert!(same.validate().is_err());
}

#[test]
fn offset_rule_rejects_offsets_beyond_fourteen_hours() {
    let rule = OffsetRule {
        rule_id: "far".to_string(),
        zone_id: "far-zone".to_string(),
        standard_offset_minutes: 841,
        temporal_extent: TemporalExtent::current(),
        dst_delta_minutes: None,
        transition_rule_ref: None,
        observance_notes: vec![],
    };
    assert_eq!(
        rule.validate(),
        Err(TemporalModelError::InvalidUtcOffset {
            rule_id: "far".to_string(),
            standard_offset_minutes: 841,
        })
    );
    assert_eq!(rule.effective_offset_minutes(true), 841);
}
