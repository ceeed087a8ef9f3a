use zones_core::candidates::{build_offset_candidate_plan, candidate_zone_plan, moved_from_baseline_zone_ids};
use zones_core::errors::ZonePlanError;
use zones_core::evaluation::{
    evaluate_plan_structure, evaluate_plan_structure_with_manifest,
    evaluate_plan_structure_with_manifest_and_catalog, reference_movement, total_population,
    validate_plan_input, validate_reference_assignment, zone_plan_source_ref_report, PlanInput,
};
use zones_core::plans::{labels_in_use, validate_plan_inputs, PlanUnit};
use zones_core::seeds::{seed_source_manifest, seed_zone_catalog};
use zones_core::zones::{
    BoundaryUnitSourceRefs, OffsetCandidateGrid, ZonePlan, ZoneScenario, ZoneScenarioKind, ZoneSpec,
};

fn unit(id: &str, name: &str, population: u64) -> PlanUnit {
    PlanUnit {
        id: id.to_string(),
        name: name.to_string(),
        population,
        source_refs: None,
    }
}

fn seed_units() -> Vec<PlanUnit> {
    vec![
        unit("west-a", "West A County", 100),
        unit("west-b", "West B County", 80),
        unit("east-a", "East A County", 90),
        unit("east-b", "East B County", 70),
    ]
}

fn seed_adjacency() -> Vec<Vec<usize>> {
    vec![vec![1, 2], vec![0, 3], vec![0, 3], vec![1, 2]]
}

fn seed_plan() -> ZonePlan {
    ZonePlan {
        name: "seed-two-zone-plan".to_string(),
        zones: vec![
            ZoneSpec { id: "utc-minus-06-00".to_string(), utc_offset_minutes: -360 },
            ZoneSpec { id: "utc-minus-05-00".to_string(), utc_offset_minutes: -300 },
        ],
        assignment: vec![0, 0, 1, 1],
    }
}

fn seed_plan_input() -> PlanInput {
    PlanInput {
        input_id: "zones-seed-plan-input".to_string(),
        source_manifest_id: "zones-us-foundation-sources".to_string(),
        scenario: ZoneScenario {
            scenario_id: "seed-current-law-baseline".to_string(),
            kind: ZoneScenarioKind::CurrentLaw,
            label: "Seed current-law baseline".to_string(),
            authority_source_id: Some("dot-49-cfr-71".to_string()),
        },
        units: seed_units(),
        adjacency: seed_adjacency(),
        plan: seed_plan(),
        reference_assignment: vec![0, 0, 1, 1],
        caveats: vec!["Synthetic fixture for evaluator contract tests only.".to_string()],
    }
}

// Boundary metrics of the seed assignment: two cut edges, both zones connected.
const SEED_METRICS: Result<(usize, bool), ZonePlanError> = Ok((2, true));

#[test]
fn plan_input_reports_moves_from_reference_assignment() {
    let mut input = seed_plan_input();
    input.plan.assignment = vec![0, 1, 1, 1];

    let report = evaluate_plan_structure(&input, None, Ok((2, true))).unwrap();

    assert_eq!(report.moved_unit_count, Some(1));
    assert_eq!(report.moved_population, Some(80));
}

#[test]
fn reference_assignment_length_is_validated() {
    let mut input = seed_plan_input();
    input.reference_assignment = vec![0, 1];

    assert_eq!(
        evaluate_plan_structure(&input, None, SEED_METRICS),
        Err(ZonePlanError::ReferenceAssignmentMismatch {
            reference_assignment_count: 2,
            unit_count: 4,
        })
    );
}

#[test]
fn seed_plan_input_scores_with_matching_source_manifest() {
    let report =
        evaluate_plan_structure_with_manifest(&seed_plan_input(), &seed_source_manifest(), None, SEED_METRICS)
            .unwrap();

    assert_eq!(report.unit_count, 4);
    assert_eq!(report.zone_count, 2);
    assert_eq!(report.total_population, 340);
    assert_eq!(report.moved_unit_count, Some(0));
    assert_eq!(report.moved_population, Some(0));
}

#[test]
fn seed_plan_input_scores_with_matching_catalog() {
    let report = evaluate_plan_structure_with_manifest_and_catalog(
        &seed_plan_input(),
        &seed_source_manifest(),
        &seed_zone_catalog(),
        None,
        SEED_METRICS,
    )
    .unwrap();

    assert_eq!(report.unit_count, 4);
    assert_eq!(report.boundary_edges, 2);
    assert!(report.all_zones_connected);
}

#[test]
fn plan_input_rejects_missing_catalog_zone() {
    let mut catalog = seed_zone_catalog();
    catalog.zones.retain(|zone| zone.id != "utc-minus-06-00");

    assert_eq!(
        evaluate_plan_structure_with_manifest_and_catalog(
            &seed_plan_input(),
            &seed_source_manifest(),
            &catalog,
            None,
            SEED_METRICS,
        ),
        Err(ZonePlanError::PlanZoneMissingFromCatalog {
            zone_id: "utc-minus-06-00".to_string(),
            catalog_id: "zones-seed-offset-catalog".to_string(),
        })
    );
}

#[test]
fn plan_input_rejects_catalog_offset_mismatch() {
    let mut catalog = seed_zone_catalog();
    catalog.zones[1].utc_offset_minutes = -300;

    assert_eq!(
        evaluate_plan_structure_with_manifest_and_catalog(
            &seed_plan_input(),
            &seed_source_manifest(),
            &catalog,
            None,
            SEED_METRICS,
        ),
        Err(ZonePlanError::PlanZoneCatalogOffsetMismatch {
            zone_id: "utc-minus-06-00".to_string(),
            plan_utc_offset_minutes: -360,
            catalog_utc_offset_minutes: -300,
        })
    );
}

#[test]
fn plan_input_rejects_mismatched_source_manifest() {
    let mut manifest = seed_source_manifest();
    manifest.manifest_id = "different-manifest".to_string();

    assert_eq!(
        evaluate_plan_structure_with_manifest(&seed_plan_input(), &manifest, None, SEED_METRICS),
        Err(ZonePlanError::SourceManifestMismatch {
            input_source_manifest_id: "zones-us-foundation-sources".to_string(),
            manifest_id: "different-manifest".to_string(),
        })
    );
}

#[test]
fn current_law_scenario_requires_authority_source() {
    let mut input = seed_plan_input();
    input.scenario.authority_source_id = None;

    assert_eq!(
        evaluate_plan_structure(&input, None, SEED_METRICS),
        Err(ZonePlanError::ScenarioAuthorityRequired {
            scenario_id: "seed-current-law-baseline".to_string(),
        })
    );
}

#[test]
fn scenario_authority_source_must_exist_in_manifest() {
    let mut input = seed_plan_input();
    input.scenario.authority_source_id = Some("missing-source".to_string());

    assert_eq!(
        evaluate_plan_structure_with_manifest(&input, &seed_source_manifest(), None, SEED_METRICS),
        Err(ZonePlanError::UnknownScenarioAuthoritySource {
            scenario_id: "seed-current-law-baseline".to_string(),
            source_id: "missing-source".to_string(),
        })
    );
}

#[test]
fn unit_source_refs_must_exist_in_manifest() {
    let mut input = seed_plan_input();
    input.units[0].source_refs = Some(BoundaryUnitSourceRefs {
        boundary_source_id: Some("missing-source".to_string()),
        representative_point_source_id: None,
        population_source_id: None,
        time_zone_assignment_source_id: None,
        time_zone_geometry_source_id: None,
        caveats: vec![],
    });

    assert_eq!(
        evaluate_plan_structure_with_manifest(&input, &seed_source_manifest(), None, SEED_METRICS),
        Err(ZonePlanError::UnknownUnitSourceReference {
            unit_id: "west-a".to_string(),
            field: "boundary_source_id",
            source_id: "missing-source".to_string(),
        })
    );
}

#[test]
fn counterfactual_scenario_does_not_require_authority_source() {
    let mut input = seed_plan_input();
    input.scenario.kind = ZoneScenarioKind::AnalyticCounterfactual;
    input.scenario.scenario_id = "seed-counterfactual".to_string();
    input.scenario.authority_source_id = None;

    let report = evaluate_plan_structure(&input, None, SEED_METRICS).unwrap();

    assert_eq!(report.unit_count, 4);
}

#[test]
fn missing_zone_assignment_is_rejected() {
    let mut plan = seed_plan();
    plan.assignment[0] = 7;

    assert_eq!(
        validate_plan_inputs(4, &seed_adjacency(), &plan, None),
        Err(ZonePlanError::UnknownZone {
            unit_index: 0,
            zone_index: 7
        })
    );
}

#[test]
fn half_hour_offsets_are_supported() {
    let plan = ZonePlan {
        name: "half-hour-zone-plan".to_string(),
        zones: vec![ZoneSpec {
            id: "utc-plus-05-30".to_string(),
            utc_offset_minutes: 330,
        }],
        assignment: vec![0],
    };

    assert_eq!(validate_plan_inputs(1, &vec![vec![]], &plan, None), Ok(()));
}

#[test]
fn quarter_hour_offsets_are_supported() {
    let plan = ZonePlan {
        name: "quarter-hour-zone-plan".to_string(),
        zones: vec![ZoneSpec {
            id: "utc-plus-05-45".to_string(),
            utc_offset_minutes: 345,
        }],
        assignment: vec![0],
    };

    assert_eq!(validate_plan_inputs(1, &vec![vec![]], &plan, None), Ok(()));
}

#[test]
fn implausible_zone_offsets_are_rejected() {
    let mut plan = seed_plan();
    plan.zones[0].utc_offset_minutes = 15 * 60;

    assert_eq!(
        validate_plan_inputs(4, &seed_adjacency(), &plan, None),
        Err(ZonePlanError::InvalidZoneUtcOffset {
            zone_id: "utc-minus-06-00".to_string(),
            utc_offset_minutes: 900,
        })
    );
}

#[test]
fn out_of_bounds_adjacency_is_rejected() {
    let mut adjacency = seed_adjacency();
    adjacency[0].push(99);

    assert_eq!(
        validate_plan_inputs(4, &adjacency, &seed_plan(), None),
        Err(ZonePlanError::EdgeOutOfBounds {
            from: 0,
            to: 99,
            unit_count: 4,
        })
    );
}

#[test]
fn plan_input_rejects_invalid_map_point() {
    let error = ZonePlanError::InvalidMapLatitude {
        unit_id: "west-a".to_string(),
        latitude: "120".to_string(),
    };

    assert_eq!(validate_plan_input(&seed_plan_input(), Some(error.clone())), Err(error));
}

#[test]
fn plan_checks_run_in_order() {
    let mut plan = seed_plan();
    plan.zones.clear();
    assert_eq!(validate_plan_inputs(4, &seed_adjacency(), &plan, None), Err(ZonePlanError::EmptyZones));

    assert_eq!(
        validate_plan_inputs(3, &seed_adjacency(), &seed_plan(), None),
        Err(ZonePlanError::UnitAssignmentMismatch { unit_count: 3, assignment_count: 4 })
    );
    assert_eq!(
        validate_plan_inputs(4, &vec![vec![1], vec![0]], &seed_plan(), None),
        Err(ZonePlanError::AdjacencyUnitMismatch { adjacency_count: 2, unit_count: 4 })
    );
    let mut input = seed_plan_input();
    input.input_id = String::new();
    assert_eq!(
        validate_plan_input(&input, None),
        Err(ZonePlanError::EmptyId { kind: "zone_plan_input.input_id" })
    );
}

#[test]
fn evaluation_passes_metric_errors_through_and_requires_people() {
    let err = ZonePlanError::BoundaryMetric("edge cut failed".to_string());
    assert_eq!(evaluate_plan_structure(&seed_plan_input(), None, Err(err.clone())), Err(err));

    let mut input = seed_plan_input();
    for unit in input.units.iter_mut() {
        unit.population = 0;
    }
    assert_eq!(evaluate_plan_structure(&input, None, SEED_METRICS), Err(ZonePlanError::EmptyPopulation));

    let mut input = seed_plan_input();
    input.reference_assignment = vec![0, 0, 1, 5];
    assert_eq!(
        evaluate_plan_structure(&input, None, SEED_METRICS),
        Err(ZonePlanError::UnknownReferenceZone { unit_index: 3, zone_index: 5 })
    );

    let mut input = seed_plan_input();
    input.reference_assignment = vec![];
    let report = evaluate_plan_structure(&input, None, SEED_METRICS).unwrap();
    assert_eq!(report.moved_unit_count, None);
    assert_eq!(report.moved_population, None);
}

#[test]
fn movement_and_population_sums() {
    let units = seed_units();
    assert_eq!(total_population(&units), 340);
    assert_eq!(reference_movement(&units, &vec![1, 0, 1, 0], &vec![0, 0, 1, 1]), (2, 170));
    assert_eq!(reference_movement(&units, &vec![0, 0, 1, 1], &vec![0, 0, 1, 1]), (0, 0));
    assert_eq!(
        validate_reference_assignment(4, &seed_plan(), &vec![0, 0, 2, 1]),
        Err(ZonePlanError::UnknownReferenceZone { unit_index: 2, zone_index: 2 })
    );
}

#[test]
fn labels_in_use_are_sorted_and_distinct() {
    assert_eq!(labels_in_use(&vec![3, 1, 3, 0, 1]), vec![0, 1, 3]);
    assert_eq!(labels_in_use(&vec![]), Vec::<usize>::new());
}

#[test]
fn offset_candidate_plan_builds_whole_hour_grid() {
    // Nearest whole-hour offsets of the seed units' solar offsets -360, -345, -300, -285.
    let best = vec![-360, -360, -300, -300];
    let candidate =
        build_offset_candidate_plan(seed_plan_input(), OffsetCandidateGrid::WholeHour, &best, None).unwrap();

    assert_eq!(
        candidate.scenario.kind,
        ZoneScenarioKind::AnalyticCounterfactual
    );
    assert_eq!(candidate.scenario.authority_source_id, None);
    assert_eq!(candidate.plan.assignment, vec![0, 0, 1, 1]);
    assert_eq!(
        candidate
            .plan
            .zones
            .iter()
            .map(|zone| zone.utc_offset_minutes)
            .collect::<Vec<_>>(),
        vec![-360, -300]
    );
    assert!(candidate.reference_assignment.is_empty());
    assert!(validate_plan_input(&candidate, None).is_ok());
}

#[test]
fn offset_candidate_plan_builds_quarter_hour_grid() {
    // Nearest quarter-hour offsets of the seed units' solar offsets.
    let best = vec![-360, -345, -300, -285];
    let candidate =
        build_offset_candidate_plan(seed_plan_input(), OffsetCandidateGrid::QuarterHour, &best, None).unwrap();

    assert_eq!(candidate.plan.assignment, vec![0, 1, 2, 3]);
    assert_eq!(
        candidate
            .plan
            .zones
            .iter()
            .map(|zone| (zone.id.as_str(), zone.utc_offset_minutes))
            .collect::<Vec<_>>(),
        vec![
            ("utc-minus-06-00", -360),
            ("utc-minus-05-45", -345),
            ("utc-minus-05-00", -300),
            ("utc-minus-04-45", -285),
        ]
    );
    assert!(candidate
        .caveats
        .iter()
        .any(|caveat| caveat.contains("nearest quarter-hour UTC offsets")));
}

#[test]
fn offset_candidate_plan_names_the_candidate() {
    let best = vec![-360, -360, -300, -300];
    let candidate =
        build_offset_candidate_plan(seed_plan_input(), OffsetCandidateGrid::HalfHour, &best, None).unwrap();

    assert_eq!(candidate.input_id, "zones-seed-plan-input-half-hour");
    assert_eq!(candidate.scenario.scenario_id, "seed-current-law-baseline-half-hour");
    assert_eq!(candidate.scenario.label, "half-hour candidate offset grid");
    assert_eq!(candidate.plan.name, "seed-two-zone-plan half-hour candidate");
    assert_eq!(candidate.caveats.len(), 2);
    assert_eq!(
        candidate.caveats[1],
        "Generated analytic counterfactual from zones-seed-plan-input using nearest half-hour UTC offsets."
    );
}

#[test]
fn offset_candidate_plan_rejects_invalid_input() {
    let mut input = seed_plan_input();
    input.plan.assignment[2] = 9;
    assert_eq!(
        build_offset_candidate_plan(input, OffsetCandidateGrid::WholeHour, &vec![0, 0, 0, 0], None),
        Err(ZonePlanError::UnknownZone { unit_index: 2, zone_index: 9 })
    );
}

#[test]
fn candidate_units_take_the_zone_of_their_best_offset() {
    let (zones, assignment) = candidate_zone_plan(&vec![60, -60, 60, 0]);
    assert_eq!(
        zones.iter().map(|zone| zone.utc_offset_minutes).collect::<Vec<_>>(),
        vec![-60, 0, 60]
    );
    assert_eq!(zones[0].id, "utc-minus-01-00");
    assert_eq!(assignment, vec![2, 0, 2, 1]);
}

#[test]
fn moved_from_baseline_compares_zone_ids() {
    let baseline = seed_plan_input();
    let best = vec![-360, -345, -300, -285];
    let candidate =
        build_offset_candidate_plan(seed_plan_input(), OffsetCandidateGrid::QuarterHour, &best, None).unwrap();
    assert_eq!(moved_from_baseline_zone_ids(&baseline, &candidate), (2, 150));
    assert_eq!(moved_from_baseline_zone_ids(&baseline, &baseline), (0, 0));
}

#[test]
fn source_ref_report_counts_coverage() {
    let mut input = seed_plan_input();
    input.units[0].source_refs = Some(BoundaryUnitSourceRefs {
        boundary_source_id: Some("census-tiger-counties-2024".to_string()),
        representative_point_source_id: Some("census-county-gazetteer-2024".to_string()),
        population_source_id: Some("census-county-population-estimates-2024".to_string()),
        time_zone_assignment_source_id: Some("dot-49-cfr-71".to_string()),
        time_zone_geometry_source_id: Some("dot-time-zone-map-layer".to_string()),
        caveats: vec!["a".to_string(), "b".to_string()],
    });
    input.units[1].source_refs = Some(BoundaryUnitSourceRefs {
        boundary_source_id: Some("census-tiger-counties-2024".to_string()),
        representative_point_source_id: None,
        population_source_id: None,
        time_zone_assignment_source_id: None,
        time_zone_geometry_source_id: None,
        caveats: vec![],
    });
    let report =
        zone_plan_source_ref_report(&input, &seed_source_manifest(), None, SEED_METRICS).unwrap();

    assert_eq!(report.input_id, "zones-seed-plan-input");
    assert_eq!(report.source_manifest_id, "zones-us-foundation-sources");
    assert_eq!(report.unit_count, 4);
    assert_eq!(report.units_with_source_refs, 2);
    assert_eq!(report.units_missing_source_refs, 2);
    assert_eq!(report.units_with_complete_source_refs, 1);
    assert_eq!(report.boundary_source_ref_count, 2);
    assert_eq!(report.missing_boundary_source_ref_count, 2);
    assert_eq!(report.representative_point_source_ref_count, 1);
    assert_eq!(report.missing_representative_point_source_ref_count, 3);
    assert_eq!(report.time_zone_geometry_source_ref_count, 1);
    assert_eq!(report.units_with_source_caveats, 1);
    assert_eq!(report.units_missing_source_caveats, 3);
    assert_eq!(report.unit_source_caveat_count, 2);
    assert!(!report.publishable_source_ref_coverage);
}
