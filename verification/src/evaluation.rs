use vstd::prelude::*;

use crate::checks::{
    count_where, first_error, first_error_from, lemma_count_bound, lemma_prefix_step,
    lemma_take_all, sum_of,
};
use crate::errors::{validate_non_empty_plan, ZonePlanError};
use crate::plans::{
    catalog_plan_check, input_manifest_check, plan_inputs_check, scenario_shape_check,
    validate_catalog_against_manifest_and_plan, validate_input_manifest_pair, validate_plan_inputs,
    validate_scenario_shape, PlanUnit,
};
use crate::sources::SourceManifest;
use crate::zones::{ZoneCatalog, ZonePlan, ZonePlanSourceRefReport, ZoneScenario};

verus! {

/// The part of a zone plan input that validation, movement counting,
/// source coverage, and candidate construction read. Solar offsets and map
/// coordinates stay with the caller, which reports the first invalid map
/// coordinate, if any, to the checks below.
#[derive(Debug, Clone, PartialEq, Eq)]
pub struct PlanInput {
    pub input_id: String,
    pub source_manifest_id: String,
    pub scenario: ZoneScenario,
    pub units: Vec<PlanUnit>,
    pub adjacency: Vec<Vec<usize>>,
    pub plan: ZonePlan,
    pub reference_assignment: Vec<usize>,
    pub caveats: Vec<String>,
}

/// The structural part of a plan evaluation: sizes, the boundary metrics,
/// the total population, and, against a reference assignment, how many
/// units and people move.
#[derive(Debug, Clone, Copy, PartialEq, Eq)]
pub struct PlanStructure {
    pub unit_count: usize,
    pub zone_count: usize,
    pub boundary_edges: usize,
    pub all_zones_connected: bool,
    pub total_population: u64,
    pub moved_unit_count: Option<usize>,
    pub moved_population: Option<u64>,
}

/// The outcome of checking a plan input: non-empty input and manifest ids,
/// a well-formed scenario, and a plan that fits its units and adjacency
/// (`coordinate_error` being the first invalid map coordinate of the units).
pub open spec fn plan_input_check(input: PlanInput, coordinate_error: Option<ZonePlanError>) -> Result<
    (),
    ZonePlanError,
> {
    if input.input_id@.len() == 0 {
        Err(ZonePlanError::EmptyId { kind: "zone_plan_input.input_id" })
    } else if input.source_manifest_id@.len() == 0 {
        Err(ZonePlanError::EmptyId { kind: "zone_plan_input.source_manifest_id" })
    } else if scenario_shape_check(input.scenario) is Err {
        scenario_shape_check(input.scenario)
    } else {
        plan_inputs_check(input.units@.len(), input.adjacency@, input.plan, coordinate_error)
    }
}

/// Checks a plan input's ids and scenario, then its plan against its units
/// and adjacency.
pub fn validate_plan_input(input: &PlanInput, coordinate_error: Option<ZonePlanError>) -> (r: Result<
    (),
    ZonePlanError,
>)
    ensures
        r == plan_input_check(*input, coordinate_error),
{
    validate_non_empty_plan("zone_plan_input.input_id", &input.input_id)?;
    validate_non_empty_plan("zone_plan_input.source_manifest_id", &input.source_manifest_id)?;
    validate_scenario_shape(&input.scenario)?;
    validate_plan_inputs(input.units.len(), &input.adjacency, &input.plan, coordinate_error)
}

/// The population of the first `n` units.
pub open spec fn population_prefix(units: Seq<PlanUnit>, n: int) -> nat
    decreases n,
{
    if n <= 0 {
        0
    } else {
        population_prefix(units, n - 1) + units[n - 1].population as nat
    }
}

/// The population of all units.
pub open spec fn total_population_of(units: Seq<PlanUnit>) -> nat {
    population_prefix(units, units.len() as int)
}

/// The number of the first `n` units whose zone differs between two assignments.
pub open spec fn moved_count(assignment: Seq<usize>, reference: Seq<usize>, n: int) -> nat
    decreases n,
{
    if n <= 0 {
        0
    } else {
        moved_count(assignment, reference, n - 1) + if assignment[n - 1] != reference[n - 1] {
            1nat
        } else {
            0nat
        }
    }
}

/// The population of the first `n` units whose zone differs between two assignments.
pub open spec fn moved_population_of(
    units: Seq<PlanUnit>,
    assignment: Seq<usize>,
    reference: Seq<usize>,
    n: int,
) -> nat
    decreases n,
{
    if n <= 0 {
        0
    } else {
        moved_population_of(units, assignment, reference, n - 1) + if assignment[n - 1]
            != reference[n - 1] {
            units[n - 1].population as nat
        } else {
            0nat
        }
    }
}

/// Prefix populations grow with the prefix.
pub proof fn lemma_population_prefix_monotone(units: Seq<PlanUnit>, m: int, n: int)
    requires
        m <= n,
    ensures
        population_prefix(units, m) <= population_prefix(units, n),
    decreases n - m,
{
    if m < n {
        lemma_population_prefix_monotone(units, m, n - 1);
    }
}

/// The people who move are among all the people counted.
pub proof fn lemma_moved_within_total(
    units: Seq<PlanUnit>,
    assignment: Seq<usize>,
    reference: Seq<usize>,
    n: int,
)
    ensures
        moved_population_of(units, assignment, reference, n) <= population_prefix(units, n),
        moved_count(assignment, reference, n) <= if n < 0 {
            0
        } else {
            n
        },
    decreases n,
{
    if n > 0 {
        lemma_moved_within_total(units, assignment, reference, n - 1);
    }
}

/// Sums the populations of the units.
pub fn total_population(units: &Vec<PlanUnit>) -> (total: u64)
    requires
        total_population_of(units@) <= u64::MAX,
    ensures
        total == total_population_of(units@),
{
    let mut total: u64 = 0;
    let mut i: usize = 0;
    while i < units.len()
        invariant
            i <= units@.len(),
            total == population_prefix(units@, i as int),
            total_population_of(units@) <= u64::MAX,
        decreases units@.len() - i,
    {
        proof {
            lemma_population_prefix_monotone(units@, i + 1, units@.len() as int);
        }
        total = total + units[i].population;
        i = i + 1;
    }
    total
}

/// What checking the `j`-th zone of a reference assignment reports, if anything.
pub open spec fn reference_zone_outcome(reference: Seq<usize>, zone_count: nat, j: int) -> Option<
    ZonePlanError,
> {
    if reference[j] >= zone_count {
        Some(ZonePlanError::UnknownReferenceZone { unit_index: j as usize, zone_index: reference[j] })
    } else {
        None
    }
}

/// The outcome of checking a reference assignment: one zone per unit, each
/// among the plan's zones.
pub open spec fn reference_check(unit_count: nat, zone_count: nat, reference: Seq<usize>) -> Result<
    (),
    ZonePlanError,
> {
    if reference.len() != unit_count {
        Err(
            ZonePlanError::ReferenceAssignmentMismatch {
                reference_assignment_count: reference.len() as usize,
                unit_count: unit_count as usize,
            },
        )
    } else {
        first_error(Seq::new(reference.len(), |j: int| reference_zone_outcome(reference, zone_count, j)))
    }
}

/// Requires one reference zone per unit, each among the plan's zones.
pub fn validate_reference_assignment(
    unit_count: usize,
    plan: &ZonePlan,
    reference_assignment: &Vec<usize>,
) -> (r: Result<(), ZonePlanError>)
    ensures
        r == reference_check(unit_count as nat, plan.zones@.len(), reference_assignment@),
{
    if reference_assignment.len() != unit_count {
        return Err(
            ZonePlanError::ReferenceAssignmentMismatch {
                reference_assignment_count: reference_assignment.len(),
                unit_count,
            },
        );
    }
    let ghost outcomes = Seq::new(
        reference_assignment@.len(),
        |j: int| reference_zone_outcome(reference_assignment@, plan.zones@.len(), j),
    );
    let mut i: usize = 0;
    while i < reference_assignment.len()
        invariant
            i <= reference_assignment@.len(),
            outcomes == Seq::new(
                reference_assignment@.len(),
                |j: int| reference_zone_outcome(reference_assignment@, plan.zones@.len(), j),
            ),
            reference_check(unit_count as nat, plan.zones@.len(), reference_assignment@)
                == first_error(outcomes),
            first_error(outcomes) == first_error_from(outcomes, i as int),
        decreases reference_assignment@.len() - i,
    {
        let zone_index = reference_assignment[i];
        if zone_index >= plan.zones.len() {
            let e = ZonePlanError::UnknownReferenceZone { unit_index: i, zone_index };
            assert(outcomes[i as int] == Some(e));
            return Err(e);
        }
        assert(outcomes[i as int] is None);
        i = i + 1;
    }
    Ok(())
}

/// Counts the units, and their population, whose zone index differs
/// between the plan's assignment and the reference assignment.
pub fn reference_movement(
    units: &Vec<PlanUnit>,
    assignment: &Vec<usize>,
    reference_assignment: &Vec<usize>,
) -> (moved: (usize, u64))
    requires
        assignment@.len() == units@.len(),
        reference_assignment@.len() == units@.len(),
        total_population_of(units@) <= u64::MAX,
    ensures
        moved.0 == moved_count(assignment@, reference_assignment@, units@.len() as int),
        moved.1 == moved_population_of(
            units@,
            assignment@,
            reference_assignment@,
            units@.len() as int,
        ),
{
    let mut count: usize = 0;
    let mut population: u64 = 0;
    let mut i: usize = 0;
    while i < units.len()
        invariant
            i <= units@.len(),
            assignment@.len() == units@.len(),
            reference_assignment@.len() == units@.len(),
            total_population_of(units@) <= u64::MAX,
            count == moved_count(assignment@, reference_assignment@, i as int),
            population == moved_population_of(units@, assignment@, reference_assignment@, i as int),
        decreases units@.len() - i,
    {
        proof {
            lemma_moved_within_total(units@, assignment@, reference_assignment@, i + 1);
            lemma_population_prefix_monotone(units@, i + 1, units@.len() as int);
        }
        if assignment[i] != reference_assignment[i] {
            count = count + 1;
            population = population + units[i].population;
        }
        i = i + 1;
    }
    (count, population)
}

/// The outcome of evaluating the structure of a plan input, given the
/// first invalid map coordinate of its units and the boundary metrics of
/// its assignment (the number of boundary edges and whether every zone in
/// use is connected, or the error that computing them raised): the input
/// checks, the metrics, a non-zero total population, and, when a reference
/// assignment is given, its checks and the movement against it.
pub open spec fn plan_structure_outcome(
    input: PlanInput,
    coordinate_error: Option<ZonePlanError>,
    metrics: Result<(usize, bool), ZonePlanError>,
) -> Result<PlanStructure, ZonePlanError> {
    let units = input.units@;
    let reference = input.reference_assignment@;
    match plan_input_check(input, coordinate_error) {
        Err(e) => Err(e),
        Ok(_) => match metrics {
            Err(e) => Err(e),
            Ok((edges, connected)) => {
                let base = PlanStructure {
                    unit_count: units.len() as usize,
                    zone_count: input.plan.zones@.len() as usize,
                    boundary_edges: edges,
                    all_zones_connected: connected,
                    total_population: total_population_of(units) as u64,
                    moved_unit_count: None,
                    moved_population: None,
                };
                if total_population_of(units) == 0 {
                    Err(ZonePlanError::EmptyPopulation)
                } else if reference.len() == 0 {
                    Ok(base)
                } else {
                    match reference_check(units.len(), input.plan.zones@.len(), reference) {
                        Err(e) => Err(e),
                        Ok(_) => Ok(
                            PlanStructure {
                                moved_unit_count: Some(
                                    moved_count(
                                        input.plan.assignment@,
                                        reference,
                                        units.len() as int,
                                    ) as usize,
                                ),
                                moved_population: Some(
                                    moved_population_of(
                                        units,
                                        input.plan.assignment@,
                                        reference,
                                        units.len() as int,
                                    ) as u64,
                                ),
                                ..base
                            },
                        ),
                    }
                }
            },
        },
    }
}

/// Evaluates the structure of a plan input: checks it, takes the boundary
/// metrics of its assignment, requires people to weigh, and compares it
/// with its reference assignment when one is given.
pub fn evaluate_plan_structure(
    input: &PlanInput,
    coordinate_error: Option<ZonePlanError>,
    metrics: Result<(usize, bool), ZonePlanError>,
) -> (r: Result<PlanStructure, ZonePlanError>)
    requires
        total_population_of(input.units@) <= u64::MAX,
    ensures
        r == plan_structure_outcome(*input, coordinate_error, metrics),
{
    validate_plan_input(input, coordinate_error)?;
    let (boundary_edges, all_zones_connected) = metrics?;
    let total = total_population(&input.units);
    if total == 0 {
        return Err(ZonePlanError::EmptyPopulation);
    }
    let base = PlanStructure {
        unit_count: input.units.len(),
        zone_count: input.plan.zones.len(),
        boundary_edges,
        all_zones_connected,
        total_population: total,
        moved_unit_count: None,
        moved_population: None,
    };
    if input.reference_assignment.len() == 0 {
        return Ok(base);
    }
    validate_reference_assignment(input.units.len(), &input.plan, &input.reference_assignment)?;
    let (moved_units, moved_people) = reference_movement(
        &input.units,
        &input.plan.assignment,
        &input.reference_assignment,
    );
    Ok(
        PlanStructure {
            moved_unit_count: Some(moved_units),
            moved_population: Some(moved_people),
            ..base
        },
    )
}


/// Units that carry source references.
pub open spec fn unit_has_refs() -> spec_fn(PlanUnit) -> bool {
    |u: PlanUnit| u.source_refs is Some
}

/// Units whose references name a boundary source.
pub open spec fn unit_cites_boundary() -> spec_fn(PlanUnit) -> bool {
    |u: PlanUnit| (u.source_refs matches Some(r) && r.boundary_source_id is Some)
}

/// Units whose references name a representative-point source.
pub open spec fn unit_cites_point() -> spec_fn(PlanUnit) -> bool {
    |u: PlanUnit| (u.source_refs matches Some(r) && r.representative_point_source_id is Some)
}

/// Units whose references name a population source.
pub open spec fn unit_cites_population() -> spec_fn(PlanUnit) -> bool {
    |u: PlanUnit| (u.source_refs matches Some(r) && r.population_source_id is Some)
}

/// Units whose references name a time-zone assignment source.
pub open spec fn unit_cites_assignment() -> spec_fn(PlanUnit) -> bool {
    |u: PlanUnit| (u.source_refs matches Some(r) && r.time_zone_assignment_source_id is Some)
}

/// Units whose references name a time-zone geometry source.
pub open spec fn unit_cites_geometry() -> spec_fn(PlanUnit) -> bool {
    |u: PlanUnit| (u.source_refs matches Some(r) && r.time_zone_geometry_source_id is Some)
}

/// Units whose references name all five sources.
pub open spec fn unit_cites_all() -> spec_fn(PlanUnit) -> bool {
    |u: PlanUnit|
        unit_cites_boundary()(u) && unit_cites_point()(u) && unit_cites_population()(u)
            && unit_cites_assignment()(u) && unit_cites_geometry()(u)
}

/// Units whose references carry at least one caveat.
pub open spec fn unit_has_source_caveats() -> spec_fn(PlanUnit) -> bool {
    |u: PlanUnit| (u.source_refs matches Some(r) && r.caveats@.len() > 0)
}

/// The number of caveats on a unit's references.
pub open spec fn unit_source_caveats() -> spec_fn(PlanUnit) -> nat {
    |u: PlanUnit|
        match u.source_refs {
            Some(r) => r.caveats@.len(),
            None => 0,
        }
}

/// The source coverage of the units of a plan input checked against a manifest.
pub open spec fn source_ref_summary(input: PlanInput, manifest: SourceManifest) -> ZonePlanSourceRefReport {
    let u = input.units@;
    let n = u.len();
    let complete = count_where(u, unit_cites_all());
    let caveated = count_where(u, unit_has_source_caveats());
    ZonePlanSourceRefReport {
        input_id: input.input_id,
        source_manifest_id: manifest.manifest_id,
        unit_count: n as usize,
        units_with_source_refs: count_where(u, unit_has_refs()) as usize,
        units_with_complete_source_refs: complete as usize,
        units_missing_source_refs: (n - count_where(u, unit_has_refs())) as usize,
        boundary_source_ref_count: count_where(u, unit_cites_boundary()) as usize,
        missing_boundary_source_ref_count: (n - count_where(u, unit_cites_boundary())) as usize,
        representative_point_source_ref_count: count_where(u, unit_cites_point()) as usize,
        missing_representative_point_source_ref_count: (n - count_where(u, unit_cites_point())) as usize,
        population_source_ref_count: count_where(u, unit_cites_population()) as usize,
        missing_population_source_ref_count: (n - count_where(u, unit_cites_population())) as usize,
        time_zone_assignment_source_ref_count: count_where(u, unit_cites_assignment()) as usize,
        missing_time_zone_assignment_source_ref_count: (n - count_where(
            u,
            unit_cites_assignment(),
        )) as usize,
        time_zone_geometry_source_ref_count: count_where(u, unit_cites_geometry()) as usize,
        missing_time_zone_geometry_source_ref_count: (n - count_where(u, unit_cites_geometry())) as usize,
        units_with_source_caveats: caveated as usize,
        units_missing_source_caveats: (n - caveated) as usize,
        unit_source_caveat_count: sum_of(u, unit_source_caveats()) as usize,
        publishable_source_ref_coverage: complete == n && caveated == n,
    }
}

fn count_source_refs(input: &PlanInput, manifest: &SourceManifest) -> (report: ZonePlanSourceRefReport)
    requires
        sum_of(input.units@, unit_source_caveats()) <= usize::MAX,
    ensures
        report == source_ref_summary(*input, *manifest),
{
    let ghost u = input.units@;
    let mut report = ZonePlanSourceRefReport {
        input_id: input.input_id.clone(),
        source_manifest_id: manifest.manifest_id.clone(),
        unit_count: input.units.len(),
        units_with_source_refs: 0,
        units_with_complete_source_refs: 0,
        units_missing_source_refs: 0,
        boundary_source_ref_count: 0,
        missing_boundary_source_ref_count: 0,
        representative_point_source_ref_count: 0,
        missing_representative_point_source_ref_count: 0,
        population_source_ref_count: 0,
        missing_population_source_ref_count: 0,
        time_zone_assignment_source_ref_count: 0,
        missing_time_zone_assignment_source_ref_count: 0,
        time_zone_geometry_source_ref_count: 0,
        missing_time_zone_geometry_source_ref_count: 0,
        units_with_source_caveats: 0,
        units_missing_source_caveats: 0,
        unit_source_caveat_count: 0,
        publishable_source_ref_coverage: false,
    };
    let mut i: usize = 0;
    while i < input.units.len()
        invariant
            u == input.units@,
            i <= u.len(),
            sum_of(u, unit_source_caveats()) <= usize::MAX,
            report.input_id == input.input_id,
            report.source_manifest_id == manifest.manifest_id,
            report.unit_count == u.len(),
            report.publishable_source_ref_coverage == false,
            report.units_with_source_refs == count_where(u.take(i as int), unit_has_refs()),
            report.units_missing_source_refs + report.units_with_source_refs == i,
            report.boundary_source_ref_count == count_where(u.take(i as int), unit_cites_boundary()),
            report.missing_boundary_source_ref_count + report.boundary_source_ref_count == i,
            report.representative_point_source_ref_count == count_where(
                u.take(i as int),
                unit_cites_point(),
            ),
            report.missing_representative_point_source_ref_count
                + report.representative_point_source_ref_count == i,
            report.population_source_ref_count == count_where(
                u.take(i as int),
                unit_cites_population(),
            ),
            report.missing_population_source_ref_count + report.population_source_ref_count == i,
            report.time_zone_assignment_source_ref_count == count_where(
                u.take(i as int),
                unit_cites_assignment(),
            ),
            report.missing_time_zone_assignment_source_ref_count
                + report.time_zone_assignment_source_ref_count == i,
            report.time_zone_geometry_source_ref_count == count_where(
                u.take(i as int),
                unit_cites_geometry(),
            ),
            report.missing_time_zone_geometry_source_ref_count
                + report.time_zone_geometry_source_ref_count == i,
            report.units_with_complete_source_refs == count_where(u.take(i as int), unit_cites_all()),
            report.units_with_source_caveats == count_where(
                u.take(i as int),
                unit_has_source_caveats(),
            ),
            report.units_missing_source_caveats + report.units_with_source_caveats == i,
            report.unit_source_caveat_count == sum_of(u.take(i as int), unit_source_caveats()),
        decreases u.len() - i,
    {
        proof {
            lemma_prefix_step(u, i as int);
            lemma_count_bound(u.take(i as int), unit_has_refs());
            lemma_count_bound(u.take(i as int), unit_cites_boundary());
            lemma_count_bound(u.take(i as int), unit_cites_point());
            lemma_count_bound(u.take(i as int), unit_cites_population());
            lemma_count_bound(u.take(i as int), unit_cites_assignment());
            lemma_count_bound(u.take(i as int), unit_cites_geometry());
            lemma_count_bound(u.take(i as int), unit_cites_all());
            lemma_count_bound(u.take(i as int), unit_has_source_caveats());
            crate::limitations::lemma_sum_prefix(u, unit_source_caveats(), i as int + 1);
        }
        match &input.units[i].source_refs {
            None => {
                report.units_missing_source_refs = report.units_missing_source_refs + 1;
                report.missing_boundary_source_ref_count = report.missing_boundary_source_ref_count
                    + 1;
                report.missing_representative_point_source_ref_count =
                    report.missing_representative_point_source_ref_count + 1;
                report.missing_population_source_ref_count =
                    report.missing_population_source_ref_count + 1;
                report.missing_time_zone_assignment_source_ref_count =
                    report.missing_time_zone_assignment_source_ref_count + 1;
                report.missing_time_zone_geometry_source_ref_count =
                    report.missing_time_zone_geometry_source_ref_count + 1;
                report.units_missing_source_caveats = report.units_missing_source_caveats + 1;
            },
            Some(refs) => {
                report.units_with_source_refs = report.units_with_source_refs + 1;
                let mut complete = true;
                if refs.boundary_source_id.is_some() {
                    report.boundary_source_ref_count = report.boundary_source_ref_count + 1;
                } else {
                    report.missing_boundary_source_ref_count =
                        report.missing_boundary_source_ref_count + 1;
                    complete = false;
                }
                if refs.representative_point_source_id.is_some() {
                    report.representative_point_source_ref_count =
                        report.representative_point_source_ref_count + 1;
                } else {
                    report.missing_representative_point_source_ref_count =
                        report.missing_representative_point_source_ref_count + 1;
                    complete = false;
                }
                if refs.population_source_id.is_some() {
                    report.population_source_ref_count = report.population_source_ref_count + 1;
                } else {
                    report.missing_population_source_ref_count =
                        report.missing_population_source_ref_count + 1;
                    complete = false;
                }
                if refs.time_zone_assignment_source_id.is_some() {
                    report.time_zone_assignment_source_ref_count =
                        report.time_zone_assignment_source_ref_count + 1;
                } else {
                    report.missing_time_zone_assignment_source_ref_count =
                        report.missing_time_zone_assignment_source_ref_count + 1;
                    complete = false;
                }
                if refs.time_zone_geometry_source_id.is_some() {
                    report.time_zone_geometry_source_ref_count =
                        report.time_zone_geometry_source_ref_count + 1;
                } else {
                    report.missing_time_zone_geometry_source_ref_count =
                        report.missing_time_zone_geometry_source_ref_count + 1;
                    complete = false;
                }
                if complete {
                    report.units_with_complete_source_refs = report.units_with_complete_source_refs
                        + 1;
                }
                if refs.caveats.len() > 0 {
                    report.units_with_source_caveats = report.units_with_source_caveats + 1;
                    report.unit_source_caveat_count = report.unit_source_caveat_count
                        + refs.caveats.len();
                } else {
                    report.units_missing_source_caveats = report.units_missing_source_caveats + 1;
                }
            },
        }
        i = i + 1;
    }
    proof {
        lemma_take_all(u);
    }
    report.publishable_source_ref_coverage = report.units_with_complete_source_refs
        == report.unit_count && report.units_with_source_caveats == report.unit_count;
    report
}

/// Checks the plan input against the manifest, evaluates its structure
/// (given the first invalid map coordinate of its units and the boundary
/// metrics of its assignment), then reports how completely its units cite
/// their boundary, point, population, assignment, and geometry sources.
pub fn zone_plan_source_ref_report(
    input: &PlanInput,
    manifest: &SourceManifest,
    coordinate_error: Option<ZonePlanError>,
    metrics: Result<(usize, bool), ZonePlanError>,
) -> (r: Result<ZonePlanSourceRefReport, ZonePlanError>)
    requires
        total_population_of(input.units@) <= u64::MAX,
        sum_of(input.units@, unit_source_caveats()) <= usize::MAX,
    ensures
        manifest.check() matches Err(e) ==> (r matches Err(ZonePlanError::SourceManifest(m)) && m@
            == e.text()),
        manifest.check() is Ok ==> r == match input_manifest_check(
            input.source_manifest_id,
            input.scenario,
            input.units@,
            *manifest,
        ) {
            Err(e) => Err(e),
            Ok(_) => match plan_structure_outcome(*input, coordinate_error, metrics) {
                Err(e) => Err(e),
                Ok(_) => Ok(source_ref_summary(*input, *manifest)),
            },
        },
{
    validate_input_manifest_pair(&input.source_manifest_id, &input.scenario, &input.units, manifest)?;
    evaluate_plan_structure(input, coordinate_error, metrics)?;
    Ok(count_source_refs(input, manifest))
}


/// Checks the plan input against the manifest, then evaluates its structure.
pub fn evaluate_plan_structure_with_manifest(
    input: &PlanInput,
    manifest: &SourceManifest,
    coordinate_error: Option<ZonePlanError>,
    metrics: Result<(usize, bool), ZonePlanError>,
) -> (r: Result<PlanStructure, ZonePlanError>)
    requires
        total_population_of(input.units@) <= u64::MAX,
    ensures
        manifest.check() matches Err(e) ==> (r matches Err(ZonePlanError::SourceManifest(m)) && m@
            == e.text()),
        manifest.check() is Ok ==> r == match input_manifest_check(
            input.source_manifest_id,
            input.scenario,
            input.units@,
            *manifest,
        ) {
            Err(e) => Err(e),
            Ok(_) => plan_structure_outcome(*input, coordinate_error, metrics),
        },
{
    validate_input_manifest_pair(&input.source_manifest_id, &input.scenario, &input.units, manifest)?;
    evaluate_plan_structure(input, coordinate_error, metrics)
}

/// Checks the plan input against the manifest, the catalog against the
/// manifest and the plan's zones, then evaluates the plan's structure.
pub fn evaluate_plan_structure_with_manifest_and_catalog(
    input: &PlanInput,
    manifest: &SourceManifest,
    catalog: &ZoneCatalog,
    coordinate_error: Option<ZonePlanError>,
    metrics: Result<(usize, bool), ZonePlanError>,
) -> (r: Result<PlanStructure, ZonePlanError>)
    requires
        total_population_of(input.units@) <= u64::MAX,
    ensures
        manifest.check() matches Err(e) ==> (r matches Err(ZonePlanError::SourceManifest(m)) && m@
            == e.text()),
        manifest.check() is Ok ==> (input_manifest_check(
            input.source_manifest_id,
            input.scenario,
            input.units@,
            *manifest,
        ) matches Err(e) ==> r == Err::<PlanStructure, ZonePlanError>(e)),
        manifest.check() is Ok && input_manifest_check(
            input.source_manifest_id,
            input.scenario,
            input.units@,
            *manifest,
        ) is Ok ==> {
            &&& catalog.check() matches Err(e) ==> (r matches Err(ZonePlanError::ZoneCatalog(m))
                && m@ == e.text())
            &&& catalog.check() is Ok ==> r == match catalog_plan_check(*catalog, *manifest, input.plan) {
                Err(e) => Err(e),
                Ok(_) => plan_structure_outcome(*input, coordinate_error, metrics),
            }
        },
{
    validate_input_manifest_pair(&input.source_manifest_id, &input.scenario, &input.units, manifest)?;
    validate_catalog_against_manifest_and_plan(catalog, manifest, &input.plan)?;
    evaluate_plan_structure(input, coordinate_error, metrics)
}

} // verus!
