use vstd::prelude::*;

use crate::checks::{first_error, first_error_from};
use crate::errors::{validate_non_empty_plan, ZonePlanError};
use crate::sources::SourceManifest;
use crate::text::same_text;
use crate::zones::{
    validate_zones, zones_check, BoundaryUnitSourceRefs, ZoneCatalog, ZonePlan, ZoneScenario,
    ZoneScenarioKind, ZoneSpec,
};

verus! {

/// The part of a plan unit that plan validation, movement, and source
/// coverage read: its id, name, population, and source references.
#[derive(Debug, Clone, PartialEq, Eq)]
pub struct PlanUnit {
    pub id: String,
    pub name: String,
    pub population: u64,
    pub source_refs: Option<BoundaryUnitSourceRefs>,
}

/// The outcome of checking a scenario's own fields: a non-empty id and
/// label, and an authority source for current-law and historical-law scenarios.
pub open spec fn scenario_shape_check(scenario: ZoneScenario) -> Result<(), ZonePlanError> {
    if scenario.scenario_id@.len() == 0 {
        Err(ZonePlanError::EmptyId { kind: "zone_scenario.scenario_id" })
    } else if scenario.label@.len() == 0 {
        Err(ZonePlanError::EmptyId { kind: "zone_scenario.label" })
    } else if (scenario.kind == ZoneScenarioKind::CurrentLaw || scenario.kind
        == ZoneScenarioKind::HistoricalLaw) && scenario.authority_source_id is None {
        Err(ZonePlanError::ScenarioAuthorityRequired { scenario_id: scenario.scenario_id })
    } else {
        Ok(())
    }
}

/// The outcome of checking a scenario against a manifest: its own fields,
/// then an authority source, when given, that the manifest cites.
pub open spec fn scenario_manifest_check(scenario: ZoneScenario, manifest: SourceManifest) -> Result<
    (),
    ZonePlanError,
> {
    if scenario_shape_check(scenario) is Err {
        scenario_shape_check(scenario)
    } else {
        match scenario.authority_source_id {
            Some(source_id) => if manifest.id_set().contains(source_id@) {
                Ok(())
            } else {
                Err(
                    ZonePlanError::UnknownScenarioAuthoritySource {
                        scenario_id: scenario.scenario_id,
                        source_id,
                    },
                )
            },
            None => Ok(()),
        }
    }
}

/// Requires a non-empty id and label, and an authority source for
/// current-law and historical-law scenarios.
pub fn validate_scenario_shape(scenario: &ZoneScenario) -> (r: Result<(), ZonePlanError>)
    ensures
        r == scenario_shape_check(*scenario),
{
    validate_non_empty_plan("zone_scenario.scenario_id", &scenario.scenario_id)?;
    validate_non_empty_plan("zone_scenario.label", &scenario.label)?;
    let law = match scenario.kind {
        ZoneScenarioKind::CurrentLaw => true,
        ZoneScenarioKind::HistoricalLaw => true,
        _ => false,
    };
    if law && scenario.authority_source_id.is_none() {
        return Err(
            ZonePlanError::ScenarioAuthorityRequired { scenario_id: scenario.scenario_id.clone() },
        );
    }
    Ok(())
}

/// Checks the scenario's fields, then requires its authority source, when
/// given, to be cited by the manifest.
pub fn validate_scenario_against_manifest(
    scenario: &ZoneScenario,
    manifest: &SourceManifest,
) -> (r: Result<(), ZonePlanError>)
    ensures
        r == scenario_manifest_check(*scenario, *manifest),
{
    validate_scenario_shape(scenario)?;
    if let Some(source_id) = &scenario.authority_source_id {
        if !manifest.has_source(source_id.as_str()) {
            return Err(
                ZonePlanError::UnknownScenarioAuthoritySource {
                    scenario_id: scenario.scenario_id.clone(),
                    source_id: source_id.clone(),
                },
            );
        }
    }
    Ok(())
}

/// The outcome of checking one optional source reference of a unit.
pub open spec fn unit_source_ref_check(
    unit_id: String,
    field: &'static str,
    source_id: Option<String>,
    manifest: SourceManifest,
) -> Result<(), ZonePlanError> {
    match source_id {
        None => Ok(()),
        Some(id) => if id@.len() == 0 {
            Err(ZonePlanError::EmptyId { kind: field })
        } else if !manifest.id_set().contains(id@) {
            Err(ZonePlanError::UnknownUnitSourceReference { unit_id, field, source_id: id })
        } else {
            Ok(())
        },
    }
}

/// Accepts an absent reference; requires a present one to be non-empty and
/// cited by the manifest.
pub fn validate_optional_unit_source_ref(
    unit_id: &String,
    field: &'static str,
    source_id: &Option<String>,
    manifest: &SourceManifest,
) -> (r: Result<(), ZonePlanError>)
    ensures
        r == unit_source_ref_check(*unit_id, field, *source_id, *manifest),
{
    match source_id {
        None => Ok(()),
        Some(id) => {
            validate_non_empty_plan(field, id)?;
            if !manifest.has_source(id.as_str()) {
                return Err(
                    ZonePlanError::UnknownUnitSourceReference {
                        unit_id: unit_id.clone(),
                        field,
                        source_id: id.clone(),
                    },
                );
            }
            Ok(())
        },
    }
}

/// The outcome of checking all source references of one unit, field by field.
pub open spec fn unit_refs_check(unit: PlanUnit, manifest: SourceManifest) -> Result<(), ZonePlanError> {
    match unit.source_refs {
        None => Ok(()),
        Some(refs) => {
            let b = unit_source_ref_check(unit.id, "boundary_source_id", refs.boundary_source_id, manifest);
            let p = unit_source_ref_check(
                unit.id,
                "representative_point_source_id",
                refs.representative_point_source_id,
                manifest,
            );
            let w = unit_source_ref_check(
                unit.id,
                "population_source_id",
                refs.population_source_id,
                manifest,
            );
            let a = unit_source_ref_check(
                unit.id,
                "time_zone_assignment_source_id",
                refs.time_zone_assignment_source_id,
                manifest,
            );
            let g = unit_source_ref_check(
                unit.id,
                "time_zone_geometry_source_id",
                refs.time_zone_geometry_source_id,
                manifest,
            );
            if b is Err {
                b
            } else if p is Err {
                p
            } else if w is Err {
                w
            } else if a is Err {
                a
            } else {
                g
            }
        },
    }
}

/// The outcomes of checking each unit's source references in turn.
pub open spec fn unit_refs_outcomes(units: Seq<PlanUnit>, manifest: SourceManifest) -> Seq<
    Option<ZonePlanError>,
> {
    Seq::new(
        units.len(),
        |j: int|
            match unit_refs_check(units[j], manifest) {
                Err(e) => Some(e),
                Ok(_) => None,
            },
    )
}

/// Requires every present source reference of every unit to be non-empty
/// and cited by the manifest.
pub fn validate_unit_source_refs(units: &Vec<PlanUnit>, manifest: &SourceManifest) -> (r: Result<
    (),
    ZonePlanError,
>)
    ensures
        r == first_error(unit_refs_outcomes(units@, *manifest)),
{
    let ghost outcomes = unit_refs_outcomes(units@, *manifest);
    let mut i: usize = 0;
    while i < units.len()
        invariant
            i <= units@.len(),
            outcomes == unit_refs_outcomes(units@, *manifest),
            first_error(outcomes) == first_error_from(outcomes, i as int),
        decreases units@.len() - i,
    {
        let unit = &units[i];
        if let Some(refs) = &unit.source_refs {
            let checked = check_unit_refs(&unit.id, refs, manifest);
            if let Err(e) = checked {
                assert(outcomes[i as int] == Some(e));
                return Err(e);
            }
        }
        assert(outcomes[i as int] is None);
        i = i + 1;
    }
    Ok(())
}

fn check_unit_refs(
    unit_id: &String,
    refs: &BoundaryUnitSourceRefs,
    manifest: &SourceManifest,
) -> (r: Result<(), ZonePlanError>)
    ensures
        r == unit_refs_check(
            PlanUnit { id: *unit_id, name: arbitrary(), population: 0, source_refs: Some(*refs) },
            *manifest,
        ),
{
    validate_optional_unit_source_ref(unit_id, "boundary_source_id", &refs.boundary_source_id, manifest)?;
    validate_optional_unit_source_ref(
        unit_id,
        "representative_point_source_id",
        &refs.representative_point_source_id,
        manifest,
    )?;
    validate_optional_unit_source_ref(
        unit_id,
        "population_source_id",
        &refs.population_source_id,
        manifest,
    )?;
    validate_optional_unit_source_ref(
        unit_id,
        "time_zone_assignment_source_id",
        &refs.time_zone_assignment_source_id,
        manifest,
    )?;
    validate_optional_unit_source_ref(
        unit_id,
        "time_zone_geometry_source_id",
        &refs.time_zone_geometry_source_id,
        manifest,
    )
}

/// The position of the last catalog zone with the given id, or -1 when none has it.
pub open spec fn last_zone_index(zones: Seq<ZoneSpec>, id: Seq<char>) -> int
    decreases zones.len(),
{
    if zones.len() == 0 {
        -1
    } else if zones.last().id@ == id {
        zones.len() - 1
    } else {
        last_zone_index(zones.drop_last(), id)
    }
}

proof fn lemma_last_zone_index_bounds(zones: Seq<ZoneSpec>, id: Seq<char>)
    ensures
        -1 <= last_zone_index(zones, id) < zones.len(),
        last_zone_index(zones, id) >= 0 ==> zones[last_zone_index(zones, id)].id@ == id,
        forall|k: int| last_zone_index(zones, id) < k < zones.len() ==> #[trigger] zones[k].id@ != id,
    decreases zones.len(),
{
    if zones.len() > 0 {
        let rest = zones.drop_last();
        lemma_last_zone_index_bounds(rest, id);
        assert forall|k: int| last_zone_index(zones, id) < k < zones.len() implies #[trigger] zones[k].id@
            != id by {
            if k < zones.len() - 1 {
                assert(zones[k] == rest[k]);
            }
        }
    }
}

/// What checking one plan zone against the catalog reports, if anything:
/// the catalog's last zone with that id must exist and have the same offset.
pub open spec fn catalog_zone_outcome(catalog: ZoneCatalog, zone: ZoneSpec) -> Option<ZonePlanError> {
    let k = last_zone_index(catalog.zones@, zone.id@);
    if k < 0 {
        Some(
            ZonePlanError::PlanZoneMissingFromCatalog {
                zone_id: zone.id,
                catalog_id: catalog.catalog_id,
            },
        )
    } else if catalog.zones@[k].utc_offset_minutes != zone.utc_offset_minutes {
        Some(
            ZonePlanError::PlanZoneCatalogOffsetMismatch {
                zone_id: zone.id,
                plan_utc_offset_minutes: zone.utc_offset_minutes,
                catalog_utc_offset_minutes: catalog.zones@[k].utc_offset_minutes,
            },
        )
    } else {
        None
    }
}

/// The outcome of the checks that follow a successful catalog validation:
/// the catalog's manifest id, then each plan zone against the catalog.
pub open spec fn catalog_plan_check(
    catalog: ZoneCatalog,
    manifest: SourceManifest,
    plan: ZonePlan,
) -> Result<(), ZonePlanError> {
    if catalog.source_manifest_id@ != manifest.manifest_id@ {
        Err(
            ZonePlanError::ZoneCatalogSourceManifestMismatch {
                catalog_source_manifest_id: catalog.source_manifest_id,
                manifest_id: manifest.manifest_id,
            },
        )
    } else {
        first_error(
            Seq::new(plan.zones@.len(), |j: int| catalog_zone_outcome(catalog, plan.zones@[j])),
        )
    }
}

/// Validates the catalog (reporting its error text), requires it to name
/// the manifest, and requires each plan zone to match the catalog's zone
/// of that id (the last one, when the catalog repeats an id).
pub fn validate_catalog_against_manifest_and_plan(
    catalog: &ZoneCatalog,
    manifest: &SourceManifest,
    plan: &ZonePlan,
) -> (r: Result<(), ZonePlanError>)
    ensures
        catalog.check() matches Err(e) ==> (r matches Err(ZonePlanError::ZoneCatalog(m)) && m@
            == e.text()),
        catalog.check() is Ok ==> r == catalog_plan_check(*catalog, *manifest, *plan),
{
    if let Err(e) = catalog.validate() {
        return Err(ZonePlanError::ZoneCatalog(e.message()));
    }
    if !same_text(catalog.source_manifest_id.as_str(), manifest.manifest_id.as_str()) {
        return Err(
            ZonePlanError::ZoneCatalogSourceManifestMismatch {
                catalog_source_manifest_id: catalog.source_manifest_id.clone(),
                manifest_id: manifest.manifest_id.clone(),
            },
        );
    }
    let ghost outcomes = Seq::new(
        plan.zones@.len(),
        |j: int| catalog_zone_outcome(*catalog, plan.zones@[j]),
    );
    let mut i: usize = 0;
    while i < plan.zones.len()
        invariant
            i <= plan.zones@.len(),
            catalog.check() is Ok,
            catalog.source_manifest_id@ == manifest.manifest_id@,
            outcomes == Seq::new(
                plan.zones@.len(),
                |j: int| catalog_zone_outcome(*catalog, plan.zones@[j]),
            ),
            first_error(outcomes) == first_error_from(outcomes, i as int),
        decreases plan.zones@.len() - i,
    {
        let zone = &plan.zones[i];
        let ghost k = last_zone_index(catalog.zones@, zone.id@);
        proof {
            lemma_last_zone_index_bounds(catalog.zones@, zone.id@);
        }
        let mut found: usize = catalog.zones.len();
        while found > 0 && !same_text(catalog.zones[found - 1].id.as_str(), zone.id.as_str())
            invariant
                found <= catalog.zones@.len(),
                k == last_zone_index(catalog.zones@, zone.id@),
                k < found,
                -1 <= k,
                k >= 0 ==> catalog.zones@[k].id@ == zone.id@,
                forall|m: int| k < m < catalog.zones@.len() ==> #[trigger] catalog.zones@[m].id@
                    != zone.id@,
            decreases found,
        {
            found = found - 1;
        }
        if found == 0 {
            let e = ZonePlanError::PlanZoneMissingFromCatalog {
                zone_id: zone.id.clone(),
                catalog_id: catalog.catalog_id.clone(),
            };
            assert(outcomes[i as int] == Some(e));
            return Err(e);
        }
        assert(k == found - 1);
        let catalog_offset = catalog.zones[found - 1].utc_offset_minutes;
        if catalog_offset != zone.utc_offset_minutes {
            let e = ZonePlanError::PlanZoneCatalogOffsetMismatch {
                zone_id: zone.id.clone(),
                plan_utc_offset_minutes: zone.utc_offset_minutes,
                catalog_utc_offset_minutes: catalog_offset,
            };
            assert(outcomes[i as int] == Some(e));
            return Err(e);
        }
        assert(outcomes[i as int] is None);
        i = i + 1;
    }
    Ok(())
}

/// The outcome of checking a plan against a manifest, after the manifest
/// itself validated: the manifest ids must agree, the scenario must check
/// against the manifest, and every unit source reference must be cited.
pub open spec fn input_manifest_check(
    input_source_manifest_id: String,
    scenario: ZoneScenario,
    units: Seq<PlanUnit>,
    manifest: SourceManifest,
) -> Result<(), ZonePlanError> {
    if input_source_manifest_id@ != manifest.manifest_id@ {
        Err(
            ZonePlanError::SourceManifestMismatch {
                input_source_manifest_id,
                manifest_id: manifest.manifest_id,
            },
        )
    } else if scenario_manifest_check(scenario, manifest) is Err {
        scenario_manifest_check(scenario, manifest)
    } else {
        first_error(unit_refs_outcomes(units, manifest))
    }
}

/// Validates the manifest (reporting its error text), then requires the
/// plan's manifest id, scenario, and unit source references to agree with it.
pub fn validate_input_manifest_pair(
    input_source_manifest_id: &String,
    scenario: &ZoneScenario,
    units: &Vec<PlanUnit>,
    manifest: &SourceManifest,
) -> (r: Result<(), ZonePlanError>)
    ensures
        manifest.check() matches Err(e) ==> (r matches Err(ZonePlanError::SourceManifest(m)) && m@
            == e.text()),
        manifest.check() is Ok ==> r == input_manifest_check(
            *input_source_manifest_id,
            *scenario,
            units@,
            *manifest,
        ),
{
    if let Err(e) = manifest.validate() {
        return Err(ZonePlanError::SourceManifest(e.message()));
    }
    if !same_text(input_source_manifest_id.as_str(), manifest.manifest_id.as_str()) {
        return Err(
            ZonePlanError::SourceManifestMismatch {
                input_source_manifest_id: input_source_manifest_id.clone(),
                manifest_id: manifest.manifest_id.clone(),
            },
        );
    }
    validate_scenario_against_manifest(scenario, manifest)?;
    validate_unit_source_refs(units, manifest)
}

/// Strictly increasing indices.
pub open spec fn increasing_indices(s: Seq<usize>) -> bool {
    forall|i: int, j: int| 0 <= i < j < s.len() ==> #[trigger] s[i] < #[trigger] s[j]
}

/// The distinct zone indices that an assignment uses, in increasing order.
pub fn labels_in_use(assignment: &Vec<usize>) -> (labels: Vec<usize>)
    ensures
        increasing_indices(labels@),
        forall|x: usize| labels@.contains(x) <==> assignment@.contains(x),
{
    let mut labels: Vec<usize> = Vec::new();
    let mut i: usize = 0;
    while i < assignment.len()
        invariant
            i <= assignment@.len(),
            increasing_indices(labels@),
            forall|x: usize| labels@.contains(x) <==> assignment@.take(i as int).contains(x),
        decreases assignment@.len() - i,
    {
        let x = assignment[i];
        let ghost before = labels@;
        let mut p: usize = 0;
        while p < labels.len() && labels[p] < x
            invariant
                p <= labels@.len(),
                labels@ == before,
                forall|k: int| 0 <= k < p ==> labels@[k] < x,
            decreases labels@.len() - p,
        {
            p = p + 1;
        }
        if p == labels.len() || labels[p] != x {
            labels.insert(p, x);
            proof {
                assert forall|a: int, b: int| 0 <= a < b < labels@.len() implies #[trigger] labels@[a]
                    < #[trigger] labels@[b] by {
                    if b < p {
                        assert(before[a] < before[b]);
                    } else if b == p {
                        assert(before[a] < x);
                    } else if a < p {
                        assert(before[a] < x);
                        if p < before.len() {
                            assert(x < before[p as int]);
                            if b - 1 > p {
                                assert(before[p as int] < before[b - 1]);
                            }
                        }
                    } else if a == p {
                        if b - 1 > p {
                            assert(before[p as int] < before[b - 1]);
                        }
                    } else {
                        assert(before[a - 1] < before[b - 1]);
                    }
                }
            }
        }
        proof {
            let t0 = assignment@.take(i as int);
            let t1 = assignment@.take(i + 1);
            assert(t1 =~= t0.push(x));
            assert forall|y: usize| labels@.contains(y) <==> t1.contains(y) by {
                if labels@.contains(y) {
                    let k = choose|k: int| 0 <= k < labels@.len() && labels@[k] == y;
                    if y != x {
                        if before.len() < labels@.len() {
                            if k < p {
                                assert(before[k] == y);
                            } else {
                                assert(before[k - 1] == y);
                            }
                        } else {
                            assert(before[k] == y);
                        }
                        assert(before.contains(y));
                        assert(t0.contains(y));
                        let m = choose|m: int| 0 <= m < t0.len() && t0[m] == y;
                        assert(t1[m] == y);
                    } else {
                        assert(t1[i as int] == y);
                    }
                }
                if t1.contains(y) {
                    let m = choose|m: int| 0 <= m < t1.len() && t1[m] == y;
                    if m < i {
                        assert(t0[m] == y);
                        assert(before.contains(y));
                        let k = choose|k: int| 0 <= k < before.len() && before[k] == y;
                        if before.len() < labels@.len() {
                            if k < p {
                                assert(labels@[k] == y);
                            } else {
                                assert(labels@[k + 1] == y);
                            }
                        } else {
                            assert(labels@[k] == y);
                        }
                    } else {
                        if before.len() < labels@.len() {
                            assert(labels@[p as int] == y);
                        } else {
                            assert(labels@[p as int] == y);
                        }
                    }
                }
            }
        }
        i = i + 1;
    }
    proof {
        assert(assignment@.take(assignment@.len() as int) =~= assignment@);
    }
    labels
}

/// What checking one unit's zone index reports, if anything.
pub open spec fn assignment_outcome(assignment: Seq<usize>, zone_count: nat, j: int) -> Option<
    ZonePlanError,
> {
    if assignment[j] >= zone_count {
        Some(ZonePlanError::UnknownZone { unit_index: j as usize, zone_index: assignment[j] })
    } else {
        None
    }
}

/// What checking the edges out of unit `from` reports, if anything.
pub open spec fn edge_row_check(adjacency: Seq<Vec<usize>>, from: int, unit_count: nat) -> Result<
    (),
    ZonePlanError,
> {
    first_error(
        Seq::new(
            adjacency[from]@.len(),
            |k: int|
                if adjacency[from]@[k] >= unit_count {
                    Some(
                        ZonePlanError::EdgeOutOfBounds {
                            from: from as usize,
                            to: adjacency[from]@[k],
                            unit_count: unit_count as usize,
                        },
                    )
                } else {
                    None
                },
        ),
    )
}

/// The outcomes of checking the edges out of each unit in turn.
pub open spec fn edge_outcomes(adjacency: Seq<Vec<usize>>, unit_count: nat) -> Seq<
    Option<ZonePlanError>,
> {
    Seq::new(
        adjacency.len(),
        |from: int|
            match edge_row_check(adjacency, from, unit_count) {
                Err(e) => Some(e),
                Ok(_) => None,
            },
    )
}

/// The outcome of validating a plan's shape against its units: valid zones,
/// one assignment and one adjacency list per unit, the first map coordinate
/// error of the units if any, zone indices in range, and edges in range.
pub open spec fn plan_inputs_check(
    unit_count: nat,
    adjacency: Seq<Vec<usize>>,
    plan: ZonePlan,
    coordinate_error: Option<ZonePlanError>,
) -> Result<(), ZonePlanError> {
    if plan.zones@.len() == 0 {
        Err(ZonePlanError::EmptyZones)
    } else if zones_check(plan.zones@) is Err {
        zones_check(plan.zones@)
    } else if unit_count != plan.assignment@.len() {
        Err(
            ZonePlanError::UnitAssignmentMismatch {
                unit_count: unit_count as usize,
                assignment_count: plan.assignment@.len() as usize,
            },
        )
    } else if adjacency.len() != unit_count {
        Err(
            ZonePlanError::AdjacencyUnitMismatch {
                adjacency_count: adjacency.len() as usize,
                unit_count: unit_count as usize,
            },
        )
    } else if coordinate_error is Some {
        Err(coordinate_error->0)
    } else if first_error(
        Seq::new(
            plan.assignment@.len(),
            |j: int| assignment_outcome(plan.assignment@, plan.zones@.len(), j),
        ),
    ) is Err {
        first_error(
            Seq::new(
                plan.assignment@.len(),
                |j: int| assignment_outcome(plan.assignment@, plan.zones@.len(), j),
            ),
        )
    } else {
        first_error(edge_outcomes(adjacency, unit_count))
    }
}

/// The outcomes of checking each unit's zone index against `zone_count` zones.
pub open spec fn assignment_outcomes(assignment: Seq<usize>, zone_count: nat) -> Seq<
    Option<ZonePlanError>,
> {
    Seq::new(assignment.len(), |j: int| assignment_outcome(assignment, zone_count, j))
}

fn check_assignment(assignment: &Vec<usize>, zone_count: usize) -> (r: Result<(), ZonePlanError>)
    ensures
        r == first_error(assignment_outcomes(assignment@, zone_count as nat)),
{
    let ghost outcomes = assignment_outcomes(assignment@, zone_count as nat);
    let mut i: usize = 0;
    while i < assignment.len()
        invariant
            i <= assignment@.len(),
            outcomes == assignment_outcomes(assignment@, zone_count as nat),
            first_error(outcomes) == first_error_from(outcomes, i as int),
        decreases assignment@.len() - i,
    {
        let zone_index = assignment[i];
        if zone_index >= zone_count {
            let e = ZonePlanError::UnknownZone { unit_index: i, zone_index };
            assert(outcomes[i as int] == Some(e));
            return Err(e);
        }
        assert(outcomes[i as int] is None);
        i = i + 1;
    }
    Ok(())
}

fn check_edge_row(adjacency: &Vec<Vec<usize>>, from: usize, unit_count: usize) -> (r: Result<
    (),
    ZonePlanError,
>)
    requires
        from < adjacency@.len(),
    ensures
        r == edge_row_check(adjacency@, from as int, unit_count as nat),
{
    let edges: &Vec<usize> = &adjacency[from];
    let ghost row = Seq::new(
        adjacency@[from as int]@.len(),
        |k: int|
            if adjacency@[from as int]@[k] >= unit_count {
                Some(
                    ZonePlanError::EdgeOutOfBounds {
                        from: from,
                        to: adjacency@[from as int]@[k],
                        unit_count: unit_count,
                    },
                )
            } else {
                None
            },
    );
    assert(edge_row_check(adjacency@, from as int, unit_count as nat) == first_error(row));
    assert(edges@ == adjacency@[from as int]@);
    let mut k: usize = 0;
    while k < edges.len()
        invariant
            k <= edges@.len(),
            from < adjacency@.len(),
            edges@ == adjacency@[from as int]@,
            row.len() == edges@.len(),
            forall|m: int|
                0 <= m < row.len() ==> #[trigger] row[m] == (if edges@[m] >= unit_count {
                    Some(
                        ZonePlanError::EdgeOutOfBounds {
                            from: from,
                            to: edges@[m],
                            unit_count: unit_count,
                        },
                    )
                } else {
                    None
                }),
            first_error(row) == first_error_from(row, k as int),
            edge_row_check(adjacency@, from as int, unit_count as nat) == first_error(row),
        decreases edges@.len() - k,
    {
        let to = edges[k];
        if to >= unit_count {
            let e = ZonePlanError::EdgeOutOfBounds { from, to, unit_count };
            assert(row[k as int] == Some(e));
            return Err(e);
        }
        assert(row[k as int] is None);
        k = k + 1;
    }
    Ok(())
}

fn check_edges(adjacency: &Vec<Vec<usize>>, unit_count: usize) -> (r: Result<(), ZonePlanError>)
    ensures
        r == first_error(edge_outcomes(adjacency@, unit_count as nat)),
{
    let ghost rows = edge_outcomes(adjacency@, unit_count as nat);
    let mut from: usize = 0;
    while from < adjacency.len()
        invariant
            from <= adjacency@.len(),
            rows == edge_outcomes(adjacency@, unit_count as nat),
            first_error(rows) == first_error_from(rows, from as int),
        decreases adjacency@.len() - from,
    {
        match check_edge_row(adjacency, from, unit_count) {
            Err(e) => {
                assert(rows[from as int] == Some(e));
                return Err(e);
            },
            Ok(()) => {
                assert(rows[from as int] is None);
            },
        }
        from = from + 1;
    }
    Ok(())
}

/// Validates a plan's shape against its `unit_count` units. `coordinate_error`
/// is the first invalid map coordinate among the units, if any; it is
/// reported after the count checks and before the zone-index checks.
pub fn validate_plan_inputs(
    unit_count: usize,
    adjacency: &Vec<Vec<usize>>,
    plan: &ZonePlan,
    coordinate_error: Option<ZonePlanError>,
) -> (r: Result<(), ZonePlanError>)
    ensures
        r == plan_inputs_check(unit_count as nat, adjacency@, *plan, coordinate_error),
{
    if plan.zones.len() == 0 {
        return Err(ZonePlanError::EmptyZones);
    }
    validate_zones(&plan.zones)?;
    if unit_count != plan.assignment.len() {
        return Err(
            ZonePlanError::UnitAssignmentMismatch {
                unit_count,
                assignment_count: plan.assignment.len(),
            },
        );
    }
    if adjacency.len() != unit_count {
        return Err(
            ZonePlanError::AdjacencyUnitMismatch { adjacency_count: adjacency.len(), unit_count },
        );
    }
    if let Some(e) = coordinate_error {
        return Err(e);
    }
    proof {
        assert(assignment_outcomes(plan.assignment@, plan.zones@.len()) =~= Seq::new(
            plan.assignment@.len(),
            |j: int| assignment_outcome(plan.assignment@, plan.zones@.len(), j),
        ));
    }
    check_assignment(&plan.assignment, plan.zones.len())?;
    check_edges(adjacency, unit_count)
}

} // verus!
