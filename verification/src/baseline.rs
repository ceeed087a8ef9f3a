use vstd::prelude::*;

use crate::checks::{first_error, first_error_from, lemma_first_error_ok};
use crate::county::{CountyTimeZoneAssignment, CountyTimeZoneAssignmentSet};
use crate::errors::{validate_non_empty_plan, ZonePlanError};
use crate::evaluation::{plan_input_check, PlanInput};
use crate::plans::{last_zone_index, scenario_shape_check, validate_scenario_shape, PlanUnit};
use crate::points::{CountyRepresentativePointRecord, CountyRepresentativePointSet};
use crate::text::{insert_sorted, same_text, strictly_increasing, views};
use crate::zones::{
    lemma_zones_in_range, offset_in_range, BoundaryUnitSourceRefs, ZoneCatalog, ZonePlan,
    ZoneScenario, ZoneSpec,
};

verus! {

/// What building a county baseline reads of a validated RPLAN context: its
/// unit ids in canonical order, the boundary source of its units, the
/// targets of its adjacency lists (when it has a graph), and its
/// populations (when it has them).
#[derive(Debug, Clone, PartialEq, Eq)]
pub struct CountyContextFacts {
    pub unit_ids: Vec<String>,
    pub boundary_source_id: Option<String>,
    pub adjacency: Option<Vec<Vec<usize>>>,
    pub populations: Option<Vec<i64>>,
}

/// A county baseline plan input, with the representative-point record
/// that each unit takes its solar offset and map point from.
#[derive(Debug, Clone, PartialEq, Eq)]
pub struct CountyBaselinePlan {
    pub input: PlanInput,
    pub point_record_for_unit: Vec<usize>,
}

/// Why a county cannot enter the baseline.
pub enum BaselineUnitIssue {
    NegativePopulation,
    MissingAssignment,
    MissingPoint,
}

/// The position of the last assignment for unit `id`, or -1 when there is none.
pub open spec fn last_assignment_index(a: Seq<CountyTimeZoneAssignment>, id: Seq<char>) -> int
    decreases a.len(),
{
    if a.len() == 0 {
        -1
    } else if a.last().unit_id@ == id {
        a.len() - 1
    } else {
        last_assignment_index(a.drop_last(), id)
    }
}

/// The position of the last point record for unit `id`, or -1 when there is none.
pub open spec fn last_point_index(r: Seq<CountyRepresentativePointRecord>, id: Seq<char>) -> int
    decreases r.len(),
{
    if r.len() == 0 {
        -1
    } else if r.last().unit_id@ == id {
        r.len() - 1
    } else {
        last_point_index(r.drop_last(), id)
    }
}

/// What looking up the zone of an assignment in the catalog reports, if anything.
pub open spec fn assignment_zone_outcome(catalog: ZoneCatalog, a: CountyTimeZoneAssignment) -> Option<
    ZonePlanError,
> {
    if last_zone_index(catalog.zones@, a.zone_id@) < 0 {
        Some(
            ZonePlanError::PlanZoneMissingFromCatalog {
                zone_id: a.zone_id,
                catalog_id: catalog.catalog_id,
            },
        )
    } else {
        None
    }
}

/// The outcome of the checks that precede building the units: the input
/// id, the scenario, one manifest behind the assignments, points, and
/// catalog, a graph and populations in the context, and a catalog zone for
/// every assignment.
pub open spec fn baseline_precheck(
    input_id: Seq<char>,
    scenario: ZoneScenario,
    context: CountyContextFacts,
    assignments: CountyTimeZoneAssignmentSet,
    points: CountyRepresentativePointSet,
    catalog: ZoneCatalog,
) -> Result<(), ZonePlanError> {
    if input_id.len() == 0 {
        Err(ZonePlanError::EmptyId { kind: "zone_plan_input.input_id" })
    } else if scenario_shape_check(scenario) is Err {
        scenario_shape_check(scenario)
    } else if assignments.source_manifest_id@ != points.source_manifest_id@
        || assignments.source_manifest_id@ != catalog.source_manifest_id@ {
        Err(
            ZonePlanError::SourceManifestMismatch {
                input_source_manifest_id: assignments.source_manifest_id,
                manifest_id: catalog.source_manifest_id,
            },
        )
    } else if context.adjacency is None {
        Err(ZonePlanError::MissingRplanGraph)
    } else if context.populations is None {
        Err(ZonePlanError::MissingRplanPopulations)
    } else {
        first_error(
            Seq::new(
                assignments.assignments@.len(),
                |k: int| assignment_zone_outcome(catalog, assignments.assignments@[k]),
            ),
        )
    }
}

/// What building unit `j` runs into, if anything, with its position.
pub open spec fn unit_issue(
    context: CountyContextFacts,
    assignments: Seq<CountyTimeZoneAssignment>,
    points: Seq<CountyRepresentativePointRecord>,
    j: int,
) -> Option<(int, BaselineUnitIssue)> {
    let id = context.unit_ids@[j]@;
    if context.populations->0@[j] < 0 {
        Some((j, BaselineUnitIssue::NegativePopulation))
    } else if last_assignment_index(assignments, id) < 0 {
        Some((j, BaselineUnitIssue::MissingAssignment))
    } else if last_point_index(points, id) < 0 {
        Some((j, BaselineUnitIssue::MissingPoint))
    } else {
        None
    }
}

/// The first unit issue, in unit order.
pub open spec fn first_unit_issue(
    context: CountyContextFacts,
    assignments: Seq<CountyTimeZoneAssignment>,
    points: Seq<CountyRepresentativePointRecord>,
) -> Result<(), (int, BaselineUnitIssue)> {
    first_error(
        Seq::new(
            context.unit_ids@.len(),
            |j: int| unit_issue(context, assignments, points, j),
        ),
    )
}

/// Whether some assignment names the zone `id`.
pub open spec fn zone_assigned(a: Seq<CountyTimeZoneAssignment>, id: Seq<char>) -> bool {
    exists|k: int| 0 <= k < a.len() && #[trigger] a[k].zone_id@ == id
}

/// The zone ids of a list of zones, in order.
pub open spec fn zone_ids(zones: Seq<ZoneSpec>) -> Seq<Seq<char>> {
    zones.map_values(|z: ZoneSpec| z.id@)
}

/// The unit built for county `j`.
pub open spec fn baseline_unit(
    context: CountyContextFacts,
    a: CountyTimeZoneAssignment,
    p: CountyRepresentativePointRecord,
    j: int,
    u: PlanUnit,
) -> bool {
    let id = context.unit_ids@[j];
    &&& u.id == id
    &&& u.name@ == "GEOID "@ + id@ + " baseline smoke unit"@
    &&& u.population == context.populations->0@[j]
    &&& u.source_refs matches Some(refs) && {
        &&& refs.boundary_source_id == context.boundary_source_id
        &&& refs.representative_point_source_id == Some(p.point.source_id)
        &&& refs.population_source_id matches Some(s) && s@
            == "census-county-population-estimates-2024"@
        &&& refs.time_zone_assignment_source_id == Some(a.legal_source_id)
        &&& refs.time_zone_geometry_source_id == a.geometry_source_id
        &&& refs.caveats@ == p.caveats@ + a.caveats@
    }
}

/// The county baseline built from valid parts: the input's ids, scenario,
/// and caveats as given; one unit per county in context order, each with
/// its last assignment and last point record; one zone per assigned zone
/// id, in increasing id order, with the offset of the catalog's last zone
/// of that id; each county assigned its assignment's zone, which is also
/// the reference; and the context's adjacency.
pub open spec fn baseline_spec(
    input_id: String,
    scenario: ZoneScenario,
    context: CountyContextFacts,
    assignments: CountyTimeZoneAssignmentSet,
    points: CountyRepresentativePointSet,
    catalog: ZoneCatalog,
    caveats: Seq<String>,
    built: CountyBaselinePlan,
) -> bool {
    let input = built.input;
    let n = context.unit_ids@.len();
    let a = assignments.assignments@;
    let r = points.records@;
    let zones = input.plan.zones@;
    &&& input.input_id == input_id
    &&& input.source_manifest_id == assignments.source_manifest_id
    &&& input.scenario == scenario
    &&& input.caveats@ == caveats
    &&& input.adjacency == context.adjacency->0
    &&& input.plan.name@ == input_id@ + "-plan"@
    &&& strictly_increasing(zone_ids(zones))
    &&& forall|x: Seq<char>| #[trigger] zone_ids(zones).contains(x) <==> zone_assigned(a, x)
    &&& forall|q: int|
        0 <= q < zones.len() ==> #[trigger] zones[q].utc_offset_minutes == catalog.zones@[last_zone_index(
            catalog.zones@,
            zones[q].id@,
        )].utc_offset_minutes
    &&& input.units@.len() == n
    &&& input.plan.assignment@.len() == n
    &&& input.reference_assignment@ == input.plan.assignment@
    &&& built.point_record_for_unit@.len() == n
    &&& forall|j: int|
        0 <= j < n ==> #[trigger] county_built(
            context,
            a,
            r,
            zones,
            input.units@,
            input.plan.assignment@,
            built.point_record_for_unit@,
            j,
        )
}

/// An adjacency with one list per unit whose edges all name one of the units.
pub open spec fn adjacency_fits(adjacency: Seq<Vec<usize>>, unit_count: nat) -> bool {
    &&& adjacency.len() == unit_count
    &&& forall|from: int, k: int|
        0 <= from < adjacency.len() && 0 <= k < adjacency[from]@.len() ==> #[trigger] adjacency[from]@[k]
            < unit_count
}

/// Whether county `j` was built from its last assignment and last point record.
pub open spec fn county_built(
    context: CountyContextFacts,
    a: Seq<CountyTimeZoneAssignment>,
    recs: Seq<CountyRepresentativePointRecord>,
    zones: Seq<ZoneSpec>,
    units: Seq<PlanUnit>,
    assignment: Seq<usize>,
    point_record_for_unit: Seq<usize>,
    j: int,
) -> bool {
    let ai = last_assignment_index(a, context.unit_ids@[j]@);
    let pi = last_point_index(recs, context.unit_ids@[j]@);
    &&& 0 <= ai < a.len()
    &&& 0 <= pi < recs.len()
    &&& point_record_for_unit[j] == pi
    &&& assignment[j] < zones.len()
    &&& zones[assignment[j] as int].id@ == a[ai].zone_id@
    &&& baseline_unit(context, a[ai], recs[pi], j, units[j])
}

proof fn lemma_last_assignment_index(a: Seq<CountyTimeZoneAssignment>, id: Seq<char>)
    ensures
        -1 <= last_assignment_index(a, id) < a.len(),
        last_assignment_index(a, id) >= 0 ==> a[last_assignment_index(a, id)].unit_id@ == id,
        forall|k: int| last_assignment_index(a, id) < k < a.len() ==> #[trigger] a[k].unit_id@ != id,
    decreases a.len(),
{
    if a.len() > 0 {
        let rest = a.drop_last();
        lemma_last_assignment_index(rest, id);
        assert forall|k: int| last_assignment_index(a, id) < k < a.len() implies #[trigger] a[k].unit_id@
            != id by {
            if k < a.len() - 1 {
                assert(a[k] == rest[k]);
            }
        }
    }
}

proof fn lemma_last_point_index(r: Seq<CountyRepresentativePointRecord>, id: Seq<char>)
    ensures
        -1 <= last_point_index(r, id) < r.len(),
        last_point_index(r, id) >= 0 ==> r[last_point_index(r, id)].unit_id@ == id,
        forall|k: int| last_point_index(r, id) < k < r.len() ==> #[trigger] r[k].unit_id@ != id,
    decreases r.len(),
{
    if r.len() > 0 {
        let rest = r.drop_last();
        lemma_last_point_index(rest, id);
        assert forall|k: int| last_point_index(r, id) < k < r.len() implies #[trigger] r[k].unit_id@
            != id by {
            if k < r.len() - 1 {
                assert(r[k] == rest[k]);
            }
        }
    }
}

proof fn lemma_last_zone_index(zones: Seq<ZoneSpec>, id: Seq<char>)
    ensures
        -1 <= last_zone_index(zones, id) < zones.len(),
        last_zone_index(zones, id) >= 0 ==> zones[last_zone_index(zones, id)].id@ == id,
        forall|k: int| last_zone_index(zones, id) < k < zones.len() ==> #[trigger] zones[k].id@ != id,
    decreases zones.len(),
{
    if zones.len() > 0 {
        let rest = zones.drop_last();
        lemma_last_zone_index(rest, id);
        assert forall|k: int| last_zone_index(zones, id) < k < zones.len() implies #[trigger] zones[k].id@
            != id by {
            if k < zones.len() - 1 {
                assert(zones[k] == rest[k]);
            }
        }
    }
}

fn find_last_assignment(a: &Vec<CountyTimeZoneAssignment>, id: &str) -> (k: usize)
    ensures
        k <= a@.len(),
        k == 0 <==> last_assignment_index(a@, id@) < 0,
        k > 0 ==> k - 1 == last_assignment_index(a@, id@),
{
    proof {
        lemma_last_assignment_index(a@, id@);
    }
    let mut k: usize = a.len();
    while k > 0 && !same_text(a[k - 1].unit_id.as_str(), id)
        invariant
            k <= a@.len(),
            last_assignment_index(a@, id@) < k,
            -1 <= last_assignment_index(a@, id@),
            last_assignment_index(a@, id@) >= 0 ==> a@[last_assignment_index(a@, id@)].unit_id@
                == id@,
            forall|m: int|
                last_assignment_index(a@, id@) < m < a@.len() ==> #[trigger] a@[m].unit_id@ != id@,
        decreases k,
    {
        k = k - 1;
    }
    k
}

fn find_last_point(r: &Vec<CountyRepresentativePointRecord>, id: &str) -> (k: usize)
    ensures
        k <= r@.len(),
        k == 0 <==> last_point_index(r@, id@) < 0,
        k > 0 ==> k - 1 == last_point_index(r@, id@),
{
    proof {
        lemma_last_point_index(r@, id@);
    }
    let mut k: usize = r.len();
    while k > 0 && !same_text(r[k - 1].unit_id.as_str(), id)
        invariant
            k <= r@.len(),
            last_point_index(r@, id@) < k,
            -1 <= last_point_index(r@, id@),
            last_point_index(r@, id@) >= 0 ==> r@[last_point_index(r@, id@)].unit_id@ == id@,
            forall|m: int| last_point_index(r@, id@) < m < r@.len() ==> #[trigger] r@[m].unit_id@ != id@,
        decreases k,
    {
        k = k - 1;
    }
    k
}

fn find_last_zone(zones: &Vec<ZoneSpec>, id: &str) -> (k: usize)
    ensures
        k <= zones@.len(),
        k == 0 <==> last_zone_index(zones@, id@) < 0,
        k > 0 ==> k - 1 == last_zone_index(zones@, id@),
{
    proof {
        lemma_last_zone_index(zones@, id@);
    }
    let mut k: usize = zones.len();
    while k > 0 && !same_text(zones[k - 1].id.as_str(), id)
        invariant
            k <= zones@.len(),
            last_zone_index(zones@, id@) < k,
            -1 <= last_zone_index(zones@, id@),
            last_zone_index(zones@, id@) >= 0 ==> zones@[last_zone_index(zones@, id@)].id@ == id@,
            forall|m: int| last_zone_index(zones@, id@) < m < zones@.len() ==> #[trigger] zones@[m].id@ != id@,
        decreases k,
    {
        k = k - 1;
    }
    k
}


fn copy_optional_text(o: &Option<String>) -> (r: Option<String>)
    ensures
        r == *o,
{
    match o {
        Some(t) => Some(t.clone()),
        None => None,
    }
}

fn copy_texts(v: &Vec<String>) -> (r: Vec<String>)
    ensures
        r@ == v@,
{
    let mut r: Vec<String> = Vec::new();
    let mut i: usize = 0;
    while i < v.len()
        invariant
            i <= v@.len(),
            r@ == v@.take(i as int),
        decreases v@.len() - i,
    {
        r.push(v[i].clone());
        assert(r@ =~= v@.take(i + 1));
        i = i + 1;
    }
    assert(v@.take(v@.len() as int) =~= v@);
    r
}

fn append_texts(dst: &mut Vec<String>, src: &Vec<String>)
    ensures
        final(dst)@ == old(dst)@ + src@,
{
    let ghost before = dst@;
    let mut i: usize = 0;
    while i < src.len()
        invariant
            i <= src@.len(),
            dst@ == before + src@.take(i as int),
        decreases src@.len() - i,
    {
        dst.push(src[i].clone());
        assert(dst@ =~= before + src@.take(i + 1));
        i = i + 1;
    }
    assert(src@.take(src@.len() as int) =~= src@);
}

fn copy_indices(v: &Vec<usize>) -> (r: Vec<usize>)
    ensures
        r@ == v@,
{
    let mut r: Vec<usize> = Vec::new();
    let mut i: usize = 0;
    while i < v.len()
        invariant
            i <= v@.len(),
            r@ == v@.take(i as int),
        decreases v@.len() - i,
    {
        r.push(v[i]);
        assert(r@ =~= v@.take(i + 1));
        i = i + 1;
    }
    assert(v@.take(v@.len() as int) =~= v@);
    r
}

fn baseline_zones(assignments: &Vec<CountyTimeZoneAssignment>, catalog: &ZoneCatalog) -> (r: Result<
    Vec<ZoneSpec>,
    ZonePlanError,
>)
    ensures
        r is Err <==> first_error(
            Seq::new(assignments@.len(), |k: int| assignment_zone_outcome(*catalog, assignments@[k])),
        ) is Err,
        r matches Err(e) ==> first_error(
            Seq::new(assignments@.len(), |k: int| assignment_zone_outcome(*catalog, assignments@[k])),
        ) == Err::<(), ZonePlanError>(e),
        r matches Ok(zones) ==> {
            &&& strictly_increasing(zone_ids(zones@))
            &&& forall|x: Seq<char>| #[trigger] zone_ids(zones@).contains(x) <==> zone_assigned(
                assignments@,
                x,
            )
            &&& forall|q: int|
                0 <= q < zones@.len() ==> #[trigger] zones@[q].utc_offset_minutes
                    == catalog.zones@[last_zone_index(catalog.zones@, zones@[q].id@)].utc_offset_minutes
            &&& forall|q: int|
                0 <= q < zones@.len() ==> last_zone_index(catalog.zones@, (#[trigger] zones@[q]).id@) >= 0
        },
{
    let ghost a = assignments@;
    let ghost outcomes = Seq::new(a.len(), |k: int| assignment_zone_outcome(*catalog, a[k]));
    let mut ids: Vec<String> = Vec::new();
    let mut i: usize = 0;
    while i < assignments.len()
        invariant
            a == assignments@,
            i <= a.len(),
            outcomes == Seq::new(a.len(), |k: int| assignment_zone_outcome(*catalog, a[k])),
            first_error(outcomes) == first_error_from(outcomes, i as int),
            strictly_increasing(views(ids@)),
            forall|x: Seq<char>| #[trigger] views(ids@).contains(x) <==> zone_assigned(
                a.take(i as int),
                x,
            ),
            forall|x: Seq<char>| #[trigger] views(ids@).contains(x) ==> last_zone_index(
                catalog.zones@,
                x,
            ) >= 0,
        decreases a.len() - i,
    {
        let assignment = &assignments[i];
        let found = find_last_zone(&catalog.zones, assignment.zone_id.as_str());
        if found == 0 {
            let e = ZonePlanError::PlanZoneMissingFromCatalog {
                zone_id: assignment.zone_id.clone(),
                catalog_id: catalog.catalog_id.clone(),
            };
            assert(outcomes[i as int] == Some(e));
            return Err(e);
        }
        assert(outcomes[i as int] is None);
        let ghost before = views(ids@);
        insert_sorted(&mut ids, assignment.zone_id.clone());
        proof {
            assert forall|x: Seq<char>| #[trigger] views(ids@).contains(x) <==> zone_assigned(
                a.take(i + 1),
                x,
            ) by {
                if zone_assigned(a.take(i + 1), x) {
                    let k = choose|k: int| 0 <= k < i + 1 && #[trigger] a.take(i + 1)[k].zone_id@ == x;
                    if k < i {
                        assert(a.take(i as int)[k] == a.take(i + 1)[k]);
                        assert(zone_assigned(a.take(i as int), x));
                    }
                }
                if zone_assigned(a.take(i as int), x) {
                    let k = choose|k: int| 0 <= k < i && #[trigger] a.take(i as int)[k].zone_id@ == x;
                    assert(a.take(i + 1)[k] == a.take(i as int)[k]);
                }
                if x == a[i as int].zone_id@ {
                    assert(a.take(i + 1)[i as int] == a[i as int]);
                }
            }
        }
        i = i + 1;
    }
    assert(a.take(a.len() as int) =~= a);
    let mut zones: Vec<ZoneSpec> = Vec::new();
    let mut q: usize = 0;
    while q < ids.len()
        invariant
            q <= ids@.len(),
            forall|x: Seq<char>| #[trigger] views(ids@).contains(x) ==> last_zone_index(
                catalog.zones@,
                x,
            ) >= 0,
            zones@.len() == q,
            forall|m: int| 0 <= m < q ==> (#[trigger] zones@[m]).id == ids@[m],
            forall|m: int|
                0 <= m < q ==> #[trigger] zones@[m].utc_offset_minutes
                    == catalog.zones@[last_zone_index(catalog.zones@, zones@[m].id@)].utc_offset_minutes,
        decreases ids@.len() - q,
    {
        assert(views(ids@)[q as int] == ids@[q as int]@);
        assert(views(ids@).contains(ids@[q as int]@));
        let k = find_last_zone(&catalog.zones, ids[q].as_str());
        let offset = catalog.zones[k - 1].utc_offset_minutes;
        zones.push(ZoneSpec { id: ids[q].clone(), utc_offset_minutes: offset });
        q = q + 1;
    }
    assert(zone_ids(zones@) =~= views(ids@));
    proof {
        assert forall|m: int| 0 <= m < zones@.len() implies last_zone_index(
            catalog.zones@,
            (#[trigger] zones@[m]).id@,
        ) >= 0 by {
            assert(views(ids@)[m] == zones@[m].id@);
            assert(views(ids@).contains(zones@[m].id@));
        }
    }
    Ok(zones)
}

fn zone_position(zones: &Vec<ZoneSpec>, id: &str) -> (k: usize)
    requires
        zone_ids(zones@).contains(id@),
    ensures
        k < zones@.len(),
        zones@[k as int].id@ == id@,
{
    let mut k: usize = 0;
    while k < zones.len()
        invariant
            k <= zones@.len(),
            zone_ids(zones@).contains(id@),
            forall|m: int| 0 <= m < k ==> zones@[m].id@ != id@,
        decreases zones@.len() - k,
    {
        if same_text(zones[k].id.as_str(), id) {
            return k;
        }
        k = k + 1;
    }
    proof {
        let m = choose|m: int| 0 <= m < zone_ids(zones@).len() && zone_ids(zones@)[m] == id@;
        assert(zones@[m].id@ == id@);
    }
    k
}


fn joined_text(first: &str, middle: &str, last: &str) -> (s: String)
    ensures
        s@ == first@ + middle@ + last@,
{
    let mut s = String::from_str(first);
    s.append(middle);
    s.append(last);
    s
}

/// Builds a county baseline plan input from a validated RPLAN context, the
/// counties' current-law assignments, their representative points, and a
/// zone catalog: each county takes its last assignment and its last point
/// record, zones are the assigned zone ids in increasing order with their
/// catalog offsets, and the assignment is also the reference.
pub fn build_county_baseline_plan_input(
    input_id: &String,
    scenario: ZoneScenario,
    context: CountyContextFacts,
    assignments: &CountyTimeZoneAssignmentSet,
    representative_points: &CountyRepresentativePointSet,
    catalog: &ZoneCatalog,
    caveats: Vec<String>,
) -> (r: Result<CountyBaselinePlan, ZonePlanError>)
    requires
        context.populations matches Some(p) ==> p@.len() >= context.unit_ids@.len(),
    ensures
        r matches Ok(built) ==> (context.unit_ids@.len() > 0 && context.adjacency is Some
            && adjacency_fits(context.adjacency->0@, context.unit_ids@.len()) ==> plan_input_check(
            built.input,
            None,
        ) is Ok),
        catalog.check() matches Err(e) ==> (r matches Err(ZonePlanError::ZoneCatalog(m)) && m@
            == e.text()),
        catalog.check() is Ok ==> match baseline_precheck(
            input_id@,
            scenario,
            context,
            *assignments,
            *representative_points,
            *catalog,
        ) {
            Err(e) => r == Err::<CountyBaselinePlan, ZonePlanError>(e),
            Ok(_) => match first_unit_issue(
                context,
                assignments.assignments@,
                representative_points.records@,
            ) {
                Err((j, BaselineUnitIssue::NegativePopulation)) => r == Err::<
                    CountyBaselinePlan,
                    ZonePlanError,
                >(ZonePlanError::NegativeRplanPopulation { unit_index: j as usize }),
                Err((j, BaselineUnitIssue::MissingAssignment)) => r matches Err(
                    ZonePlanError::RplanContext(m),
                ) && m@ == "missing county time-zone assignment for unit "@
                    + context.unit_ids@[j]@,
                Err((j, BaselineUnitIssue::MissingPoint)) => r matches Err(
                    ZonePlanError::RplanContext(m),
                ) && m@ == "missing representative point for unit "@ + context.unit_ids@[j]@,
                Ok(_) => r matches Ok(built) && baseline_spec(
                    *input_id,
                    scenario,
                    context,
                    *assignments,
                    *representative_points,
                    *catalog,
                    caveats@,
                    built,
                ),
            },
        },
{
    if let Err(e) = catalog.validate() {
        return Err(ZonePlanError::ZoneCatalog(e.message()));
    }
    validate_non_empty_plan("zone_plan_input.input_id", input_id.as_str())?;
    validate_scenario_shape(&scenario)?;
    if !same_text(
        assignments.source_manifest_id.as_str(),
        representative_points.source_manifest_id.as_str(),
    ) || !same_text(assignments.source_manifest_id.as_str(), catalog.source_manifest_id.as_str()) {
        return Err(
            ZonePlanError::SourceManifestMismatch {
                input_source_manifest_id: assignments.source_manifest_id.clone(),
                manifest_id: catalog.source_manifest_id.clone(),
            },
        );
    }
    let ghost ctx = context;
    let CountyContextFacts { unit_ids, boundary_source_id, adjacency, populations } = context;
    let adjacency = match adjacency {
        Some(adjacency) => adjacency,
        None => {
            return Err(ZonePlanError::MissingRplanGraph);
        },
    };
    let populations = match populations {
        Some(populations) => populations,
        None => {
            return Err(ZonePlanError::MissingRplanPopulations);
        },
    };
    let zones = baseline_zones(&assignments.assignments, catalog)?;
    let ghost a = assignments.assignments@;
    let ghost recs = representative_points.records@;
    let ghost issues = Seq::new(unit_ids@.len(), |j: int| unit_issue(ctx, a, recs, j));
    let mut units: Vec<PlanUnit> = Vec::new();
    let mut assignment: Vec<usize> = Vec::new();
    let mut point_record_for_unit: Vec<usize> = Vec::new();
    let mut i: usize = 0;
    while i < unit_ids.len()
        invariant
            i <= unit_ids@.len(),
            ctx == context,
            unit_ids == ctx.unit_ids,
            boundary_source_id == ctx.boundary_source_id,
            ctx.populations == Some(populations),
            ctx.adjacency == Some(adjacency),
            catalog.check() is Ok,
            baseline_precheck(
                input_id@,
                scenario,
                ctx,
                *assignments,
                *representative_points,
                *catalog,
            ) is Ok,
            forall|q: int|
                0 <= q < zones@.len() ==> #[trigger] zones@[q].utc_offset_minutes
                    == catalog.zones@[last_zone_index(catalog.zones@, zones@[q].id@)].utc_offset_minutes,
            populations@.len() >= unit_ids@.len(),
            a == assignments.assignments@,
            recs == representative_points.records@,
            issues == Seq::new(unit_ids@.len(), |j: int| unit_issue(ctx, a, recs, j)),
            first_unit_issue(ctx, a, recs) == first_error(issues),
            first_error(issues) == first_error_from(issues, i as int),
            strictly_increasing(zone_ids(zones@)),
            forall|x: Seq<char>| #[trigger] zone_ids(zones@).contains(x) <==> zone_assigned(a, x),
            units@.len() == i,
            assignment@.len() == i,
            point_record_for_unit@.len() == i,
            forall|j: int|
                0 <= j < i ==> #[trigger] county_built(
                    ctx,
                    a,
                    recs,
                    zones@,
                    units@,
                    assignment@,
                    point_record_for_unit@,
                    j,
                ),
        decreases unit_ids@.len() - i,
    {
        let id = &unit_ids[i];
        let population = populations[i];
        if population < 0 {
            let e = ZonePlanError::NegativeRplanPopulation { unit_index: i };
            assert(issues[i as int] == Some((i as int, BaselineUnitIssue::NegativePopulation)));
            return Err(e);
        }
        let found_assignment = find_last_assignment(&assignments.assignments, id.as_str());
        if found_assignment == 0 {
            assert(issues[i as int] == Some((i as int, BaselineUnitIssue::MissingAssignment)));
            let message = joined_text("missing county time-zone assignment for unit ", "", id.as_str());
            proof {
                reveal_strlit("");
                assert(message@ =~= "missing county time-zone assignment for unit "@ + id@);
            }
            return Err(ZonePlanError::RplanContext(message));
        }
        let found_point = find_last_point(&representative_points.records, id.as_str());
        if found_point == 0 {
            assert(issues[i as int] == Some((i as int, BaselineUnitIssue::MissingPoint)));
            let message = joined_text("missing representative point for unit ", "", id.as_str());
            proof {
                reveal_strlit("");
                assert(message@ =~= "missing representative point for unit "@ + id@);
            }
            return Err(ZonePlanError::RplanContext(message));
        }
        assert(issues[i as int] is None);
        let county = &assignments.assignments[found_assignment - 1];
        let point = &representative_points.records[found_point - 1];
        proof {
            assert(zone_assigned(a, county.zone_id@));
        }
        let zone_index = zone_position(&zones, county.zone_id.as_str());
        let mut unit_caveats = copy_texts(&point.caveats);
        append_texts(&mut unit_caveats, &county.caveats);
        let refs = BoundaryUnitSourceRefs {
            boundary_source_id: copy_optional_text(&boundary_source_id),
            representative_point_source_id: Some(point.point.source_id.clone()),
            population_source_id: Some(String::from_str("census-county-population-estimates-2024")),
            time_zone_assignment_source_id: Some(county.legal_source_id.clone()),
            time_zone_geometry_source_id: copy_optional_text(&county.geometry_source_id),
            caveats: unit_caveats,
        };
        let name = joined_text("GEOID ", id.as_str(), " baseline smoke unit");
        let unit = PlanUnit {
            id: id.clone(),
            name,
            population: population as u64,
            source_refs: Some(refs),
        };
        let ghost ai = last_assignment_index(a, unit_ids@[i as int]@);
        let ghost pi = last_point_index(recs, unit_ids@[i as int]@);
        proof {
            assert(ai == found_assignment - 1);
            assert(pi == found_point - 1);
            assert(baseline_unit(ctx, a[ai], recs[pi], i as int, unit));
        }
        let ghost old_units = units@;
        let ghost old_assignment = assignment@;
        let ghost old_points = point_record_for_unit@;
        units.push(unit);
        assignment.push(zone_index);
        point_record_for_unit.push(found_point - 1);
        proof {
            assert forall|j: int| 0 <= j < i + 1 implies #[trigger] county_built(
                ctx,
                a,
                recs,
                zones@,
                units@,
                assignment@,
                point_record_for_unit@,
                j,
            ) by {
                if j < i {
                    assert(county_built(
                        ctx,
                        a,
                        recs,
                        zones@,
                        old_units,
                        old_assignment,
                        old_points,
                        j,
                    ));
                    assert(units@[j] == old_units[j]);
                    assert(assignment@[j] == old_assignment[j]);
                    assert(point_record_for_unit@[j] == old_points[j]);
                } else {
                    assert(units@[j] == unit);
                    assert(0 <= ai < a.len());
                    assert(0 <= pi < recs.len());
                }
            }
        }
        i = i + 1;
    }
    let ghost adjacency_view = adjacency@;
    let reference_assignment = copy_indices(&assignment);
    let plan_name = joined_text(input_id.as_str(), "-plan", "");
    proof {
        reveal_strlit("");
        assert(plan_name@ =~= input_id@ + "-plan"@);
    }
    let built = CountyBaselinePlan {
        input: PlanInput {
            input_id: input_id.clone(),
            source_manifest_id: assignments.source_manifest_id.clone(),
            scenario,
            units,
            adjacency,
            plan: ZonePlan { name: plan_name, zones, assignment },
            reference_assignment,
            caveats,
        },
        point_record_for_unit,
    };
    proof {
        let n = unit_ids@.len();
        if n > 0 && adjacency_fits(adjacency_view, n) {
            lemma_baseline_zones_in_range(*catalog, a, built.input.plan.zones@);
            assert(county_built(
                ctx,
                a,
                recs,
                built.input.plan.zones@,
                built.input.units@,
                built.input.plan.assignment@,
                built.point_record_for_unit@,
                0,
            ));
            assert forall|j: int| 0 <= j < n implies #[trigger] built.input.plan.assignment@[j]
                < built.input.plan.zones@.len() by {
                assert(county_built(
                    ctx,
                    a,
                    recs,
                    built.input.plan.zones@,
                    built.input.units@,
                    built.input.plan.assignment@,
                    built.point_record_for_unit@,
                    j,
                ));
            }
            crate::laws::lemma_plan_fitting_units_is_valid(
                n,
                built.input.adjacency@,
                built.input.plan,
            );
        }
    }
    Ok(built)
}

/// The zones of a baseline plan take their offsets from a valid catalog
/// that holds every assigned zone, so they lie within fourteen hours of UTC.
proof fn lemma_baseline_zones_in_range(
    catalog: ZoneCatalog,
    a: Seq<CountyTimeZoneAssignment>,
    zones: Seq<ZoneSpec>,
)
    requires
        catalog.check() is Ok,
        first_error(Seq::new(a.len(), |k: int| assignment_zone_outcome(catalog, a[k]))) is Ok,
        forall|x: Seq<char>| #[trigger] zone_ids(zones).contains(x) <==> zone_assigned(a, x),
        forall|q: int|
            0 <= q < zones.len() ==> #[trigger] zones[q].utc_offset_minutes
                == catalog.zones@[last_zone_index(catalog.zones@, zones[q].id@)].utc_offset_minutes,
    ensures
        forall|q: int| 0 <= q < zones.len() ==> offset_in_range(#[trigger] zones[q].utc_offset_minutes),
{
    let outcomes = Seq::new(a.len(), |k: int| assignment_zone_outcome(catalog, a[k]));
    lemma_first_error_ok(outcomes);
    lemma_zones_in_range(catalog.zones@);
    assert forall|q: int| 0 <= q < zones.len() implies offset_in_range(
        #[trigger] zones[q].utc_offset_minutes,
    ) by {
        let id = zones[q].id@;
        assert(zone_ids(zones)[q] == id);
        assert(zone_ids(zones).contains(id));
        let k = choose|k: int| 0 <= k < a.len() && #[trigger] a[k].zone_id@ == id;
        assert(outcomes[k] is None);
        lemma_last_zone_index(catalog.zones@, id);
    }
}

} // verus!
