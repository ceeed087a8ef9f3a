use vstd::prelude::*;

use crate::checks::lemma_first_error_ok;
use crate::errors::ZonePlanError;
use crate::evaluation::{
    lemma_population_prefix_monotone, plan_input_check, population_prefix, total_population_of,
    validate_plan_input, PlanInput,
};
use crate::plans::PlanUnit;
use crate::text::same_text;
use crate::format::{offset_zone_id, offset_zone_label};
use crate::temporal::MAX_UTC_OFFSET_MINUTES;
use crate::plans::assignment_outcome;
use crate::zones::{
    zone_outcome, OffsetCandidateGrid, ZonePlan, ZoneScenario, ZoneScenarioKind, ZoneSpec,
};

verus! {

/// Strictly increasing offsets.
pub open spec fn increasing_offsets(s: Seq<i32>) -> bool {
    forall|i: int, j: int| 0 <= i < j < s.len() ==> #[trigger] s[i] < #[trigger] s[j]
}

/// The offsets of a list of zones, in order.
pub open spec fn zone_offsets(zones: Seq<ZoneSpec>) -> Seq<i32> {
    zones.map_values(|z: ZoneSpec| z.utc_offset_minutes)
}

/// The zones and assignment of a candidate plan built from each unit's
/// best offset: one zone per distinct offset, in increasing order of
/// offset, named by its offset; and each unit assigned the zone of its own
/// best offset.
pub open spec fn candidate_plan_spec(best: Seq<i32>, zones: Seq<ZoneSpec>, assignment: Seq<usize>) -> bool {
    &&& assignment.len() == best.len()
    &&& forall|j: int|
        0 <= j < best.len() ==> #[trigger] assignment[j] < zones.len()
            && zones[assignment[j] as int].utc_offset_minutes == best[j]
    &&& increasing_offsets(zone_offsets(zones))
    &&& forall|x: i32| #[trigger] zone_offsets(zones).contains(x) <==> best.contains(x)
    &&& forall|i: int|
        0 <= i < zones.len() ==> #[trigger] zones[i].id@ == offset_zone_label(
            zones[i].utc_offset_minutes as int,
        )
}

fn find_offset(offsets: &Vec<i32>, x: i32) -> (k: usize)
    ensures
        k <= offsets@.len(),
        k < offsets@.len() ==> offsets@[k as int] == x,
        k == offsets@.len() ==> !offsets@.contains(x),
{
    let mut k: usize = 0;
    while k < offsets.len()
        invariant
            k <= offsets@.len(),
            forall|m: int| 0 <= m < k ==> offsets@[m] != x,
        decreases offsets@.len() - k,
    {
        if offsets[k] == x {
            return k;
        }
        k = k + 1;
    }
    k
}

fn insert_offset_sorted(sorted: &mut Vec<i32>, x: i32)
    requires
        increasing_offsets(old(sorted)@),
        !old(sorted)@.contains(x),
    ensures
        increasing_offsets(final(sorted)@),
        forall|y: i32| #[trigger] final(sorted)@.contains(y) <==> (old(sorted)@.contains(y) || y == x),
{
    let ghost before = sorted@;
    let mut p: usize = 0;
    while p < sorted.len() && sorted[p] < x
        invariant
            p <= sorted@.len(),
            sorted@ == before,
            forall|m: int| 0 <= m < p ==> sorted@[m] < x,
        decreases sorted@.len() - p,
    {
        p = p + 1;
    }
    if p < sorted.len() {
        assert(sorted@[p as int] != x) by {
            if sorted@[p as int] == x {
                assert(before.contains(x));
            }
        }
    }
    sorted.insert(p, x);
    let ghost after = sorted@;
    assert(after =~= before.insert(p as int, x));
    assert forall|i: int, j: int| 0 <= i < j < after.len() implies #[trigger] after[i]
        < #[trigger] after[j] by {
        if j < p {
        } else if j == p {
        } else if i < p {
            assert(after[j] == before[j - 1]);
            if j - 1 > p {
                assert(before[p as int] < before[j - 1]);
            }
        } else if i == p {
            assert(after[j] == before[j - 1]);
            if j - 1 > p {
                assert(before[p as int] < before[j - 1]);
            }
        } else {
            assert(after[i] == before[i - 1] && after[j] == before[j - 1]);
        }
    }
    assert forall|y: i32| #[trigger] after.contains(y) <==> (before.contains(y) || y == x) by {
        if after.contains(y) {
            let k = choose|k: int| 0 <= k < after.len() && after[k] == y;
            if k < p {
                assert(before[k] == y);
            } else if k > p {
                assert(before[k - 1] == y);
            }
        }
        if before.contains(y) {
            let k = choose|k: int| 0 <= k < before.len() && before[k] == y;
            if k < p {
                assert(after[k] == y);
            } else {
                assert(after[k + 1] == y);
            }
        }
        if y == x {
            assert(after[p as int] == y);
        }
    }
}

/// Builds the zones and assignment of a candidate plan from each unit's
/// best offset on a candidate grid.
pub fn candidate_zone_plan(best_offsets: &Vec<i32>) -> (plan: (Vec<ZoneSpec>, Vec<usize>))
    requires
        forall|j: int|
            0 <= j < best_offsets@.len() ==> -MAX_UTC_OFFSET_MINUTES <= #[trigger] best_offsets@[j]
                <= MAX_UTC_OFFSET_MINUTES,
    ensures
        candidate_plan_spec(best_offsets@, plan.0@, plan.1@),
{
    let ghost best = best_offsets@;
    let mut sorted: Vec<i32> = Vec::new();
    let mut i: usize = 0;
    while i < best_offsets.len()
        invariant
            best == best_offsets@,
            i <= best.len(),
            increasing_offsets(sorted@),
            forall|x: i32| #[trigger] sorted@.contains(x) <==> best.take(i as int).contains(x),
        decreases best.len() - i,
    {
        let x = best_offsets[i];
        let ghost prefix = best.take(i as int);
        let ghost next = best.take(i + 1);
        assert forall|y: i32| next.contains(y) <==> (prefix.contains(y) || y == x) by {
            if next.contains(y) {
                let m = choose|m: int| 0 <= m < next.len() && next[m] == y;
                if m < i {
                    assert(prefix[m] == y);
                }
            }
            if prefix.contains(y) {
                let m = choose|m: int| 0 <= m < prefix.len() && prefix[m] == y;
                assert(next[m] == y);
            }
            if y == x {
                assert(next[i as int] == y);
            }
        }
        let k = find_offset(&sorted, x);
        if k == sorted.len() {
            insert_offset_sorted(&mut sorted, x);
        } else {
            assert(sorted@.contains(x)) by {
                assert(sorted@[k as int] == x);
            }
        }
        i = i + 1;
    }
    assert(best.take(best.len() as int) =~= best);
    assert forall|x: i32| #[trigger] sorted@.contains(x) implies -MAX_UTC_OFFSET_MINUTES <= x
        <= MAX_UTC_OFFSET_MINUTES by {
        let m = choose|m: int| 0 <= m < best.len() && best[m] == x;
        assert(-MAX_UTC_OFFSET_MINUTES <= best[m] <= MAX_UTC_OFFSET_MINUTES);
    }
    let mut zones: Vec<ZoneSpec> = Vec::new();
    let mut m: usize = 0;
    while m < sorted.len()
        invariant
            m <= sorted@.len(),
            forall|x: i32|
                #[trigger] sorted@.contains(x) ==> -MAX_UTC_OFFSET_MINUTES <= x
                    <= MAX_UTC_OFFSET_MINUTES,
            zones@.len() == m,
            forall|q: int| 0 <= q < m ==> #[trigger] zones@[q].utc_offset_minutes == sorted@[q],
            forall|q: int|
                0 <= q < m ==> #[trigger] zones@[q].id@ == offset_zone_label(
                    zones@[q].utc_offset_minutes as int,
                ),
        decreases sorted@.len() - m,
    {
        let offset = sorted[m];
        assert(sorted@.contains(sorted@[m as int]));
        zones.push(ZoneSpec { id: offset_zone_id(offset), utc_offset_minutes: offset });
        m = m + 1;
    }
    assert(zone_offsets(zones@) =~= sorted@);
    let mut assignment: Vec<usize> = Vec::new();
    let mut j: usize = 0;
    while j < best_offsets.len()
        invariant
            best == best_offsets@,
            j <= best.len(),
            zones@.len() == sorted@.len(),
            forall|q: int| 0 <= q < zones@.len() ==> #[trigger] zones@[q].utc_offset_minutes == sorted@[q],
            forall|x: i32| #[trigger] sorted@.contains(x) <==> best.contains(x),
            assignment@.len() == j,
            forall|q: int|
                0 <= q < j ==> #[trigger] assignment@[q] < zones@.len()
                    && zones@[assignment@[q] as int].utc_offset_minutes == best[q],
        decreases best.len() - j,
    {
        let x = best_offsets[j];
        assert(best.contains(x)) by {
            assert(best[j as int] == x);
        }
        let k = find_offset(&sorted, x);
        assignment.push(k);
        j = j + 1;
    }
    (zones, assignment)
}


/// The caveat recorded on a candidate built from `input_id` on a grid named `grid`.
pub open spec fn candidate_caveat(input_id: Seq<char>, grid: Seq<char>) -> Seq<char> {
    "Generated analytic counterfactual from "@ + input_id + " using nearest "@ + grid
        + " UTC offsets."@
}

/// Whether `c` is the candidate built from `input` on `grid` with the given
/// best offsets: new ids, an analytic-counterfactual scenario, the
/// candidate zones and assignment, no reference assignment, and one more
/// caveat; units, adjacency, and manifest id unchanged.
pub open spec fn is_candidate_of(input: PlanInput, grid: OffsetCandidateGrid, best: Seq<i32>, c: PlanInput) -> bool {
    &&& c.input_id@ == input.input_id@ + "-"@ + grid.name()
    &&& c.source_manifest_id == input.source_manifest_id
    &&& c.scenario.scenario_id@ == input.scenario.scenario_id@ + "-"@ + grid.name()
    &&& c.scenario.kind == ZoneScenarioKind::AnalyticCounterfactual
    &&& c.scenario.label@ == grid.name() + " candidate offset grid"@
    &&& c.scenario.authority_source_id is None
    &&& c.units == input.units
    &&& c.adjacency == input.adjacency
    &&& c.plan.name@ == input.plan.name@ + " "@ + grid.name() + " candidate"@
    &&& candidate_plan_spec(best, c.plan.zones@, c.plan.assignment@)
    &&& c.reference_assignment@.len() == 0
    &&& c.caveats@.len() == input.caveats@.len() + 1
    &&& forall|k: int| 0 <= k < input.caveats@.len() ==> #[trigger] c.caveats@[k] == input.caveats@[k]
    &&& c.caveats@.last()@ == candidate_caveat(input.input_id@, grid.name())
}

fn joined(first: &str, separator: &str, second: &str) -> (s: String)
    ensures
        s@ == first@ + separator@ + second@,
{
    let mut s = String::from_str(first);
    s.append(separator);
    s.append(second);
    s
}

/// Builds the analytic-counterfactual candidate of a valid plan input on a
/// candidate grid, given each unit's best offset on that grid: every unit
/// goes to the zone of its own best offset, zones are the distinct best
/// offsets in increasing order, and the reference assignment is dropped. A candidate built from an input with units passes the input
/// checks in turn.
pub fn build_offset_candidate_plan(
    input: PlanInput,
    grid: OffsetCandidateGrid,
    best_offsets: &Vec<i32>,
    coordinate_error: Option<ZonePlanError>,
) -> (r: Result<PlanInput, ZonePlanError>)
    requires
        best_offsets@.len() == input.units@.len(),
        forall|j: int|
            0 <= j < best_offsets@.len() ==> -MAX_UTC_OFFSET_MINUTES <= #[trigger] best_offsets@[j]
                <= MAX_UTC_OFFSET_MINUTES,
    ensures
        plan_input_check(input, coordinate_error) matches Err(e) ==> r == Err::<PlanInput, ZonePlanError>(e),
        plan_input_check(input, coordinate_error) is Ok ==> (r matches Ok(c) && is_candidate_of(
            input,
            grid,
            best_offsets@,
            c,
        )),
        input.units@.len() > 0 ==> (r matches Ok(c) ==> plan_input_check(c, coordinate_error) is Ok),
{
    validate_plan_input(&input, coordinate_error)?;
    let (zones, assignment) = candidate_zone_plan(best_offsets);
    let ghost old_input = input;
    let slug = grid.slug();
    let label = grid.label();
    let input_id = joined(input.input_id.as_str(), "-", slug);
    let scenario = ZoneScenario {
        scenario_id: joined(input.scenario.scenario_id.as_str(), "-", slug),
        kind: ZoneScenarioKind::AnalyticCounterfactual,
        label: joined(label, "", " candidate offset grid"),
        authority_source_id: None,
    };
    let mut plan_name = joined(input.plan.name.as_str(), " ", label);
    plan_name.append(" candidate");
    let mut caveat = joined("Generated analytic counterfactual from ", "", input.input_id.as_str());
    caveat.append(" using nearest ");
    caveat.append(label);
    caveat.append(" UTC offsets.");
    proof {
        reveal_strlit("");
    }
    let mut caveats = input.caveats;
    caveats.push(caveat);
    let candidate = PlanInput {
        input_id,
        source_manifest_id: input.source_manifest_id,
        scenario,
        units: input.units,
        adjacency: input.adjacency,
        plan: ZonePlan { name: plan_name, zones, assignment },
        reference_assignment: Vec::new(),
        caveats,
    };
    proof {
        assert(candidate.input_id@ =~= old_input.input_id@ + "-"@ + grid.name());
        assert(candidate.scenario.label@ =~= grid.name() + " candidate offset grid"@);
        assert(candidate.plan.name@ =~= old_input.plan.name@ + " "@ + grid.name() + " candidate"@);
        assert(candidate.caveats@.last()@ =~= candidate_caveat(old_input.input_id@, grid.name()));
        if old_input.units@.len() > 0 {
            lemma_candidate_validates(old_input, grid, best_offsets@, candidate, coordinate_error);
        }
    }
    Ok(candidate)
}

/// A candidate built from a valid input with units passes the input checks.
proof fn lemma_candidate_validates(
    input: PlanInput,
    grid: OffsetCandidateGrid,
    best: Seq<i32>,
    c: PlanInput,
    coordinate_error: Option<ZonePlanError>,
)
    requires
        plan_input_check(input, coordinate_error) is Ok,
        is_candidate_of(input, grid, best, c),
        best.len() == input.units@.len(),
        input.units@.len() > 0,
        forall|j: int|
            0 <= j < best.len() ==> -MAX_UTC_OFFSET_MINUTES <= #[trigger] best[j]
                <= MAX_UTC_OFFSET_MINUTES,
    ensures
        plan_input_check(c, coordinate_error) is Ok,
{
    let zones = c.plan.zones@;
    let assignment = c.plan.assignment@;
    assert(best.contains(best[0]));
    assert(zone_offsets(zones).contains(best[0]));
    assert(zones.len() > 0);
    reveal_strlit(" candidate offset grid");
    assert(c.scenario.label@.len() > 0);
    assert(c.input_id@.len() >= input.input_id@.len());
    assert(c.scenario.scenario_id@.len() >= input.scenario.scenario_id@.len());
    let zone_outcomes = Seq::new(zones.len(), |j: int| zone_outcome(zones[j]));
    assert forall|j: int| 0 <= j < zones.len() implies #[trigger] zone_outcomes[j] is None by {
        let x = zones[j].utc_offset_minutes;
        assert(zone_offsets(zones)[j] == x);
        assert(zone_offsets(zones).contains(x));
        assert(best.contains(x));
        let k = choose|k: int| 0 <= k < best.len() && best[k] == x;
        assert(-MAX_UTC_OFFSET_MINUTES <= best[k] <= MAX_UTC_OFFSET_MINUTES);
    }
    lemma_first_error_ok(zone_outcomes);
    let assigned = Seq::new(
        assignment.len(),
        |j: int| assignment_outcome(assignment, zones.len(), j),
    );
    assert forall|j: int| 0 <= j < assignment.len() implies #[trigger] assigned[j] is None by {
        assert(assignment[j] < zones.len());
    }
    lemma_first_error_ok(assigned);
}


/// Whether unit `j` sits in zones with different ids under two plans.
pub open spec fn zone_id_moved(baseline: ZonePlan, candidate: ZonePlan, j: int) -> bool {
    baseline.zones@[baseline.assignment@[j] as int].id@ != candidate.zones@[candidate.assignment@[j] as int].id@
}

/// The number of the first `n` units whose zone id differs between two plans.
pub open spec fn zone_id_moved_count(baseline: ZonePlan, candidate: ZonePlan, n: int) -> nat
    decreases n,
{
    if n <= 0 {
        0
    } else {
        zone_id_moved_count(baseline, candidate, n - 1) + if zone_id_moved(baseline, candidate, n - 1) {
            1nat
        } else {
            0nat
        }
    }
}

/// The population of the first `n` units whose zone id differs between two plans.
pub open spec fn zone_id_moved_population(
    units: Seq<PlanUnit>,
    baseline: ZonePlan,
    candidate: ZonePlan,
    n: int,
) -> nat
    decreases n,
{
    if n <= 0 {
        0
    } else {
        zone_id_moved_population(units, baseline, candidate, n - 1) + if zone_id_moved(
            baseline,
            candidate,
            n - 1,
        ) {
            units[n - 1].population as nat
        } else {
            0nat
        }
    }
}

proof fn lemma_zone_id_moved_bounds(units: Seq<PlanUnit>, baseline: ZonePlan, candidate: ZonePlan, n: int)
    requires
        0 <= n,
    ensures
        zone_id_moved_count(baseline, candidate, n) <= n,
        zone_id_moved_population(units, baseline, candidate, n) <= population_prefix(units, n),
    decreases n,
{
    if n > 0 {
        lemma_zone_id_moved_bounds(units, baseline, candidate, n - 1);
    }
}

/// Whether every unit's zone index names a zone of the plan.
pub open spec fn assignment_in_range(plan: ZonePlan, unit_count: nat) -> bool {
    &&& plan.assignment@.len() >= unit_count
    &&& forall|j: int| 0 <= j < unit_count ==> #[trigger] plan.assignment@[j] < plan.zones@.len()
}

/// Counts the baseline's units, and their population, whose zone id differs
/// between the baseline plan and a candidate plan.
pub fn moved_from_baseline_zone_ids(baseline: &PlanInput, candidate: &PlanInput) -> (moved: (
    usize,
    u64,
))
    requires
        assignment_in_range(baseline.plan, baseline.units@.len()),
        assignment_in_range(candidate.plan, baseline.units@.len()),
        total_population_of(baseline.units@) <= u64::MAX,
    ensures
        moved.0 == zone_id_moved_count(baseline.plan, candidate.plan, baseline.units@.len() as int),
        moved.1 == zone_id_moved_population(
            baseline.units@,
            baseline.plan,
            candidate.plan,
            baseline.units@.len() as int,
        ),
{
    let mut count: usize = 0;
    let mut population: u64 = 0;
    let mut i: usize = 0;
    while i < baseline.units.len()
        invariant
            i <= baseline.units@.len(),
            assignment_in_range(baseline.plan, baseline.units@.len()),
            assignment_in_range(candidate.plan, baseline.units@.len()),
            total_population_of(baseline.units@) <= u64::MAX,
            count == zone_id_moved_count(baseline.plan, candidate.plan, i as int),
            population == zone_id_moved_population(
                baseline.units@,
                baseline.plan,
                candidate.plan,
                i as int,
            ),
        decreases baseline.units@.len() - i,
    {
        proof {
            lemma_zone_id_moved_bounds(baseline.units@, baseline.plan, candidate.plan, i + 1);
            lemma_population_prefix_monotone(baseline.units@, i + 1, baseline.units@.len() as int);
        }
        let baseline_zone = &baseline.plan.zones[baseline.plan.assignment[i]];
        let candidate_zone = &candidate.plan.zones[candidate.plan.assignment[i]];
        if !same_text(baseline_zone.id.as_str(), candidate_zone.id.as_str()) {
            count = count + 1;
            population = population + baseline.units[i].population;
        }
        i = i + 1;
    }
    (count, population)
}

} // verus!
