use vstd::prelude::*;

use crate::checks::{
    count_where, lemma_count_bound, lemma_prefix_step, lemma_take_all, sum_of,
};
use crate::limitations::{lemma_sum_monotone, lemma_sum_prefix};
use crate::plans::PlanUnit;
use crate::text::{insert_sorted, same_text, strictly_increasing, views};
use crate::zones::ZonePlan;

verus! {

/// The zone of one unit under a plan and, when the reference assignment
/// covers it, its zone there and whether it moved.
#[derive(Debug, Clone, PartialEq, Eq)]
pub struct UnitZoneRow {
    pub zone_id: String,
    pub zone_utc_offset_minutes: i32,
    pub reference_zone_id: Option<String>,
    pub moved_from_reference: Option<bool>,
    pub population: u64,
}

/// The units, people, and moves of one zone.
#[derive(Debug, Clone, PartialEq, Eq)]
pub struct ZoneTally {
    pub zone_id: String,
    pub unit_count: usize,
    pub population: u64,
    pub moved_unit_count: usize,
    pub moved_population: u64,
}

/// Whether every unit's zone index, and every reference zone index, names a zone of the plan.
pub open spec fn indices_name_zones(units: Seq<PlanUnit>, plan: ZonePlan, reference: Seq<usize>) -> bool {
    &&& plan.assignment@.len() >= units.len()
    &&& forall|j: int| 0 <= j < units.len() ==> #[trigger] plan.assignment@[j] < plan.zones@.len()
    &&& forall|j: int| 0 <= j < reference.len() ==> #[trigger] reference[j] < plan.zones@.len()
}

/// The row of unit `j`.
pub open spec fn unit_zone_row_spec(
    units: Seq<PlanUnit>,
    plan: ZonePlan,
    reference: Seq<usize>,
    j: int,
    row: UnitZoneRow,
) -> bool {
    let zone = plan.zones@[plan.assignment@[j] as int];
    &&& row.zone_id == zone.id
    &&& row.zone_utc_offset_minutes == zone.utc_offset_minutes
    &&& row.population == units[j].population
    &&& if j < reference.len() {
        &&& row.reference_zone_id == Some(plan.zones@[reference[j] as int].id)
        &&& row.moved_from_reference == Some(reference[j] != plan.assignment@[j])
    } else {
        &&& row.reference_zone_id is None
        &&& row.moved_from_reference is None
    }
}

/// One row per unit: its zone and, where the reference assignment covers
/// it, its reference zone and whether it moved.
pub fn unit_zone_rows(units: &Vec<PlanUnit>, plan: &ZonePlan, reference: &Vec<usize>) -> (rows: Vec<
    UnitZoneRow,
>)
    requires
        indices_name_zones(units@, *plan, reference@),
    ensures
        rows@.len() == units@.len(),
        forall|j: int|
            0 <= j < units@.len() ==> unit_zone_row_spec(units@, *plan, reference@, j, #[trigger] rows@[j]),
{
    let mut rows: Vec<UnitZoneRow> = Vec::new();
    let mut i: usize = 0;
    while i < units.len()
        invariant
            i <= units@.len(),
            indices_name_zones(units@, *plan, reference@),
            rows@.len() == i,
            forall|j: int|
                0 <= j < i ==> unit_zone_row_spec(units@, *plan, reference@, j, #[trigger] rows@[j]),
        decreases units@.len() - i,
    {
        let zone_index = plan.assignment[i];
        let zone = &plan.zones[zone_index];
        let (reference_zone_id, moved_from_reference) = if i < reference.len() {
            let r = reference[i];
            (Some(plan.zones[r].id.clone()), Some(r != zone_index))
        } else {
            (None, None)
        };
        rows.push(
            UnitZoneRow {
                zone_id: zone.id.clone(),
                zone_utc_offset_minutes: zone.utc_offset_minutes,
                reference_zone_id,
                moved_from_reference,
                population: units[i].population,
            },
        );
        i = i + 1;
    }
    rows
}

/// Rows of the zone `id`.
pub open spec fn row_in_zone(id: Seq<char>) -> spec_fn(UnitZoneRow) -> bool {
    |r: UnitZoneRow| r.zone_id@ == id
}

/// Rows of the zone `id` that moved from the reference.
pub open spec fn row_moved_in_zone(id: Seq<char>) -> spec_fn(UnitZoneRow) -> bool {
    |r: UnitZoneRow| r.zone_id@ == id && r.moved_from_reference == Some(true)
}

/// The population of a row, when it is in zone `id`.
pub open spec fn row_population_in_zone(id: Seq<char>) -> spec_fn(UnitZoneRow) -> nat {
    |r: UnitZoneRow|
        if r.zone_id@ == id {
            r.population as nat
        } else {
            0nat
        }
}

/// The population of a row, when it is in zone `id` and moved.
pub open spec fn row_moved_population_in_zone(id: Seq<char>) -> spec_fn(UnitZoneRow) -> nat {
    |r: UnitZoneRow|
        if r.zone_id@ == id && r.moved_from_reference == Some(true) {
            r.population as nat
        } else {
            0nat
        }
}

/// The population of a row.
pub open spec fn row_population() -> spec_fn(UnitZoneRow) -> nat {
    |r: UnitZoneRow| r.population as nat
}

/// The unit count of a tally.
pub open spec fn tally_unit_count() -> spec_fn(ZoneTally) -> nat {
    |t: ZoneTally| t.unit_count as nat
}

/// The population of a tally.
pub open spec fn tally_population() -> spec_fn(ZoneTally) -> nat {
    |t: ZoneTally| t.population as nat
}

/// The tally of zone `id` over the rows.
pub open spec fn zone_tally_spec(rows: Seq<UnitZoneRow>, t: ZoneTally) -> bool {
    let id = t.zone_id@;
    &&& t.unit_count == count_where(rows, row_in_zone(id))
    &&& t.population == sum_of(rows, row_population_in_zone(id))
    &&& t.moved_unit_count == count_where(rows, row_moved_in_zone(id))
    &&& t.moved_population == sum_of(rows, row_moved_population_in_zone(id))
}

/// The zone ids of a list of tallies, in order.
pub open spec fn tally_ids(tallies: Seq<ZoneTally>) -> Seq<Seq<char>> {
    tallies.map_values(|t: ZoneTally| t.zone_id@)
}

/// Whether some row among the first `n` is in zone `id`.
pub open spec fn zone_among_rows(rows: Seq<UnitZoneRow>, n: int, id: Seq<char>) -> bool {
    exists|j: int| 0 <= j < n && #[trigger] rows[j].zone_id@ == id
}

fn tally_zone(rows: &Vec<UnitZoneRow>, zone_id: String) -> (t: ZoneTally)
    requires
        sum_of(rows@, row_population()) <= u64::MAX,
    ensures
        t.zone_id == zone_id,
        zone_tally_spec(rows@, t),
{
    let ghost id = zone_id@;
    let ghost r = rows@;
    proof {
        lemma_sum_monotone(r, row_population_in_zone(id), row_population());
        lemma_sum_monotone(r, row_moved_population_in_zone(id), row_population());
    }
    let mut t = ZoneTally {
        zone_id,
        unit_count: 0,
        population: 0,
        moved_unit_count: 0,
        moved_population: 0,
    };
    let mut i: usize = 0;
    while i < rows.len()
        invariant
            r == rows@,
            id == t.zone_id@,
            t.zone_id == zone_id,
            i <= r.len(),
            sum_of(r, row_population_in_zone(id)) <= u64::MAX,
            sum_of(r, row_moved_population_in_zone(id)) <= u64::MAX,
            t.unit_count == count_where(r.take(i as int), row_in_zone(id)),
            t.population == sum_of(r.take(i as int), row_population_in_zone(id)),
            t.moved_unit_count == count_where(r.take(i as int), row_moved_in_zone(id)),
            t.moved_population == sum_of(r.take(i as int), row_moved_population_in_zone(id)),
        decreases r.len() - i,
    {
        proof {
            lemma_prefix_step(r, i as int);
            lemma_count_bound(r.take(i as int), row_in_zone(id));
            lemma_count_bound(r.take(i as int), row_moved_in_zone(id));
            lemma_sum_prefix(r, row_population_in_zone(id), i as int + 1);
            lemma_sum_prefix(r, row_moved_population_in_zone(id), i as int + 1);
        }
        let row = &rows[i];
        if same_text(row.zone_id.as_str(), t.zone_id.as_str()) {
            t.unit_count = t.unit_count + 1;
            t.population = t.population + row.population;
            let moved = match row.moved_from_reference {
                Some(m) => m,
                None => false,
            };
            if moved {
                t.moved_unit_count = t.moved_unit_count + 1;
                t.moved_population = t.moved_population + row.population;
            }
        }
        i = i + 1;
    }
    proof {
        lemma_take_all(r);
    }
    t
}

/// Tallies the rows by zone, one tally per zone that holds a row, in
/// increasing order of zone id.
pub fn zone_tallies(rows: &Vec<UnitZoneRow>) -> (tallies: Vec<ZoneTally>)
    requires
        sum_of(rows@, row_population()) <= u64::MAX,
    ensures
        strictly_increasing(tally_ids(tallies@)),
        forall|x: Seq<char>|
            #[trigger] tally_ids(tallies@).contains(x) <==> zone_among_rows(
                rows@,
                rows@.len() as int,
                x,
            ),
        forall|k: int| 0 <= k < tallies@.len() ==> zone_tally_spec(rows@, #[trigger] tallies@[k]),
{
    let mut ids: Vec<String> = Vec::new();
    let mut i: usize = 0;
    while i < rows.len()
        invariant
            i <= rows@.len(),
            strictly_increasing(views(ids@)),
            forall|x: Seq<char>| #[trigger] views(ids@).contains(x) <==> zone_among_rows(
                rows@,
                i as int,
                x,
            ),
        decreases rows@.len() - i,
    {
        insert_sorted(&mut ids, rows[i].zone_id.clone());
        proof {
            assert forall|x: Seq<char>| #[trigger] views(ids@).contains(x) <==> zone_among_rows(
                rows@,
                i + 1,
                x,
            ) by {
                if zone_among_rows(rows@, i + 1, x) {
                    let j = choose|j: int| 0 <= j < i + 1 && #[trigger] rows@[j].zone_id@ == x;
                    if j < i {
                        assert(zone_among_rows(rows@, i as int, x));
                    }
                }
                if zone_among_rows(rows@, i as int, x) {
                    let j = choose|j: int| 0 <= j < i && #[trigger] rows@[j].zone_id@ == x;
                    assert(0 <= j < i + 1 && rows@[j].zone_id@ == x);
                }
                if x == rows@[i as int].zone_id@ {
                    assert(rows@[i as int].zone_id@ == x);
                }
            }
        }
        i = i + 1;
    }
    let mut tallies: Vec<ZoneTally> = Vec::new();
    let mut k: usize = 0;
    while k < ids.len()
        invariant
            k <= ids@.len(),
            sum_of(rows@, row_population()) <= u64::MAX,
            tallies@.len() == k,
            forall|q: int| 0 <= q < k ==> (#[trigger] tallies@[q]).zone_id == ids@[q],
            forall|q: int| 0 <= q < k ==> zone_tally_spec(rows@, #[trigger] tallies@[q]),
        decreases ids@.len() - k,
    {
        let t = tally_zone(rows, ids[k].clone());
        tallies.push(t);
        k = k + 1;
    }
    assert(tally_ids(tallies@) =~= views(ids@));
    tallies
}

} // verus!
