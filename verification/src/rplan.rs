use vstd::prelude::*;

use crate::checks::{first_error, first_error_from, sum_of};
use crate::errors::ZonePlanError;
use crate::limitations::lemma_sum_prefix;
use crate::plans::PlanUnit;
use crate::text::same_text;

verus! {

/// How ready an RPLAN context is to feed zone evaluation.
#[derive(Debug, Clone, PartialEq, Eq)]
pub struct RplanContextIntakeReport {
    pub context_hash: String,
    pub computed_context_hash: String,
    pub context_hash_matches: bool,
    pub unit_kind: String,
    pub canonical_order: String,
    pub unit_count: usize,
    pub has_graph: bool,
    pub graph_edge_count: usize,
    pub has_populations: bool,
    pub population_count: usize,
    pub has_geometry_context: bool,
    pub source_hash_count: usize,
    pub rplan_context_ready: bool,
}

/// What the intake report reads of a validated RPLAN context: its recorded
/// and recomputed hashes, its unit kind and canonical order as display
/// text, its unit count, the length of each adjacency list of its graph
/// (when it has one), the number of its populations (when it has them),
/// whether it carries geometry, and how many source hashes it records.
#[derive(Debug, Clone, PartialEq, Eq)]
pub struct RplanContextFacts {
    pub context_hash: String,
    pub computed_context_hash: String,
    pub unit_kind: String,
    pub canonical_order: String,
    pub unit_count: usize,
    pub graph_edge_list_lengths: Option<Vec<usize>>,
    pub population_count: Option<usize>,
    pub has_geometry_context: bool,
    pub source_hash_count: usize,
}

/// An adjacency list length, as a count.
pub open spec fn list_length() -> spec_fn(usize) -> nat {
    |n: usize| n as nat
}

/// The intake report of a context: undirected edges are listed from both
/// ends, so the edge count is half the listed total; the context is ready
/// when its hash matches, it has a graph and one population per unit, and
/// it records at least one source hash.
pub open spec fn intake_summary(context: RplanContextFacts) -> RplanContextIntakeReport {
    let edges = match context.graph_edge_list_lengths {
        Some(lengths) => sum_of(lengths@, list_length()) / 2,
        None => 0,
    };
    let populations = match context.population_count {
        Some(n) => n as nat,
        None => 0,
    };
    let matches = context.context_hash@ == context.computed_context_hash@;
    RplanContextIntakeReport {
        context_hash: context.context_hash,
        computed_context_hash: context.computed_context_hash,
        context_hash_matches: matches,
        unit_kind: context.unit_kind,
        canonical_order: context.canonical_order,
        unit_count: context.unit_count,
        has_graph: context.graph_edge_list_lengths is Some,
        graph_edge_count: edges as usize,
        has_populations: context.population_count is Some,
        population_count: populations as usize,
        has_geometry_context: context.has_geometry_context,
        source_hash_count: context.source_hash_count,
        rplan_context_ready: matches && context.graph_edge_list_lengths is Some
            && context.population_count is Some && populations == context.unit_count
            && context.source_hash_count > 0,
    }
}

/// Reports how ready a validated RPLAN context is to feed zone evaluation.
pub fn rplan_context_intake_report(context: RplanContextFacts) -> (report: RplanContextIntakeReport)
    requires
        context.graph_edge_list_lengths matches Some(lengths) ==> sum_of(lengths@, list_length())
            <= usize::MAX,
    ensures
        report == intake_summary(context),
{
    let matches = same_text(context.context_hash.as_str(), context.computed_context_hash.as_str());
    let has_graph = context.graph_edge_list_lengths.is_some();
    let mut listed: usize = 0;
    if let Some(lengths) = &context.graph_edge_list_lengths {
        let mut i: usize = 0;
        while i < lengths.len()
            invariant
                i <= lengths@.len(),
                sum_of(lengths@, list_length()) <= usize::MAX,
                listed == sum_of(lengths@.take(i as int), list_length()),
            decreases lengths@.len() - i,
        {
            proof {
                crate::checks::lemma_prefix_step(lengths@, i as int);
                lemma_sum_prefix(lengths@, list_length(), i as int + 1);
            }
            listed = listed + lengths[i];
            i = i + 1;
        }
        proof {
            crate::checks::lemma_take_all(lengths@);
        }
    }
    let has_populations = context.population_count.is_some();
    let population_count: usize = match context.population_count {
        Some(n) => n,
        None => 0,
    };
    let ready = matches && has_graph && has_populations && population_count == context.unit_count
        && context.source_hash_count > 0;
    RplanContextIntakeReport {
        context_hash: context.context_hash,
        computed_context_hash: context.computed_context_hash,
        context_hash_matches: matches,
        unit_kind: context.unit_kind,
        canonical_order: context.canonical_order,
        unit_count: context.unit_count,
        has_graph,
        graph_edge_count: listed / 2,
        has_populations,
        population_count,
        has_geometry_context: context.has_geometry_context,
        source_hash_count: context.source_hash_count,
        rplan_context_ready: ready,
    }
}

/// What checking the population of unit `j` reports, if anything.
pub open spec fn rplan_population_outcome(populations: Seq<i64>, j: int) -> Option<ZonePlanError> {
    if populations[j] < 0 {
        Some(ZonePlanError::NegativeRplanPopulation { unit_index: j as usize })
    } else {
        None
    }
}

/// The outcome of turning an RPLAN context into plan units: it must have
/// a graph, populations, and one solar offset per unit, and no negative
/// population.
pub open spec fn rplan_units_check(
    unit_ids: Seq<String>,
    has_graph: bool,
    populations: Option<Vec<i64>>,
    solar_offset_count: nat,
) -> Result<(), ZonePlanError> {
    if !has_graph {
        Err(ZonePlanError::MissingRplanGraph)
    } else if populations is None {
        Err(ZonePlanError::MissingRplanPopulations)
    } else if solar_offset_count != unit_ids.len() {
        Err(
            ZonePlanError::SolarOffsetMismatch {
                solar_offset_count: solar_offset_count as usize,
                unit_count: unit_ids.len() as usize,
            },
        )
    } else {
        first_error(
            Seq::new(
                unit_ids.len(),
                |j: int| rplan_population_outcome(populations->0@, j),
            ),
        )
    }
}

/// Turns the units of an RPLAN context into plan units named by their ids,
/// after checking that the context has a graph, populations, one solar
/// offset per unit, and no negative population.
pub fn rplan_plan_units(
    unit_ids: &Vec<String>,
    has_graph: bool,
    populations: &Option<Vec<i64>>,
    solar_offset_count: usize,
) -> (r: Result<Vec<PlanUnit>, ZonePlanError>)
    requires
        populations matches Some(p) ==> p@.len() >= unit_ids@.len(),
    ensures
        rplan_units_check(unit_ids@, has_graph, *populations, solar_offset_count as nat) matches Err(
            e,
        ) ==> r == Err::<Vec<PlanUnit>, ZonePlanError>(e),
        rplan_units_check(unit_ids@, has_graph, *populations, solar_offset_count as nat) is Ok ==> (
        r matches Ok(units) && units@.len() == unit_ids@.len() && forall|j: int|
            0 <= j < unit_ids@.len() ==> {
                let u = #[trigger] units@[j];
                &&& u.id == unit_ids@[j]
                &&& u.name == unit_ids@[j]
                &&& u.population == populations->0@[j]
                &&& u.source_refs is None
            }),
{
    if !has_graph {
        return Err(ZonePlanError::MissingRplanGraph);
    }
    let pops = match populations {
        Some(p) => p,
        None => {
            return Err(ZonePlanError::MissingRplanPopulations);
        },
    };
    if solar_offset_count != unit_ids.len() {
        return Err(
            ZonePlanError::SolarOffsetMismatch { solar_offset_count, unit_count: unit_ids.len() },
        );
    }
    let ghost outcomes = Seq::new(unit_ids@.len(), |j: int| rplan_population_outcome(pops@, j));
    let mut units: Vec<PlanUnit> = Vec::new();
    let mut i: usize = 0;
    while i < unit_ids.len()
        invariant
            i <= unit_ids@.len(),
            pops@.len() >= unit_ids@.len(),
            outcomes == Seq::new(unit_ids@.len(), |j: int| rplan_population_outcome(pops@, j)),
            populations matches Some(p) && p@ == pops@,
            rplan_units_check(unit_ids@, has_graph, *populations, solar_offset_count as nat)
                == first_error(outcomes),
            first_error(outcomes) == first_error_from(outcomes, i as int),
            units@.len() == i,
            forall|j: int|
                0 <= j < i ==> {
                    let u = #[trigger] units@[j];
                    &&& u.id == unit_ids@[j]
                    &&& u.name == unit_ids@[j]
                    &&& u.population == pops@[j]
                    &&& u.source_refs is None
                },
        decreases unit_ids@.len() - i,
    {
        let population = pops[i];
        if population < 0 {
            let e = ZonePlanError::NegativeRplanPopulation { unit_index: i };
            assert(outcomes[i as int] == Some(e));
            return Err(e);
        }
        assert(outcomes[i as int] is None);
        units.push(
            PlanUnit {
                id: unit_ids[i].clone(),
                name: unit_ids[i].clone(),
                population: population as u64,
                source_refs: None,
            },
        );
        i = i + 1;
    }
    Ok(units)
}

} // verus!
