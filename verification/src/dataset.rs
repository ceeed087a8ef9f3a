use vstd::prelude::*;

use crate::checks::{
    count_where, first_error, first_error_from, lemma_count_bound, lemma_prefix_step,
    lemma_take_all, sum_of,
};
use crate::limitations::{lemma_sum_monotone, lemma_sum_prefix};
use crate::errors::{non_empty_check, validate_non_empty, TemporalModelError};
use crate::sources::SourceManifest;
use crate::temporal::{
    EvaluationContext, Jurisdiction, OffsetRule, RegimeAuthority, RepresentativePointMethod,
    TemporalDatasetReport, TemporalEdgeKind, TemporalExtent, TimeZoneRegime, UnitLevel,
};
use crate::zones::minutes_past_hour;
use crate::text::{list_contains, views};

verus! {

/// What validation reads of a unit's representative point: the first
/// coordinate range error (latitude, then longitude), found where the
/// coordinates themselves are held, its placement method, and its source.
#[derive(Debug, Clone, PartialEq, Eq)]
pub struct RepresentativePoint {
    pub coordinate_error: Option<TemporalModelError>,
    pub method: RepresentativePointMethod,
    pub source_id: String,
}

/// A boundary unit of a temporal dataset.
#[derive(Debug, Clone, PartialEq, Eq)]
pub struct TemporalBoundaryUnit {
    pub unit_id: String,
    pub jurisdiction_id: String,
    pub unit_level: UnitLevel,
    pub name: String,
    pub geometry_ref: Option<String>,
    pub representative_point: RepresentativePoint,
    pub temporal_extent: TemporalExtent,
}

/// An adjacency from one unit to unit `to`. `weight_error` holds the text
/// of the edge's weight when one is given that is not a finite,
/// non-negative number.
#[derive(Debug, Clone, PartialEq, Eq)]
pub struct TemporalUnitEdge {
    pub to: usize,
    pub kind: TemporalEdgeKind,
    pub weight_error: Option<String>,
}

/// A dated adjacency graph over the units of a dataset.
#[derive(Debug, Clone, PartialEq, Eq)]
pub struct BoundaryGraphVersion {
    pub graph_id: String,
    pub unit_universe_id: String,
    pub source_id: String,
    pub temporal_extent: TemporalExtent,
    pub adjacency: Vec<Vec<TemporalUnitEdge>>,
}

impl RepresentativePoint {
    /// The outcome of validating a point.
    pub open spec fn check(self) -> Result<(), TemporalModelError> {
        match self.coordinate_error {
            Some(e) => Err(e),
            None => non_empty_check("representative_point.source_id", self.source_id@),
        }
    }

    /// Requires coordinates in range and a non-empty source.
    pub fn validate(&self) -> (r: Result<(), TemporalModelError>)
        ensures
            r == self.check(),
    {
        if let Some(e) = &self.coordinate_error {
            return Err(e.duplicate());
        }
        validate_non_empty("representative_point.source_id", &self.source_id)
    }
}

impl TemporalBoundaryUnit {
    /// The outcome of validating a unit.
    pub open spec fn check(self) -> Result<(), TemporalModelError> {
        if self.unit_id@.len() == 0 {
            Err(TemporalModelError::EmptyId { kind: "boundary_unit.unit_id" })
        } else if self.jurisdiction_id@.len() == 0 {
            Err(TemporalModelError::EmptyId { kind: "boundary_unit.jurisdiction_id" })
        } else if self.name@.len() == 0 {
            Err(TemporalModelError::EmptyId { kind: "boundary_unit.name" })
        } else if self.representative_point.check() is Err {
            self.representative_point.check()
        } else {
            self.temporal_extent.check()
        }
    }

    /// Requires non-empty ids and name, a valid point, and a valid extent.
    pub fn validate(&self) -> (r: Result<(), TemporalModelError>)
        ensures
            r == self.check(),
    {
        validate_non_empty("boundary_unit.unit_id", &self.unit_id)?;
        validate_non_empty("boundary_unit.jurisdiction_id", &self.jurisdiction_id)?;
        validate_non_empty("boundary_unit.name", &self.name)?;
        self.representative_point.validate()?;
        self.temporal_extent.validate()
    }
}

/// What checking one edge reports, if anything: a target outside the
/// units, then an invalid weight.
pub open spec fn edge_outcome(from: int, edge: TemporalUnitEdge, unit_count: nat) -> Option<
    TemporalModelError,
> {
    if edge.to >= unit_count {
        Some(
            TemporalModelError::EdgeOutOfBounds {
                from: from as usize,
                to: edge.to,
                unit_count: unit_count as usize,
            },
        )
    } else {
        match edge.weight_error {
            Some(w) => Some(
                TemporalModelError::InvalidEdgeWeight { from: from as usize, to: edge.to, weight: w },
            ),
            None => None,
        }
    }
}

/// The outcome of checking the edges out of unit `from`.
pub open spec fn edge_row_outcome(
    adjacency: Seq<Vec<TemporalUnitEdge>>,
    from: int,
    unit_count: nat,
) -> Option<TemporalModelError> {
    match first_error(
        Seq::new(
            adjacency[from]@.len(),
            |k: int| edge_outcome(from, adjacency[from]@[k], unit_count),
        ),
    ) {
        Err(e) => Some(e),
        Ok(_) => None,
    }
}

impl BoundaryGraphVersion {
    /// The outcomes of checking the edges out of each unit in turn.
    pub open spec fn row_outcomes(self, unit_count: nat) -> Seq<Option<TemporalModelError>> {
        Seq::new(
            self.adjacency@.len(),
            |from: int| edge_row_outcome(self.adjacency@, from, unit_count),
        )
    }

    /// The outcome of validating a graph over `unit_count` units.
    pub open spec fn check(self, unit_count: nat) -> Result<(), TemporalModelError> {
        if self.graph_id@.len() == 0 {
            Err(TemporalModelError::EmptyId { kind: "boundary_graph.graph_id" })
        } else if self.unit_universe_id@.len() == 0 {
            Err(TemporalModelError::EmptyId { kind: "boundary_graph.unit_universe_id" })
        } else if self.source_id@.len() == 0 {
            Err(TemporalModelError::EmptyId { kind: "boundary_graph.source_id" })
        } else if self.temporal_extent.check() is Err {
            self.temporal_extent.check()
        } else if self.adjacency@.len() != unit_count {
            Err(
                TemporalModelError::GraphUnitMismatch {
                    adjacency_len: self.adjacency@.len() as usize,
                    unit_count: unit_count as usize,
                },
            )
        } else {
            first_error(self.row_outcomes(unit_count))
        }
    }

    fn check_row(&self, from: usize, unit_count: usize) -> (r: Result<(), TemporalModelError>)
        requires
            from < self.adjacency@.len(),
        ensures
            r is Err <==> edge_row_outcome(self.adjacency@, from as int, unit_count as nat) is Some,
            r matches Err(e) ==> edge_row_outcome(self.adjacency@, from as int, unit_count as nat)
                == Some(e),
    {
        let edges: &Vec<TemporalUnitEdge> = &self.adjacency[from];
        let ghost row = Seq::new(
            self.adjacency@[from as int]@.len(),
            |k: int| edge_outcome(from as int, self.adjacency@[from as int]@[k], unit_count as nat),
        );
        assert(edges@ == self.adjacency@[from as int]@);
        let mut k: usize = 0;
        while k < edges.len()
            invariant
                k <= edges@.len(),
                from < self.adjacency@.len(),
                edges@ == self.adjacency@[from as int]@,
                row == Seq::new(
                    self.adjacency@[from as int]@.len(),
                    |m: int|
                        edge_outcome(from as int, self.adjacency@[from as int]@[m], unit_count as nat),
                ),
                first_error(row) == first_error_from(row, k as int),
            decreases edges@.len() - k,
        {
            let edge = &edges[k];
            if edge.to >= unit_count {
                let e = TemporalModelError::EdgeOutOfBounds { from, to: edge.to, unit_count };
                assert(row[k as int] == Some(e));
                return Err(e);
            }
            if let Some(w) = &edge.weight_error {
                let e = TemporalModelError::InvalidEdgeWeight { from, to: edge.to, weight: w.clone() };
                assert(row[k as int] == Some(e));
                return Err(e);
            }
            assert(row[k as int] is None);
            k = k + 1;
        }
        Ok(())
    }

    /// Requires non-empty ids and source, a valid extent, one adjacency
    /// list per unit, edges to known units, and valid edge weights.
    pub fn validate(&self, unit_count: usize) -> (r: Result<(), TemporalModelError>)
        ensures
            r == self.check(unit_count as nat),
    {
        validate_non_empty("boundary_graph.graph_id", &self.graph_id)?;
        validate_non_empty("boundary_graph.unit_universe_id", &self.unit_universe_id)?;
        validate_non_empty("boundary_graph.source_id", &self.source_id)?;
        self.temporal_extent.validate()?;
        if self.adjacency.len() != unit_count {
            return Err(
                TemporalModelError::GraphUnitMismatch {
                    adjacency_len: self.adjacency.len(),
                    unit_count,
                },
            );
        }
        let ghost rows = self.row_outcomes(unit_count as nat);
        let mut from: usize = 0;
        while from < self.adjacency.len()
            invariant
                from <= self.adjacency@.len(),
                rows == self.row_outcomes(unit_count as nat),
                self.check(unit_count as nat) == first_error(rows),
                first_error(rows) == first_error_from(rows, from as int),
            decreases self.adjacency@.len() - from,
        {
            if let Err(e) = self.check_row(from, unit_count) {
                assert(rows[from as int] == Some(e));
                return Err(e);
            }
            assert(rows[from as int] is None);
            from = from + 1;
        }
        Ok(())
    }
}

/// What checking the `j`-th id of a list of dataset ids reports, if
/// anything: an empty id, then an id that occurred before.
pub open spec fn unique_id_outcome(kind: &'static str, ids: Seq<String>, j: int) -> Option<
    TemporalModelError,
> {
    if ids[j]@.len() == 0 {
        Some(TemporalModelError::EmptyId { kind })
    } else if views(ids.take(j)).contains(ids[j]@) {
        Some(TemporalModelError::DuplicateDatasetId { kind, id: ids[j] })
    } else {
        None
    }
}

/// The outcome of requiring a list of dataset ids to be non-empty and distinct.
pub open spec fn unique_ids_check(kind: &'static str, ids: Seq<String>) -> Result<
    (),
    TemporalModelError,
> {
    first_error(Seq::new(ids.len(), |j: int| unique_id_outcome(kind, ids, j)))
}

/// Requires each id to be non-empty and to differ from every id before it.
pub fn validate_unique_ids(kind: &'static str, ids: &Vec<String>) -> (r: Result<
    (),
    TemporalModelError,
>)
    ensures
        r == unique_ids_check(kind, ids@),
{
    let ghost outcomes = Seq::new(ids@.len(), |j: int| unique_id_outcome(kind, ids@, j));
    let mut seen: Vec<String> = Vec::new();
    let mut i: usize = 0;
    while i < ids.len()
        invariant
            i <= ids@.len(),
            seen@ == ids@.take(i as int),
            outcomes == Seq::new(ids@.len(), |j: int| unique_id_outcome(kind, ids@, j)),
            first_error(outcomes) == first_error_from(outcomes, i as int),
        decreases ids@.len() - i,
    {
        let id = &ids[i];
        if let Err(e) = validate_non_empty(kind, id.as_str()) {
            assert(outcomes[i as int] == Some(e));
            return Err(e);
        }
        if list_contains(&seen, id.as_str()) {
            let e = TemporalModelError::DuplicateDatasetId { kind, id: id.clone() };
            assert(outcomes[i as int] == Some(e));
            return Err(e);
        }
        assert(outcomes[i as int] is None);
        seen.push(id.clone());
        assert(seen@ =~= ids@.take(i + 1));
        i = i + 1;
    }
    Ok(())
}


/// A set of jurisdictions, units, graphs, regimes, and evaluation contexts
/// drawn from one source manifest.
#[derive(Debug, Clone, PartialEq, Eq)]
pub struct TemporalDataset {
    pub dataset_id: String,
    pub source_manifest: SourceManifest,
    pub jurisdictions: Vec<Jurisdiction>,
    pub units: Vec<TemporalBoundaryUnit>,
    pub boundary_graphs: Vec<BoundaryGraphVersion>,
    pub regimes: Vec<TimeZoneRegime>,
    pub evaluation_contexts: Vec<EvaluationContext>,
    pub caveats: Vec<String>,
}

/// The outcome of a check, as an optional error.
pub open spec fn outcome_of(r: Result<(), TemporalModelError>) -> Option<TemporalModelError> {
    match r {
        Err(e) => Some(e),
        Ok(_) => None,
    }
}

/// What checking a jurisdiction reports, if anything: its own fields, then
/// a parent that is not among the `known` jurisdiction ids.
pub open spec fn jurisdiction_outcome(known: Seq<Seq<char>>, j: Jurisdiction) -> Option<
    TemporalModelError,
> {
    match j.check() {
        Err(e) => Some(e),
        Ok(_) => match j.parent_jurisdiction_id {
            Some(p) => if known.contains(p@) {
                None
            } else {
                Some(
                    TemporalModelError::UnknownJurisdiction {
                        owner_kind: "jurisdiction.parent_jurisdiction_id",
                        jurisdiction_id: p,
                    },
                )
            },
            None => None,
        },
    }
}

/// What checking a unit reports, if anything: its own fields, then a
/// jurisdiction that is not among the `known` jurisdiction ids.
pub open spec fn unit_outcome(known: Seq<Seq<char>>, u: TemporalBoundaryUnit) -> Option<
    TemporalModelError,
> {
    match u.check() {
        Err(e) => Some(e),
        Ok(_) => if known.contains(u.jurisdiction_id@) {
            None
        } else {
            Some(
                TemporalModelError::UnknownJurisdiction {
                    owner_kind: "boundary_unit.jurisdiction_id",
                    jurisdiction_id: u.jurisdiction_id,
                },
            )
        },
    }
}

/// What checking that `manifest` cites the source `id`, referenced by an
/// `owner` kind of record, reports, if anything.
pub open spec fn source_ref_outcome(manifest: SourceManifest, owner: &'static str, id: String) -> Option<
    TemporalModelError,
> {
    if manifest.id_set().contains(id@) {
        None
    } else {
        Some(TemporalModelError::UnknownSourceReference { owner_kind: owner, source_id: id })
    }
}

/// The outcomes of checking a list of source ids referenced by one kind of record.
pub open spec fn source_ref_outcomes(manifest: SourceManifest, owner: &'static str, ids: Seq<String>) -> Seq<
    Option<TemporalModelError>,
> {
    Seq::new(ids.len(), |k: int| source_ref_outcome(manifest, owner, ids[k]))
}

/// What checking the graph and regime of an evaluation context reports, if anything.
pub open spec fn context_reference_outcome(
    graph_ids: Seq<Seq<char>>,
    regime_ids: Seq<Seq<char>>,
    c: EvaluationContext,
) -> Option<TemporalModelError> {
    if !graph_ids.contains(c.boundary_graph_id@) {
        Some(
            TemporalModelError::UnknownEvaluationBoundaryGraph {
                boundary_graph_id: c.boundary_graph_id,
            },
        )
    } else if !regime_ids.contains(c.regime_id@) {
        Some(TemporalModelError::UnknownEvaluationRegime { regime_id: c.regime_id })
    } else {
        None
    }
}

impl TemporalDataset {
    /// The ids of the jurisdictions, in order.
    pub open spec fn jurisdiction_ids(self) -> Seq<String> {
        self.jurisdictions@.map_values(|x: Jurisdiction| x.jurisdiction_id)
    }

    /// The ids of the units, in order.
    pub open spec fn unit_ids(self) -> Seq<String> {
        self.units@.map_values(|x: TemporalBoundaryUnit| x.unit_id)
    }

    /// The ids of the boundary graphs, in order.
    pub open spec fn graph_ids(self) -> Seq<String> {
        self.boundary_graphs@.map_values(|x: BoundaryGraphVersion| x.graph_id)
    }

    /// The ids of the regimes, in order.
    pub open spec fn regime_ids(self) -> Seq<String> {
        self.regimes@.map_values(|x: TimeZoneRegime| x.regime_id)
    }

    /// The check outcome of each jurisdiction, in order.
    pub open spec fn jurisdiction_outcomes(self) -> Seq<Option<TemporalModelError>> {
        Seq::new(
            self.jurisdictions@.len(),
            |k: int| jurisdiction_outcome(views(self.jurisdiction_ids()), self.jurisdictions@[k]),
        )
    }

    /// The check outcome of each unit, in order.
    pub open spec fn unit_outcomes(self) -> Seq<Option<TemporalModelError>> {
        Seq::new(
            self.units@.len(),
            |k: int| unit_outcome(views(self.jurisdiction_ids()), self.units@[k]),
        )
    }

    /// The check outcome of each boundary graph against the unit count, in order.
    pub open spec fn graph_outcomes(self) -> Seq<Option<TemporalModelError>> {
        Seq::new(
            self.boundary_graphs@.len(),
            |k: int| outcome_of(self.boundary_graphs@[k].check(self.units@.len())),
        )
    }

    /// The check outcome of each regime against the unit ids, in order.
    pub open spec fn regime_outcomes(self) -> Seq<Option<TemporalModelError>> {
        Seq::new(
            self.regimes@.len(),
            |k: int| outcome_of(self.regimes@[k].check(views(self.unit_ids()))),
        )
    }

    /// The check outcome of each evaluation context, in order.
    pub open spec fn context_outcomes(self) -> Seq<Option<TemporalModelError>> {
        Seq::new(
            self.evaluation_contexts@.len(),
            |k: int| outcome_of(self.evaluation_contexts@[k].check()),
        )
    }

    /// Whether each evaluation context names a known graph and regime, in order.
    pub open spec fn context_reference_outcomes(self) -> Seq<Option<TemporalModelError>> {
        Seq::new(
            self.evaluation_contexts@.len(),
            |k: int|
                context_reference_outcome(
                    views(self.graph_ids()),
                    views(self.regime_ids()),
                    self.evaluation_contexts@[k],
                ),
        )
    }

    /// The outcome of checking, in order, the sources cited by
    /// jurisdictions, representative points, graphs, regimes, and the
    /// weighting sources of evaluation contexts.
    pub open spec fn source_refs_check(self) -> Result<(), TemporalModelError> {
        let m = self.source_manifest;
        let j = first_error(
            source_ref_outcomes(
                m,
                "jurisdiction",
                self.jurisdictions@.map_values(|x: Jurisdiction| x.source_id),
            ),
        );
        let p = first_error(
            source_ref_outcomes(
                m,
                "representative_point",
                self.units@.map_values(|x: TemporalBoundaryUnit| x.representative_point.source_id),
            ),
        );
        let g = first_error(
            source_ref_outcomes(
                m,
                "boundary_graph",
                self.boundary_graphs@.map_values(|x: BoundaryGraphVersion| x.source_id),
            ),
        );
        let r = first_error(
            source_ref_outcomes(
                m,
                "regime",
                self.regimes@.map_values(|x: TimeZoneRegime| x.source_id),
            ),
        );
        let c = first_error(
            source_ref_outcomes(
                m,
                "evaluation_context",
                self.evaluation_contexts@.map_values(|x: EvaluationContext| x.weighting_source_id),
            ),
        );
        if j is Err {
            j
        } else if p is Err {
            p
        } else if g is Err {
            g
        } else if r is Err {
            r
        } else {
            c
        }
    }

    /// The outcome of validating a dataset: its id and manifest; distinct,
    /// non-empty jurisdiction, unit, graph, and regime ids; each
    /// jurisdiction, unit, graph, regime, and context in turn; the sources
    /// they cite; and the graph and regime each context names.
    pub open spec fn check(self) -> Result<(), TemporalModelError> {
        if self.dataset_id@.len() == 0 {
            Err(TemporalModelError::EmptyId { kind: "temporal_dataset.dataset_id" })
        } else if self.source_manifest.check() is Err {
            self.source_manifest.check()
        } else if unique_ids_check("jurisdiction", self.jurisdiction_ids()) is Err {
            unique_ids_check("jurisdiction", self.jurisdiction_ids())
        } else if unique_ids_check("unit", self.unit_ids()) is Err {
            unique_ids_check("unit", self.unit_ids())
        } else if unique_ids_check("boundary_graph", self.graph_ids()) is Err {
            unique_ids_check("boundary_graph", self.graph_ids())
        } else if unique_ids_check("regime", self.regime_ids()) is Err {
            unique_ids_check("regime", self.regime_ids())
        } else if first_error(self.jurisdiction_outcomes()) is Err {
            first_error(self.jurisdiction_outcomes())
        } else if first_error(self.unit_outcomes()) is Err {
            first_error(self.unit_outcomes())
        } else if first_error(self.graph_outcomes()) is Err {
            first_error(self.graph_outcomes())
        } else if first_error(self.regime_outcomes()) is Err {
            first_error(self.regime_outcomes())
        } else if first_error(self.context_outcomes()) is Err {
            first_error(self.context_outcomes())
        } else if self.source_refs_check() is Err {
            self.source_refs_check()
        } else {
            first_error(self.context_reference_outcomes())
        }
    }

    fn check_jurisdictions(&self, known: &Vec<String>) -> (r: Result<(), TemporalModelError>)
        requires
            known@ == self.jurisdiction_ids(),
        ensures
            r == first_error(self.jurisdiction_outcomes()),
    {
        let ghost outcomes = self.jurisdiction_outcomes();
        let mut i: usize = 0;
        while i < self.jurisdictions.len()
            invariant
                i <= self.jurisdictions@.len(),
                known@ == self.jurisdiction_ids(),
                outcomes == self.jurisdiction_outcomes(),
                first_error(outcomes) == first_error_from(outcomes, i as int),
            decreases self.jurisdictions@.len() - i,
        {
            let j = &self.jurisdictions[i];
            if let Err(e) = j.validate() {
                assert(outcomes[i as int] == Some(e));
                return Err(e);
            }
            if let Some(parent) = &j.parent_jurisdiction_id {
                if !list_contains(known, parent.as_str()) {
                    let e = TemporalModelError::UnknownJurisdiction {
                        owner_kind: "jurisdiction.parent_jurisdiction_id",
                        jurisdiction_id: parent.clone(),
                    };
                    assert(outcomes[i as int] == Some(e));
                    return Err(e);
                }
            }
            assert(outcomes[i as int] is None);
            i = i + 1;
        }
        Ok(())
    }

    fn check_units(&self, known: &Vec<String>) -> (r: Result<(), TemporalModelError>)
        requires
            known@ == self.jurisdiction_ids(),
        ensures
            r == first_error(self.unit_outcomes()),
    {
        let ghost outcomes = self.unit_outcomes();
        let mut i: usize = 0;
        while i < self.units.len()
            invariant
                i <= self.units@.len(),
                known@ == self.jurisdiction_ids(),
                outcomes == self.unit_outcomes(),
                first_error(outcomes) == first_error_from(outcomes, i as int),
            decreases self.units@.len() - i,
        {
            let u = &self.units[i];
            if let Err(e) = u.validate() {
                assert(outcomes[i as int] == Some(e));
                return Err(e);
            }
            if !list_contains(known, u.jurisdiction_id.as_str()) {
                let e = TemporalModelError::UnknownJurisdiction {
                    owner_kind: "boundary_unit.jurisdiction_id",
                    jurisdiction_id: u.jurisdiction_id.clone(),
                };
                assert(outcomes[i as int] == Some(e));
                return Err(e);
            }
            assert(outcomes[i as int] is None);
            i = i + 1;
        }
        Ok(())
    }

    fn check_graphs(&self) -> (r: Result<(), TemporalModelError>)
        ensures
            r == first_error(self.graph_outcomes()),
    {
        let ghost outcomes = self.graph_outcomes();
        let mut i: usize = 0;
        while i < self.boundary_graphs.len()
            invariant
                i <= self.boundary_graphs@.len(),
                outcomes == self.graph_outcomes(),
                first_error(outcomes) == first_error_from(outcomes, i as int),
            decreases self.boundary_graphs@.len() - i,
        {
            if let Err(e) = self.boundary_graphs[i].validate(self.units.len()) {
                assert(outcomes[i as int] == Some(e));
                return Err(e);
            }
            assert(outcomes[i as int] is None);
            i = i + 1;
        }
        Ok(())
    }

    fn check_regimes(&self, unit_ids: &Vec<String>) -> (r: Result<(), TemporalModelError>)
        requires
            unit_ids@ == self.unit_ids(),
        ensures
            r == first_error(self.regime_outcomes()),
    {
        let ghost outcomes = self.regime_outcomes();
        let mut i: usize = 0;
        while i < self.regimes.len()
            invariant
                i <= self.regimes@.len(),
                unit_ids@ == self.unit_ids(),
                outcomes == self.regime_outcomes(),
                first_error(outcomes) == first_error_from(outcomes, i as int),
            decreases self.regimes@.len() - i,
        {
            if let Err(e) = self.regimes[i].validate_against(unit_ids) {
                assert(outcomes[i as int] == Some(e));
                return Err(e);
            }
            assert(outcomes[i as int] is None);
            i = i + 1;
        }
        Ok(())
    }

    fn check_contexts(&self) -> (r: Result<(), TemporalModelError>)
        ensures
            r == first_error(self.context_outcomes()),
    {
        let ghost outcomes = self.context_outcomes();
        let mut i: usize = 0;
        while i < self.evaluation_contexts.len()
            invariant
                i <= self.evaluation_contexts@.len(),
                outcomes == self.context_outcomes(),
                first_error(outcomes) == first_error_from(outcomes, i as int),
            decreases self.evaluation_contexts@.len() - i,
        {
            if let Err(e) = self.evaluation_contexts[i].validate() {
                assert(outcomes[i as int] == Some(e));
                return Err(e);
            }
            assert(outcomes[i as int] is None);
            i = i + 1;
        }
        Ok(())
    }

    fn check_source_refs(&self) -> (r: Result<(), TemporalModelError>)
        ensures
            r == self.source_refs_check(),
    {
        let m = &self.source_manifest;
        let ids = jurisdiction_sources_of(&self.jurisdictions);
        check_cited(m, "jurisdiction", &ids)?;
        let ids = point_sources_of(&self.units);
        check_cited(m, "representative_point", &ids)?;
        let ids = graph_sources_of(&self.boundary_graphs);
        check_cited(m, "boundary_graph", &ids)?;
        let ids = regime_sources_of(&self.regimes);
        check_cited(m, "regime", &ids)?;
        let ids = weighting_sources_of(&self.evaluation_contexts);
        check_cited(m, "evaluation_context", &ids)
    }

    fn check_context_references(&self, graph_ids: &Vec<String>, regime_ids: &Vec<String>) -> (r:
        Result<(), TemporalModelError>)
        requires
            graph_ids@ == self.graph_ids(),
            regime_ids@ == self.regime_ids(),
        ensures
            r == first_error(self.context_reference_outcomes()),
    {
        let ghost outcomes = self.context_reference_outcomes();
        let mut i: usize = 0;
        while i < self.evaluation_contexts.len()
            invariant
                i <= self.evaluation_contexts@.len(),
                graph_ids@ == self.graph_ids(),
                regime_ids@ == self.regime_ids(),
                outcomes == self.context_reference_outcomes(),
                first_error(outcomes) == first_error_from(outcomes, i as int),
            decreases self.evaluation_contexts@.len() - i,
        {
            let c = &self.evaluation_contexts[i];
            if !list_contains(graph_ids, c.boundary_graph_id.as_str()) {
                let e = TemporalModelError::UnknownEvaluationBoundaryGraph {
                    boundary_graph_id: c.boundary_graph_id.clone(),
                };
                assert(outcomes[i as int] == Some(e));
                return Err(e);
            }
            if !list_contains(regime_ids, c.regime_id.as_str()) {
                let e = TemporalModelError::UnknownEvaluationRegime { regime_id: c.regime_id.clone() };
                assert(outcomes[i as int] == Some(e));
                return Err(e);
            }
            assert(outcomes[i as int] is None);
            i = i + 1;
        }
        Ok(())
    }

    /// Validates the dataset: its id and manifest, distinct ids, each
    /// record, the sources the records cite, and the graph and regime each
    /// evaluation context names.
    pub fn validate(&self) -> (r: Result<(), TemporalModelError>)
        ensures
            r == self.check(),
    {
        validate_non_empty("temporal_dataset.dataset_id", &self.dataset_id)?;
        self.source_manifest.validate()?;
        let jurisdiction_ids = jurisdiction_ids_of(&self.jurisdictions);
        let unit_ids = unit_ids_of(&self.units);
        let graph_ids = graph_ids_of(&self.boundary_graphs);
        let regime_ids = regime_ids_of(&self.regimes);
        validate_unique_ids("jurisdiction", &jurisdiction_ids)?;
        validate_unique_ids("unit", &unit_ids)?;
        validate_unique_ids("boundary_graph", &graph_ids)?;
        validate_unique_ids("regime", &regime_ids)?;
        self.check_jurisdictions(&jurisdiction_ids)?;
        self.check_units(&jurisdiction_ids)?;
        self.check_graphs()?;
        self.check_regimes(&unit_ids)?;
        self.check_contexts()?;
        self.check_source_refs()?;
        self.check_context_references(&graph_ids, &regime_ids)
    }
}

/// Requires `manifest` to cite each of `ids`, referenced by `owner` records.
fn check_cited(manifest: &SourceManifest, owner: &'static str, ids: &Vec<String>) -> (r: Result<
    (),
    TemporalModelError,
>)
    ensures
        r == first_error(source_ref_outcomes(*manifest, owner, ids@)),
{
    let ghost outcomes = source_ref_outcomes(*manifest, owner, ids@);
    let mut i: usize = 0;
    while i < ids.len()
        invariant
            i <= ids@.len(),
            outcomes == source_ref_outcomes(*manifest, owner, ids@),
            first_error(outcomes) == first_error_from(outcomes, i as int),
        decreases ids@.len() - i,
    {
        if !manifest.has_source(ids[i].as_str()) {
            let e = TemporalModelError::UnknownSourceReference {
                owner_kind: owner,
                source_id: ids[i].clone(),
            };
            assert(outcomes[i as int] == Some(e));
            return Err(e);
        }
        assert(outcomes[i as int] is None);
        i = i + 1;
    }
    Ok(())
}

fn jurisdiction_ids_of(list: &Vec<Jurisdiction>) -> (ids: Vec<String>)
    ensures
        ids@ == list@.map_values(|x: Jurisdiction| x.jurisdiction_id),
{
    let mut ids: Vec<String> = Vec::new();
    let mut i: usize = 0;
    while i < list.len()
        invariant
            i <= list@.len(),
            ids@.len() == i,
            forall|k: int| 0 <= k < i ==> #[trigger] ids@[k] == list@[k].jurisdiction_id,
        decreases list@.len() - i,
    {
        ids.push(list[i].jurisdiction_id.clone());
        i = i + 1;
    }
    assert(ids@ =~= list@.map_values(|x: Jurisdiction| x.jurisdiction_id));
    ids
}

pub(crate) fn unit_ids_of(list: &Vec<TemporalBoundaryUnit>) -> (ids: Vec<String>)
    ensures
        ids@ == list@.map_values(|x: TemporalBoundaryUnit| x.unit_id),
{
    let mut ids: Vec<String> = Vec::new();
    let mut i: usize = 0;
    while i < list.len()
        invariant
            i <= list@.len(),
            ids@.len() == i,
            forall|k: int| 0 <= k < i ==> #[trigger] ids@[k] == list@[k].unit_id,
        decreases list@.len() - i,
    {
        ids.push(list[i].unit_id.clone());
        i = i + 1;
    }
    assert(ids@ =~= list@.map_values(|x: TemporalBoundaryUnit| x.unit_id));
    ids
}

fn graph_ids_of(list: &Vec<BoundaryGraphVersion>) -> (ids: Vec<String>)
    ensures
        ids@ == list@.map_values(|x: BoundaryGraphVersion| x.graph_id),
{
    let mut ids: Vec<String> = Vec::new();
    let mut i: usize = 0;
    while i < list.len()
        invariant
            i <= list@.len(),
            ids@.len() == i,
            forall|k: int| 0 <= k < i ==> #[trigger] ids@[k] == list@[k].graph_id,
        decreases list@.len() - i,
    {
        ids.push(list[i].graph_id.clone());
        i = i + 1;
    }
    assert(ids@ =~= list@.map_values(|x: BoundaryGraphVersion| x.graph_id));
    ids
}

fn regime_ids_of(list: &Vec<TimeZoneRegime>) -> (ids: Vec<String>)
    ensures
        ids@ == list@.map_values(|x: TimeZoneRegime| x.regime_id),
{
    let mut ids: Vec<String> = Vec::new();
    let mut i: usize = 0;
    while i < list.len()
        invariant
            i <= list@.len(),
            ids@.len() == i,
            forall|k: int| 0 <= k < i ==> #[trigger] ids@[k] == list@[k].regime_id,
        decreases list@.len() - i,
    {
        ids.push(list[i].regime_id.clone());
        i = i + 1;
    }
    assert(ids@ =~= list@.map_values(|x: TimeZoneRegime| x.regime_id));
    ids
}

fn jurisdiction_sources_of(list: &Vec<Jurisdiction>) -> (ids: Vec<String>)
    ensures
        ids@ == list@.map_values(|x: Jurisdiction| x.source_id),
{
    let mut ids: Vec<String> = Vec::new();
    let mut i: usize = 0;
    while i < list.len()
        invariant
            i <= list@.len(),
            ids@.len() == i,
            forall|k: int| 0 <= k < i ==> #[trigger] ids@[k] == list@[k].source_id,
        decreases list@.len() - i,
    {
        ids.push(list[i].source_id.clone());
        i = i + 1;
    }
    assert(ids@ =~= list@.map_values(|x: Jurisdiction| x.source_id));
    ids
}

fn point_sources_of(list: &Vec<TemporalBoundaryUnit>) -> (ids: Vec<String>)
    ensures
        ids@ == list@.map_values(|x: TemporalBoundaryUnit| x.representative_point.source_id),
{
    let mut ids: Vec<String> = Vec::new();
    let mut i: usize = 0;
    while i < list.len()
        invariant
            i <= list@.len(),
            ids@.len() == i,
            forall|k: int| 0 <= k < i ==> #[trigger] ids@[k] == list@[k].representative_point.source_id,
        decreases list@.len() - i,
    {
        ids.push(list[i].representative_point.source_id.clone());
        i = i + 1;
    }
    assert(ids@ =~= list@.map_values(|x: TemporalBoundaryUnit| x.representative_point.source_id));
    ids
}

fn graph_sources_of(list: &Vec<BoundaryGraphVersion>) -> (ids: Vec<String>)
    ensures
        ids@ == list@.map_values(|x: BoundaryGraphVersion| x.source_id),
{
    let mut ids: Vec<String> = Vec::new();
    let mut i: usize = 0;
    while i < list.len()
        invariant
            i <= list@.len(),
            ids@.len() == i,
            forall|k: int| 0 <= k < i ==> #[trigger] ids@[k] == list@[k].source_id,
        decreases list@.len() - i,
    {
        ids.push(list[i].source_id.clone());
        i = i + 1;
    }
    assert(ids@ =~= list@.map_values(|x: BoundaryGraphVersion| x.source_id));
    ids
}

fn regime_sources_of(list: &Vec<TimeZoneRegime>) -> (ids: Vec<String>)
    ensures
        ids@ == list@.map_values(|x: TimeZoneRegime| x.source_id),
{
    let mut ids: Vec<String> = Vec::new();
    let mut i: usize = 0;
    while i < list.len()
        invariant
            i <= list@.len(),
            ids@.len() == i,
            forall|k: int| 0 <= k < i ==> #[trigger] ids@[k] == list@[k].source_id,
        decreases list@.len() - i,
    {
        ids.push(list[i].source_id.clone());
        i = i + 1;
    }
    assert(ids@ =~= list@.map_values(|x: TimeZoneRegime| x.source_id));
    ids
}

fn weighting_sources_of(list: &Vec<EvaluationContext>) -> (ids: Vec<String>)
    ensures
        ids@ == list@.map_values(|x: EvaluationContext| x.weighting_source_id),
{
    let mut ids: Vec<String> = Vec::new();
    let mut i: usize = 0;
    while i < list.len()
        invariant
            i <= list@.len(),
            ids@.len() == i,
            forall|k: int| 0 <= k < i ==> #[trigger] ids@[k] == list@[k].weighting_source_id,
        decreases list@.len() - i,
    {
        ids.push(list[i].weighting_source_id.clone());
        i = i + 1;
    }
    assert(ids@ =~= list@.map_values(|x: EvaluationContext| x.weighting_source_id));
    ids
}


/// Rules with a non-zero daylight-saving delta.
pub open spec fn dst_rule() -> spec_fn(OffsetRule) -> bool {
    |r: OffsetRule|
        match r.dst_delta_minutes {
            Some(d) => d != 0,
            None => false,
        }
}

/// Rules whose standard offset is not a whole number of hours.
pub open spec fn non_whole_hour_rule() -> spec_fn(OffsetRule) -> bool {
    |r: OffsetRule| minutes_past_hour(r.standard_offset_minutes) != 0
}

/// Regimes backed by the given authority.
pub open spec fn regime_with_authority(authority: RegimeAuthority) -> spec_fn(TimeZoneRegime) -> bool {
    |r: TimeZoneRegime| r.authority == authority
}

/// The number of a regime's offset rules.
pub open spec fn regime_rule_count() -> spec_fn(TimeZoneRegime) -> nat {
    |r: TimeZoneRegime| r.offset_rules@.len()
}

/// The number of a regime's rules with a daylight-saving delta.
pub open spec fn regime_dst_rule_count() -> spec_fn(TimeZoneRegime) -> nat {
    |r: TimeZoneRegime| count_where(r.offset_rules@, dst_rule())
}

/// The number of a regime's rules off the whole hour.
pub open spec fn regime_non_whole_rule_count() -> spec_fn(TimeZoneRegime) -> nat {
    |r: TimeZoneRegime| count_where(r.offset_rules@, non_whole_hour_rule())
}

fn count_dst_rules(rules: &Vec<OffsetRule>) -> (n: usize)
    ensures
        n == count_where(rules@, dst_rule()),
{
    let mut n: usize = 0;
    let mut i: usize = 0;
    while i < rules.len()
        invariant
            i <= rules@.len(),
            n == count_where(rules@.take(i as int), dst_rule()),
        decreases rules@.len() - i,
    {
        proof {
            lemma_prefix_step(rules@, i as int);
            lemma_count_bound(rules@.take(i as int), dst_rule());
        }
        let active = match rules[i].dst_delta_minutes {
            Some(d) => d != 0,
            None => false,
        };
        if active {
            n = n + 1;
        }
        i = i + 1;
    }
    proof {
        lemma_take_all(rules@);
    }
    n
}

fn count_non_whole_hour_rules(rules: &Vec<OffsetRule>) -> (n: usize)
    ensures
        n == count_where(rules@, non_whole_hour_rule()),
{
    let mut n: usize = 0;
    let mut i: usize = 0;
    while i < rules.len()
        invariant
            i <= rules@.len(),
            n == count_where(rules@.take(i as int), non_whole_hour_rule()),
        decreases rules@.len() - i,
    {
        proof {
            lemma_prefix_step(rules@, i as int);
            lemma_count_bound(rules@.take(i as int), non_whole_hour_rule());
        }
        let offset = rules[i].standard_offset_minutes;
        let magnitude: i64 = if offset < 0 {
            -(offset as i64)
        } else {
            offset as i64
        };
        if magnitude % 60 != 0 {
            n = n + 1;
        }
        i = i + 1;
    }
    proof {
        lemma_take_all(rules@);
    }
    n
}

impl TemporalDataset {
    /// The report of a valid dataset.
    pub open spec fn summary(self) -> TemporalDatasetReport {
        let g = self.regimes@;
        TemporalDatasetReport {
            dataset_id: self.dataset_id,
            source_manifest_id: self.source_manifest.manifest_id,
            jurisdiction_count: self.jurisdictions@.len() as usize,
            unit_count: self.units@.len() as usize,
            boundary_graph_count: self.boundary_graphs@.len() as usize,
            regime_count: g.len() as usize,
            evaluation_context_count: self.evaluation_contexts@.len() as usize,
            current_law_regime_count: count_where(
                g,
                regime_with_authority(RegimeAuthority::CurrentLaw),
            ) as usize,
            historical_law_regime_count: count_where(
                g,
                regime_with_authority(RegimeAuthority::HistoricalLaw),
            ) as usize,
            proposed_scenario_regime_count: count_where(
                g,
                regime_with_authority(RegimeAuthority::ProposedScenario),
            ) as usize,
            analytic_counterfactual_regime_count: count_where(
                g,
                regime_with_authority(RegimeAuthority::AnalyticCounterfactual),
            ) as usize,
            offset_rule_count: sum_of(g, regime_rule_count()) as usize,
            dst_rule_count: sum_of(g, regime_dst_rule_count()) as usize,
            non_whole_hour_rule_count: sum_of(g, regime_non_whole_rule_count()) as usize,
            caveat_count: self.caveats@.len() as usize,
        }
    }

    /// Validates the dataset, then counts its records, its regimes by
    /// authority, and its offset rules with daylight saving and off the hour.
    pub fn report(&self) -> (r: Result<TemporalDatasetReport, TemporalModelError>)
        requires
            sum_of(self.regimes@, regime_rule_count()) <= usize::MAX,
        ensures
            r == match self.check() {
                Err(e) => Err(e),
                Ok(_) => Ok(self.summary()),
            },
    {
        self.validate()?;
        let ghost g = self.regimes@;
        let mut report = TemporalDatasetReport {
            dataset_id: self.dataset_id.clone(),
            source_manifest_id: self.source_manifest.manifest_id.clone(),
            jurisdiction_count: self.jurisdictions.len(),
            unit_count: self.units.len(),
            boundary_graph_count: self.boundary_graphs.len(),
            regime_count: self.regimes.len(),
            evaluation_context_count: self.evaluation_contexts.len(),
            current_law_regime_count: 0,
            historical_law_regime_count: 0,
            proposed_scenario_regime_count: 0,
            analytic_counterfactual_regime_count: 0,
            offset_rule_count: 0,
            dst_rule_count: 0,
            non_whole_hour_rule_count: 0,
            caveat_count: self.caveats.len(),
        };
        proof {
            assert forall|x: TimeZoneRegime| #[trigger]
                regime_dst_rule_count()(x) <= regime_rule_count()(x) by {
                lemma_count_bound(x.offset_rules@, dst_rule());
            }
            assert forall|x: TimeZoneRegime| #[trigger]
                regime_non_whole_rule_count()(x) <= regime_rule_count()(x) by {
                lemma_count_bound(x.offset_rules@, non_whole_hour_rule());
            }
        }
        let mut i: usize = 0;
        while i < self.regimes.len()
            invariant
                g == self.regimes@,
                i <= g.len(),
                sum_of(g, regime_rule_count()) <= usize::MAX,
                forall|x: TimeZoneRegime| #[trigger]
                    regime_dst_rule_count()(x) <= regime_rule_count()(x),
                forall|x: TimeZoneRegime| #[trigger]
                    regime_non_whole_rule_count()(x) <= regime_rule_count()(x),
                report.dataset_id == self.dataset_id,
                report.source_manifest_id == self.source_manifest.manifest_id,
                report.jurisdiction_count == self.jurisdictions@.len(),
                report.unit_count == self.units@.len(),
                report.boundary_graph_count == self.boundary_graphs@.len(),
                report.regime_count == g.len(),
                report.evaluation_context_count == self.evaluation_contexts@.len(),
                report.caveat_count == self.caveats@.len(),
                report.current_law_regime_count == count_where(
                    g.take(i as int),
                    regime_with_authority(RegimeAuthority::CurrentLaw),
                ),
                report.historical_law_regime_count == count_where(
                    g.take(i as int),
                    regime_with_authority(RegimeAuthority::HistoricalLaw),
                ),
                report.proposed_scenario_regime_count == count_where(
                    g.take(i as int),
                    regime_with_authority(RegimeAuthority::ProposedScenario),
                ),
                report.analytic_counterfactual_regime_count == count_where(
                    g.take(i as int),
                    regime_with_authority(RegimeAuthority::AnalyticCounterfactual),
                ),
                report.offset_rule_count == sum_of(g.take(i as int), regime_rule_count()),
                report.dst_rule_count == sum_of(g.take(i as int), regime_dst_rule_count()),
                report.non_whole_hour_rule_count == sum_of(
                    g.take(i as int),
                    regime_non_whole_rule_count(),
                ),
            decreases g.len() - i,
        {
            proof {
                lemma_prefix_step(g, i as int);
                lemma_count_bound(g.take(i as int), regime_with_authority(g[i as int].authority));
                lemma_sum_prefix(g, regime_rule_count(), i as int + 1);
                lemma_sum_monotone(g.take(i as int + 1), regime_dst_rule_count(), regime_rule_count());
                lemma_sum_monotone(
                    g.take(i as int + 1),
                    regime_non_whole_rule_count(),
                    regime_rule_count(),
                );
            }
            let regime = &self.regimes[i];
            match regime.authority {
                RegimeAuthority::CurrentLaw => report.current_law_regime_count =
                    report.current_law_regime_count + 1,
                RegimeAuthority::HistoricalLaw => report.historical_law_regime_count =
                    report.historical_law_regime_count + 1,
                RegimeAuthority::ProposedScenario => report.proposed_scenario_regime_count =
                    report.proposed_scenario_regime_count + 1,
                RegimeAuthority::AnalyticCounterfactual => report.analytic_counterfactual_regime_count =
                    report.analytic_counterfactual_regime_count + 1,
            }
            report.offset_rule_count = report.offset_rule_count + regime.offset_rules.len();
            let dst = count_dst_rules(&regime.offset_rules);
            report.dst_rule_count = report.dst_rule_count + dst;
            let non_whole = count_non_whole_hour_rules(&regime.offset_rules);
            report.non_whole_hour_rule_count = report.non_whole_hour_rule_count + non_whole;
            i = i + 1;
        }
        proof {
            lemma_take_all(g);
        }
        Ok(report)
    }
}

} // verus!
