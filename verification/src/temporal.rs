use vstd::prelude::*;

use crate::checks::{first_error, first_error_from};
use crate::errors::{validate_non_empty, TemporalModelError};
use crate::dataset::{unit_ids_of, TemporalBoundaryUnit};
use crate::text::{list_contains, precedes, text_precedes, views};

verus! {

/// A validity interval given by optional start and end dates.
#[derive(Debug, Clone, PartialEq, Eq)]
pub struct TemporalExtent {
    pub valid_from: Option<String>,
    pub valid_to: Option<String>,
}

/// The administrative level of a boundary unit.
#[derive(Debug, Clone, Copy, PartialEq, Eq)]
pub enum UnitLevel {
    Country,
    State,
    Province,
    County,
    Municipality,
    District,
    Imported,
}

/// How a unit's representative point was chosen.
#[derive(Debug, Clone, Copy, PartialEq, Eq)]
pub enum RepresentativePointMethod {
    GeometryCentroid,
    InternalPoint,
    PopulationCenter,
    SourceProvided,
    Imported,
}

/// A country, state, or other jurisdiction.
#[derive(Debug, Clone, PartialEq, Eq)]
pub struct Jurisdiction {
    pub jurisdiction_id: String,
    pub name: String,
    pub parent_jurisdiction_id: Option<String>,
    pub source_id: String,
    pub temporal_extent: TemporalExtent,
}

/// The physical kind of an adjacency between two units.
#[derive(Debug, Clone, Copy, PartialEq, Eq)]
pub enum TemporalEdgeKind {
    LandBoundary,
    WaterBoundary,
    Ferry,
    Bridge,
    PointTouch,
    AdministrativeException,
}

/// Who backs a time-zone regime.
#[derive(Debug, Clone, Copy, PartialEq, Eq)]
pub enum RegimeAuthority {
    CurrentLaw,
    HistoricalLaw,
    ProposedScenario,
    AnalyticCounterfactual,
}

/// The UTC offset of a zone over an interval, with an optional daylight-saving delta.
#[derive(Debug, Clone, PartialEq, Eq)]
pub struct OffsetRule {
    pub rule_id: String,
    pub zone_id: String,
    pub standard_offset_minutes: i32,
    pub temporal_extent: TemporalExtent,
    pub dst_delta_minutes: Option<i32>,
    pub transition_rule_ref: Option<String>,
    pub observance_notes: Vec<String>,
}

/// The zone of one unit over an interval.
#[derive(Debug, Clone, PartialEq, Eq)]
pub struct TimeZoneAssignment {
    pub unit_id: String,
    pub zone_id: String,
    pub temporal_extent: TemporalExtent,
}

/// An authority-backed or scenario-backed set of zone assignments and offset rules.
#[derive(Debug, Clone, PartialEq, Eq)]
pub struct TimeZoneRegime {
    pub regime_id: String,
    pub authority: RegimeAuthority,
    pub jurisdiction_scope: String,
    pub source_id: String,
    pub temporal_extent: TemporalExtent,
    pub assignments: Vec<TimeZoneAssignment>,
    pub offset_rules: Vec<OffsetRule>,
}

/// What a score is evaluated against.
#[derive(Debug, Clone, PartialEq, Eq)]
pub struct EvaluationContext {
    pub evaluation_period: TemporalExtent,
    pub boundary_graph_id: String,
    pub regime_id: String,
    pub representative_point_method: RepresentativePointMethod,
    pub weighting_source_id: String,
    pub source_vintage: String,
}

/// Counts over a temporal dataset.
#[derive(Debug, Clone, PartialEq, Eq)]
pub struct TemporalDatasetReport {
    pub dataset_id: String,
    pub source_manifest_id: String,
    pub jurisdiction_count: usize,
    pub unit_count: usize,
    pub boundary_graph_count: usize,
    pub regime_count: usize,
    pub evaluation_context_count: usize,
    pub current_law_regime_count: usize,
    pub historical_law_regime_count: usize,
    pub proposed_scenario_regime_count: usize,
    pub analytic_counterfactual_regime_count: usize,
    pub offset_rule_count: usize,
    pub dst_rule_count: usize,
    pub non_whole_hour_rule_count: usize,
    pub caveat_count: usize,
}

/// The largest UTC offset magnitude accepted, in minutes.
pub const MAX_UTC_OFFSET_MINUTES: i32 = 840;

impl TemporalExtent {
    /// The outcome of validating an extent: when both ends are given, the
    /// start must sort strictly before the end.
    pub open spec fn check(self) -> Result<(), TemporalModelError> {
        match (self.valid_from, self.valid_to) {
            (Some(from), Some(to)) => if !text_precedes(from@, to@) {
                Err(TemporalModelError::InvalidTemporalExtent { valid_from: from, valid_to: to })
            } else {
                Ok(())
            },
            _ => Ok(()),
        }
    }

    /// An extent with neither start nor end.
    pub fn current() -> (r: Self)
        ensures
            r.valid_from is None,
            r.valid_to is None,
    {
        Self { valid_from: None, valid_to: None }
    }

    /// Rejects an extent whose start does not sort strictly before its end.
    pub fn validate(&self) -> (r: Result<(), TemporalModelError>)
        ensures
            r == self.check(),
    {
        if let (Some(from), Some(to)) = (&self.valid_from, &self.valid_to) {
            if !precedes(from.as_str(), to.as_str()) {
                return Err(
                    TemporalModelError::InvalidTemporalExtent {
                        valid_from: from.clone(),
                        valid_to: to.clone(),
                    },
                );
            }
        }
        Ok(())
    }
}

impl Jurisdiction {
    /// The outcome of validating a jurisdiction.
    pub open spec fn check(self) -> Result<(), TemporalModelError> {
        if self.jurisdiction_id@.len() == 0 {
            Err(TemporalModelError::EmptyId { kind: "jurisdiction.jurisdiction_id" })
        } else if self.name@.len() == 0 {
            Err(TemporalModelError::EmptyId { kind: "jurisdiction.name" })
        } else if self.source_id@.len() == 0 {
            Err(TemporalModelError::EmptyId { kind: "jurisdiction.source_id" })
        } else {
            self.temporal_extent.check()
        }
    }

    /// Requires a non-empty id, name, and source, and a valid extent.
    pub fn validate(&self) -> (r: Result<(), TemporalModelError>)
        ensures
            r == self.check(),
    {
        validate_non_empty("jurisdiction.jurisdiction_id", &self.jurisdiction_id)?;
        validate_non_empty("jurisdiction.name", &self.name)?;
        validate_non_empty("jurisdiction.source_id", &self.source_id)?;
        self.temporal_extent.validate()
    }
}

impl OffsetRule {
    /// The offset in force: the standard offset, plus the daylight-saving
    /// delta (none counting as zero) while daylight saving is active.
    pub open spec fn effective_offset(self, daylight_saving_active: bool) -> int {
        self.standard_offset_minutes + if daylight_saving_active {
            match self.dst_delta_minutes {
                Some(d) => d as int,
                None => 0int,
            }
        } else {
            0int
        }
    }

    /// The outcome of validating a rule.
    pub open spec fn check(self) -> Result<(), TemporalModelError> {
        if self.rule_id@.len() == 0 {
            Err(TemporalModelError::EmptyId { kind: "offset_rule.rule_id" })
        } else if self.zone_id@.len() == 0 {
            Err(TemporalModelError::EmptyId { kind: "offset_rule.zone_id" })
        } else if !(-MAX_UTC_OFFSET_MINUTES <= self.standard_offset_minutes
            <= MAX_UTC_OFFSET_MINUTES) {
            Err(
                TemporalModelError::InvalidUtcOffset {
                    rule_id: self.rule_id,
                    standard_offset_minutes: self.standard_offset_minutes,
                },
            )
        } else {
            self.temporal_extent.check()
        }
    }

    /// The offset in force, in minutes.
    pub fn effective_offset_minutes(&self, daylight_saving_active: bool) -> (r: i32)
        requires
            i32::MIN <= self.effective_offset(daylight_saving_active) <= i32::MAX,
        ensures
            r == self.effective_offset(daylight_saving_active),
    {
        self.standard_offset_minutes + if daylight_saving_active {
            match self.dst_delta_minutes {
                Some(d) => d,
                None => 0,
            }
        } else {
            0
        }
    }

    /// Requires a non-empty id and zone, an offset within fourteen hours of
    /// UTC, and a valid extent.
    pub fn validate(&self) -> (r: Result<(), TemporalModelError>)
        ensures
            r == self.check(),
    {
        validate_non_empty("offset_rule.rule_id", &self.rule_id)?;
        validate_non_empty("offset_rule.zone_id", &self.zone_id)?;
        if !(-MAX_UTC_OFFSET_MINUTES <= self.standard_offset_minutes
            && self.standard_offset_minutes <= MAX_UTC_OFFSET_MINUTES) {
            return Err(
                TemporalModelError::InvalidUtcOffset {
                    rule_id: self.rule_id.clone(),
                    standard_offset_minutes: self.standard_offset_minutes,
                },
            );
        }
        self.temporal_extent.validate()
    }
}

/// The effective offset with daylight saving inactive is the standard
/// offset, and activating daylight saving adds exactly the rule's delta
/// (nothing when the rule has none).
pub proof fn lemma_daylight_saving_shift(rule: OffsetRule)
    ensures
        rule.effective_offset(false) == rule.standard_offset_minutes,
        rule.effective_offset(true) - rule.effective_offset(false) == match rule.dst_delta_minutes {
            Some(d) => d as int,
            None => 0int,
        },
{
}

impl EvaluationContext {
    /// The outcome of validating a context.
    pub open spec fn check(self) -> Result<(), TemporalModelError> {
        if self.evaluation_period.check() is Err {
            self.evaluation_period.check()
        } else if self.boundary_graph_id@.len() == 0 {
            Err(TemporalModelError::EmptyId { kind: "evaluation_context.boundary_graph_id" })
        } else if self.regime_id@.len() == 0 {
            Err(TemporalModelError::EmptyId { kind: "evaluation_context.regime_id" })
        } else if self.weighting_source_id@.len() == 0 {
            Err(TemporalModelError::EmptyId { kind: "evaluation_context.weighting_source_id" })
        } else if self.source_vintage@.len() == 0 {
            Err(TemporalModelError::EmptyId { kind: "evaluation_context.source_vintage" })
        } else {
            Ok(())
        }
    }

    /// Requires a valid period and non-empty graph, regime, weighting, and vintage.
    pub fn validate(&self) -> (r: Result<(), TemporalModelError>)
        ensures
            r == self.check(),
    {
        self.evaluation_period.validate()?;
        validate_non_empty("evaluation_context.boundary_graph_id", &self.boundary_graph_id)?;
        validate_non_empty("evaluation_context.regime_id", &self.regime_id)?;
        validate_non_empty("evaluation_context.weighting_source_id", &self.weighting_source_id)?;
        validate_non_empty("evaluation_context.source_vintage", &self.source_vintage)
    }
}

/// Whether some rule has the given zone id.
pub open spec fn zone_among_rules(rules: Seq<OffsetRule>, id: Seq<char>) -> bool {
    exists|k: int| 0 <= k < rules.len() && #[trigger] rules[k].zone_id@ == id
}

/// What the check of the `j`-th assignment of a regime reports, if anything.
pub open spec fn regime_assignment_outcome(
    regime: TimeZoneRegime,
    unit_ids: Seq<Seq<char>>,
    j: int,
) -> Option<TemporalModelError> {
    let a = regime.assignments@[j];
    match a.temporal_extent.check() {
        Err(e) => Some(e),
        Ok(_) => if !unit_ids.contains(a.unit_id@) {
            Some(TemporalModelError::UnknownAssignmentUnit { unit_id: a.unit_id })
        } else if !zone_among_rules(regime.offset_rules@, a.zone_id@) {
            Some(TemporalModelError::UnknownAssignmentZone { zone_id: a.zone_id })
        } else {
            None
        },
    }
}

impl TimeZoneRegime {
    /// The outcomes of checking each offset rule in turn.
    pub open spec fn rule_outcomes(self) -> Seq<Option<TemporalModelError>> {
        Seq::new(
            self.offset_rules@.len(),
            |j: int|
                match self.offset_rules@[j].check() {
                    Err(e) => Some(e),
                    Ok(_) => None,
                },
        )
    }

    /// The outcomes of checking each assignment in turn.
    pub open spec fn assignment_outcomes(self, unit_ids: Seq<Seq<char>>) -> Seq<
        Option<TemporalModelError>,
    > {
        Seq::new(
            self.assignments@.len(),
            |j: int| regime_assignment_outcome(self, unit_ids, j),
        )
    }

    /// The outcome of validating a regime against the ids of the known units.
    pub open spec fn check(self, unit_ids: Seq<Seq<char>>) -> Result<(), TemporalModelError> {
        if self.regime_id@.len() == 0 {
            Err(TemporalModelError::EmptyId { kind: "regime.regime_id" })
        } else if self.jurisdiction_scope@.len() == 0 {
            Err(TemporalModelError::EmptyId { kind: "regime.jurisdiction_scope" })
        } else if self.source_id@.len() == 0 {
            Err(TemporalModelError::EmptyId { kind: "regime.source_id" })
        } else if self.temporal_extent.check() is Err {
            self.temporal_extent.check()
        } else if first_error(self.rule_outcomes()) is Err {
            first_error(self.rule_outcomes())
        } else {
            first_error(self.assignment_outcomes(unit_ids))
        }
    }

    /// Whether one of the regime's offset rules defines the zone.
    fn has_zone(&self, zone_id: &str) -> (r: bool)
        ensures
            r == zone_among_rules(self.offset_rules@, zone_id@),
    {
        let mut k: usize = 0;
        while k < self.offset_rules.len()
            invariant
                k <= self.offset_rules@.len(),
                forall|j: int| 0 <= j < k ==> self.offset_rules@[j].zone_id@ != zone_id@,
            decreases self.offset_rules@.len() - k,
        {
            if crate::text::same_text(self.offset_rules[k].zone_id.as_str(), zone_id) {
                assert(self.offset_rules@[k as int].zone_id@ == zone_id@);
                return true;
            }
            k = k + 1;
        }
        false
    }

    /// Requires non-empty ids, a valid extent, valid offset rules, and
    /// assignments with valid extents, units among `units`, and zones that
    /// some rule defines.
    pub fn validate(&self, units: &Vec<TemporalBoundaryUnit>) -> (r: Result<(), TemporalModelError>)
        ensures
            r == self.check(views(units@.map_values(|u: TemporalBoundaryUnit| u.unit_id))),
    {
        let unit_ids = unit_ids_of(units);
        self.validate_against(&unit_ids)
    }

    /// Validates the regime against the ids of the known units.
    pub fn validate_against(&self, unit_ids: &Vec<String>) -> (r: Result<(), TemporalModelError>)
        ensures
            r == self.check(views(unit_ids@)),
    {
        validate_non_empty("regime.regime_id", &self.regime_id)?;
        validate_non_empty("regime.jurisdiction_scope", &self.jurisdiction_scope)?;
        validate_non_empty("regime.source_id", &self.source_id)?;
        self.temporal_extent.validate()?;
        let ghost rules = self.rule_outcomes();
        let mut i: usize = 0;
        while i < self.offset_rules.len()
            invariant
                i <= self.offset_rules@.len(),
                rules == self.rule_outcomes(),
                self.regime_id@.len() > 0,
                self.jurisdiction_scope@.len() > 0,
                self.source_id@.len() > 0,
                self.temporal_extent.check() is Ok,
                first_error(rules) == first_error_from(rules, i as int),
            decreases self.offset_rules@.len() - i,
        {
            if let Err(e) = self.offset_rules[i].validate() {
                assert(rules[i as int] == Some(e));
                return Err(e);
            }
            assert(rules[i as int] is None);
            i = i + 1;
        }
        let ghost outcomes = self.assignment_outcomes(views(unit_ids@));
        let mut j: usize = 0;
        while j < self.assignments.len()
            invariant
                j <= self.assignments@.len(),
                outcomes == self.assignment_outcomes(views(unit_ids@)),
                self.check(views(unit_ids@)) == first_error(outcomes),
                first_error(outcomes) == first_error_from(outcomes, j as int),
            decreases self.assignments@.len() - j,
        {
            let assignment = &self.assignments[j];
            if let Err(e) = assignment.temporal_extent.validate() {
                assert(outcomes[j as int] == Some(e));
                return Err(e);
            }
            if !list_contains(unit_ids, assignment.unit_id.as_str()) {
                let e = TemporalModelError::UnknownAssignmentUnit {
                    unit_id: assignment.unit_id.clone(),
                };
                assert(outcomes[j as int] == Some(e));
                return Err(e);
            }
            if !self.has_zone(assignment.zone_id.as_str()) {
                let e = TemporalModelError::UnknownAssignmentZone {
                    zone_id: assignment.zone_id.clone(),
                };
                assert(outcomes[j as int] == Some(e));
                return Err(e);
            }
            assert(outcomes[j as int] is None);
            j = j + 1;
        }
        Ok(())
    }
}

} // verus!
