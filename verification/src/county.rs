use vstd::prelude::*;

use crate::checks::{
    count_where, first_error, first_error_from, lemma_count_bound, lemma_prefix_step,
    lemma_take_all, sum_of,
};
use crate::errors::{validate_non_empty, TemporalModelError};
use crate::sources::SourceManifest;
use crate::text::same_text;

verus! {

/// How settled a county's legal time-zone assignment is.
#[derive(Debug, Clone, Copy, PartialEq, Eq)]
pub enum CountyAssignmentStatus {
    Placeholder,
    Reconciled,
    SplitCounty,
    Uncertain,
}

/// The legal time zone of one county, with its evidence.
#[derive(Debug, Clone, PartialEq, Eq)]
pub struct CountyTimeZoneAssignment {
    pub unit_id: String,
    pub zone_id: String,
    pub legal_source_id: String,
    pub legal_clause: String,
    pub geometry_source_id: Option<String>,
    pub status: CountyAssignmentStatus,
    pub caveats: Vec<String>,
}

/// A set of county time-zone assignments drawn from one manifest.
#[derive(Debug, Clone, PartialEq, Eq)]
pub struct CountyTimeZoneAssignmentSet {
    pub assignment_id: String,
    pub source_manifest_id: String,
    pub generated_on: String,
    pub scenario_id: String,
    pub assignments: Vec<CountyTimeZoneAssignment>,
}

/// Evidence counts over a set of county assignments.
#[derive(Debug, Clone, PartialEq, Eq)]
pub struct CountyTimeZoneAssignmentReport {
    pub assignment_id: String,
    pub source_manifest_id: String,
    pub assignment_count: usize,
    pub legal_source_ref_count: usize,
    pub legal_clause_count: usize,
    pub geometry_source_ref_count: usize,
    pub placeholder_count: usize,
    pub reconciled_count: usize,
    pub split_county_count: usize,
    pub uncertain_count: usize,
    pub caveated_assignment_count: usize,
    pub caveat_count: usize,
    pub assignment_evidence_ready: bool,
}

/// How a county polygon compares with its assigned time-zone polygon.
#[derive(Debug, Clone, Copy, PartialEq, Eq)]
pub enum GeometryReconciliationStatus {
    Pending,
    RepresentativePointMatched,
    Reconciled,
    SplitCounty,
    Mismatch,
}

/// The geometry evidence for one county assignment.
#[derive(Debug, Clone, PartialEq, Eq)]
pub struct CountyGeometryReconciliation {
    pub unit_id: String,
    pub assignment_zone_id: String,
    pub legal_source_id: String,
    pub geometry_source_id: String,
    pub status: GeometryReconciliationStatus,
    pub evidence_note: String,
    pub caveats: Vec<String>,
}

/// A set of geometry reconciliation rows drawn from one manifest.
#[derive(Debug, Clone, PartialEq, Eq)]
pub struct CountyGeometryReconciliationSet {
    pub reconciliation_id: String,
    pub source_manifest_id: String,
    pub generated_on: String,
    pub rows: Vec<CountyGeometryReconciliation>,
}

/// Status counts over a set of geometry reconciliation rows.
#[derive(Debug, Clone, PartialEq, Eq)]
pub struct CountyGeometryReconciliationReport {
    pub reconciliation_id: String,
    pub source_manifest_id: String,
    pub row_count: usize,
    pub pending_count: usize,
    pub representative_point_matched_count: usize,
    pub reconciled_count: usize,
    pub split_county_count: usize,
    pub mismatch_count: usize,
    pub caveated_row_count: usize,
    pub caveat_count: usize,
    pub geometry_reconciliation_ready: bool,
}

/// Assignments with the given status.
pub open spec fn assignment_with_status(status: CountyAssignmentStatus) -> spec_fn(
    CountyTimeZoneAssignment,
) -> bool {
    |a: CountyTimeZoneAssignment| a.status == status
}

/// Assignments that cite a geometry source.
pub open spec fn assignment_has_geometry() -> spec_fn(CountyTimeZoneAssignment) -> bool {
    |a: CountyTimeZoneAssignment| a.geometry_source_id is Some
}

/// Assignments that carry at least one caveat.
pub open spec fn assignment_has_caveats() -> spec_fn(CountyTimeZoneAssignment) -> bool {
    |a: CountyTimeZoneAssignment| a.caveats@.len() > 0
}

/// The number of caveats of an assignment.
pub open spec fn assignment_caveat_count() -> spec_fn(CountyTimeZoneAssignment) -> nat {
    |a: CountyTimeZoneAssignment| a.caveats@.len()
}

/// Rows with the given status.
pub open spec fn row_with_status(status: GeometryReconciliationStatus) -> spec_fn(
    CountyGeometryReconciliation,
) -> bool {
    |r: CountyGeometryReconciliation| r.status == status
}

/// Rows that carry at least one caveat.
pub open spec fn row_has_caveats() -> spec_fn(CountyGeometryReconciliation) -> bool {
    |r: CountyGeometryReconciliation| r.caveats@.len() > 0
}

/// The number of caveats of a row.
pub open spec fn row_caveat_count() -> spec_fn(CountyGeometryReconciliation) -> nat {
    |r: CountyGeometryReconciliation| r.caveats@.len()
}

impl CountyTimeZoneAssignment {
    /// The outcome of validating an assignment against a manifest.
    pub open spec fn check(self, manifest: SourceManifest) -> Result<(), TemporalModelError> {
        if self.unit_id@.len() == 0 {
            Err(TemporalModelError::EmptyId { kind: "county_time_zone_assignment.unit_id" })
        } else if self.zone_id@.len() == 0 {
            Err(TemporalModelError::EmptyId { kind: "county_time_zone_assignment.zone_id" })
        } else if self.legal_source_id@.len() == 0 {
            Err(
                TemporalModelError::EmptyId { kind: "county_time_zone_assignment.legal_source_id" },
            )
        } else if self.legal_clause@.len() == 0 {
            Err(TemporalModelError::EmptyId { kind: "county_time_zone_assignment.legal_clause" })
        } else if !manifest.id_set().contains(self.legal_source_id@) {
            Err(
                TemporalModelError::UnknownSourceReference {
                    owner_kind: "county_time_zone_assignment.legal_source_id",
                    source_id: self.legal_source_id,
                },
            )
        } else {
            match self.geometry_source_id {
                None => Ok(()),
                Some(g) => if g@.len() == 0 {
                    Err(
                        TemporalModelError::EmptyId {
                            kind: "county_time_zone_assignment.geometry_source_id",
                        },
                    )
                } else if !manifest.id_set().contains(g@) {
                    Err(
                        TemporalModelError::UnknownSourceReference {
                            owner_kind: "county_time_zone_assignment.geometry_source_id",
                            source_id: g,
                        },
                    )
                } else {
                    Ok(())
                },
            }
        }
    }

    /// Requires non-empty fields and legal and geometry sources that the manifest cites.
    pub fn validate(&self, manifest: &SourceManifest) -> (r: Result<(), TemporalModelError>)
        ensures
            r == self.check(*manifest),
    {
        validate_non_empty("county_time_zone_assignment.unit_id", &self.unit_id)?;
        validate_non_empty("county_time_zone_assignment.zone_id", &self.zone_id)?;
        validate_non_empty("county_time_zone_assignment.legal_source_id", &self.legal_source_id)?;
        validate_non_empty("county_time_zone_assignment.legal_clause", &self.legal_clause)?;
        if !manifest.has_source(self.legal_source_id.as_str()) {
            return Err(
                TemporalModelError::UnknownSourceReference {
                    owner_kind: "county_time_zone_assignment.legal_source_id",
                    source_id: self.legal_source_id.clone(),
                },
            );
        }
        if let Some(geometry_source_id) = &self.geometry_source_id {
            validate_non_empty(
                "county_time_zone_assignment.geometry_source_id",
                geometry_source_id,
            )?;
            if !manifest.has_source(geometry_source_id.as_str()) {
                return Err(
                    TemporalModelError::UnknownSourceReference {
                        owner_kind: "county_time_zone_assignment.geometry_source_id",
                        source_id: geometry_source_id.clone(),
                    },
                );
            }
        }
        Ok(())
    }
}

impl CountyTimeZoneAssignmentSet {
    /// The outcomes of checking each assignment in turn.
    pub open spec fn assignment_outcomes(self, manifest: SourceManifest) -> Seq<
        Option<TemporalModelError>,
    > {
        Seq::new(
            self.assignments@.len(),
            |j: int|
                match self.assignments@[j].check(manifest) {
                    Err(e) => Some(e),
                    Ok(_) => None,
                },
        )
    }

    /// The outcome of the checks that precede the counting.
    pub open spec fn check(self, manifest: SourceManifest) -> Result<(), TemporalModelError> {
        if manifest.check() is Err {
            manifest.check()
        } else if self.assignment_id@.len() == 0 {
            Err(TemporalModelError::EmptyId { kind: "county_time_zone_assignment_set.assignment_id" })
        } else if self.source_manifest_id@.len() == 0 {
            Err(
                TemporalModelError::EmptyId {
                    kind: "county_time_zone_assignment_set.source_manifest_id",
                },
            )
        } else if self.generated_on@.len() == 0 {
            Err(TemporalModelError::EmptyId { kind: "county_time_zone_assignment_set.generated_on" })
        } else if self.scenario_id@.len() == 0 {
            Err(TemporalModelError::EmptyId { kind: "county_time_zone_assignment_set.scenario_id" })
        } else if self.source_manifest_id@ != manifest.manifest_id@ {
            Err(
                TemporalModelError::UnknownSourceReference {
                    owner_kind: "county_time_zone_assignment_set.source_manifest_id",
                    source_id: self.source_manifest_id,
                },
            )
        } else {
            first_error(self.assignment_outcomes(manifest))
        }
    }

    /// The report on a set whose checks pass.
    pub open spec fn summary(self) -> CountyTimeZoneAssignmentReport {
        let a = self.assignments@;
        let n = a.len();
        let geometry = count_where(a, assignment_has_geometry());
        let placeholder = count_where(a, assignment_with_status(CountyAssignmentStatus::Placeholder));
        let uncertain = count_where(a, assignment_with_status(CountyAssignmentStatus::Uncertain));
        CountyTimeZoneAssignmentReport {
            assignment_id: self.assignment_id,
            source_manifest_id: self.source_manifest_id,
            assignment_count: n as usize,
            legal_source_ref_count: n as usize,
            legal_clause_count: n as usize,
            geometry_source_ref_count: geometry as usize,
            placeholder_count: placeholder as usize,
            reconciled_count: count_where(
                a,
                assignment_with_status(CountyAssignmentStatus::Reconciled),
            ) as usize,
            split_county_count: count_where(
                a,
                assignment_with_status(CountyAssignmentStatus::SplitCounty),
            ) as usize,
            uncertain_count: uncertain as usize,
            caveated_assignment_count: count_where(a, assignment_has_caveats()) as usize,
            caveat_count: sum_of(a, assignment_caveat_count()) as usize,
            assignment_evidence_ready: n > 0 && geometry == n && placeholder == 0 && uncertain
                == 0,
        }
    }

    /// Validates the manifest, the set's fields, and each assignment, then
    /// counts evidence references, statuses, and caveats.
    pub fn report(&self, manifest: &SourceManifest) -> (r: Result<
        CountyTimeZoneAssignmentReport,
        TemporalModelError,
    >)
        requires
            sum_of(self.assignments@, assignment_caveat_count()) <= usize::MAX,
        ensures
            r == match self.check(*manifest) {
                Err(e) => Err(e),
                Ok(_) => Ok(self.summary()),
            },
    {
        manifest.validate()?;
        validate_non_empty("county_time_zone_assignment_set.assignment_id", &self.assignment_id)?;
        validate_non_empty(
            "county_time_zone_assignment_set.source_manifest_id",
            &self.source_manifest_id,
        )?;
        validate_non_empty("county_time_zone_assignment_set.generated_on", &self.generated_on)?;
        validate_non_empty("county_time_zone_assignment_set.scenario_id", &self.scenario_id)?;
        if !same_text(self.source_manifest_id.as_str(), manifest.manifest_id.as_str()) {
            return Err(
                TemporalModelError::UnknownSourceReference {
                    owner_kind: "county_time_zone_assignment_set.source_manifest_id",
                    source_id: self.source_manifest_id.clone(),
                },
            );
        }
        let ghost a = self.assignments@;
        let ghost outcomes = self.assignment_outcomes(*manifest);
        let mut report = CountyTimeZoneAssignmentReport {
            assignment_id: self.assignment_id.clone(),
            source_manifest_id: self.source_manifest_id.clone(),
            assignment_count: self.assignments.len(),
            legal_source_ref_count: 0,
            legal_clause_count: 0,
            geometry_source_ref_count: 0,
            placeholder_count: 0,
            reconciled_count: 0,
            split_county_count: 0,
            uncertain_count: 0,
            caveated_assignment_count: 0,
            caveat_count: 0,
            assignment_evidence_ready: false,
        };
        let mut i: usize = 0;
        while i < self.assignments.len()
            invariant
                a == self.assignments@,
                i <= a.len(),
                outcomes == self.assignment_outcomes(*manifest),
                self.check(*manifest) == first_error(outcomes),
                first_error(outcomes) == first_error_from(outcomes, i as int),
                sum_of(a, assignment_caveat_count()) <= usize::MAX,
                report.assignment_id == self.assignment_id,
                report.source_manifest_id == self.source_manifest_id,
                report.assignment_count == a.len(),
                report.legal_source_ref_count == i,
                report.legal_clause_count == i,
                report.geometry_source_ref_count == count_where(
                    a.take(i as int),
                    assignment_has_geometry(),
                ),
                report.placeholder_count == count_where(
                    a.take(i as int),
                    assignment_with_status(CountyAssignmentStatus::Placeholder),
                ),
                report.reconciled_count == count_where(
                    a.take(i as int),
                    assignment_with_status(CountyAssignmentStatus::Reconciled),
                ),
                report.split_county_count == count_where(
                    a.take(i as int),
                    assignment_with_status(CountyAssignmentStatus::SplitCounty),
                ),
                report.uncertain_count == count_where(
                    a.take(i as int),
                    assignment_with_status(CountyAssignmentStatus::Uncertain),
                ),
                report.caveated_assignment_count == count_where(
                    a.take(i as int),
                    assignment_has_caveats(),
                ),
                report.caveat_count == sum_of(a.take(i as int), assignment_caveat_count()),
            decreases a.len() - i,
        {
            let assignment = &self.assignments[i];
            if let Err(e) = assignment.validate(manifest) {
                assert(outcomes[i as int] == Some(e));
                return Err(e);
            }
            assert(outcomes[i as int] is None);
            proof {
                lemma_prefix_step(a, i as int);
                lemma_count_bound(a.take(i as int), assignment_has_geometry());
                lemma_count_bound(a.take(i as int), assignment_has_caveats());
                lemma_count_bound(a.take(i as int), assignment_with_status(a[i as int].status));
                lemma_assignment_caveats_prefix_bound(a, i as int + 1);
            }
            report.legal_source_ref_count = report.legal_source_ref_count + 1;
            report.legal_clause_count = report.legal_clause_count + 1;
            if assignment.geometry_source_id.is_some() {
                report.geometry_source_ref_count = report.geometry_source_ref_count + 1;
            }
            match assignment.status {
                CountyAssignmentStatus::Placeholder => report.placeholder_count =
                    report.placeholder_count + 1,
                CountyAssignmentStatus::Reconciled => report.reconciled_count =
                    report.reconciled_count + 1,
                CountyAssignmentStatus::SplitCounty => report.split_county_count =
                    report.split_county_count + 1,
                CountyAssignmentStatus::Uncertain => report.uncertain_count =
                    report.uncertain_count + 1,
            }
            if !assignment.caveats.is_empty() {
                report.caveated_assignment_count = report.caveated_assignment_count + 1;
                report.caveat_count = report.caveat_count + assignment.caveats.len();
            }
            i = i + 1;
        }
        proof {
            lemma_take_all(a);
        }
        report.assignment_evidence_ready = report.assignment_count > 0
            && report.legal_source_ref_count == report.assignment_count
            && report.legal_clause_count == report.assignment_count
            && report.geometry_source_ref_count == report.assignment_count
            && report.placeholder_count == 0 && report.uncertain_count == 0;
        Ok(report)
    }
}

proof fn lemma_assignment_caveats_prefix_bound(a: Seq<CountyTimeZoneAssignment>, n: int)
    requires
        0 <= n <= a.len(),
    ensures
        sum_of(a.take(n), assignment_caveat_count()) <= sum_of(a, assignment_caveat_count()),
    decreases a.len() - n,
{
    if n < a.len() {
        lemma_assignment_caveats_prefix_bound(a, n + 1);
        lemma_prefix_step(a, n);
    } else {
        lemma_take_all(a);
    }
}

proof fn lemma_row_caveats_prefix_bound(a: Seq<CountyGeometryReconciliation>, n: int)
    requires
        0 <= n <= a.len(),
    ensures
        sum_of(a.take(n), row_caveat_count()) <= sum_of(a, row_caveat_count()),
    decreases a.len() - n,
{
    if n < a.len() {
        lemma_row_caveats_prefix_bound(a, n + 1);
        lemma_prefix_step(a, n);
    } else {
        lemma_take_all(a);
    }
}

impl CountyGeometryReconciliation {
    /// The outcome of validating a row against a manifest.
    pub open spec fn check(self, manifest: SourceManifest) -> Result<(), TemporalModelError> {
        if self.unit_id@.len() == 0 {
            Err(TemporalModelError::EmptyId { kind: "county_geometry_reconciliation.unit_id" })
        } else if self.assignment_zone_id@.len() == 0 {
            Err(
                TemporalModelError::EmptyId {
                    kind: "county_geometry_reconciliation.assignment_zone_id",
                },
            )
        } else if self.legal_source_id@.len() == 0 {
            Err(
                TemporalModelError::EmptyId {
                    kind: "county_geometry_reconciliation.legal_source_id",
                },
            )
        } else if self.geometry_source_id@.len() == 0 {
            Err(
                TemporalModelError::EmptyId {
                    kind: "county_geometry_reconciliation.geometry_source_id",
                },
            )
        } else if self.evidence_note@.len() == 0 {
            Err(
                TemporalModelError::EmptyId { kind: "county_geometry_reconciliation.evidence_note" },
            )
        } else if !manifest.id_set().contains(self.legal_source_id@) {
            Err(
                TemporalModelError::UnknownSourceReference {
                    owner_kind: "county_geometry_reconciliation.legal_source_id",
                    source_id: self.legal_source_id,
                },
            )
        } else if !manifest.id_set().contains(self.geometry_source_id@) {
            Err(
                TemporalModelError::UnknownSourceReference {
                    owner_kind: "county_geometry_reconciliation.geometry_source_id",
                    source_id: self.geometry_source_id,
                },
            )
        } else {
            Ok(())
        }
    }

    /// Requires non-empty fields and legal and geometry sources that the manifest cites.
    pub fn validate(&self, manifest: &SourceManifest) -> (r: Result<(), TemporalModelError>)
        ensures
            r == self.check(*manifest),
    {
        validate_non_empty("county_geometry_reconciliation.unit_id", &self.unit_id)?;
        validate_non_empty(
            "county_geometry_reconciliation.assignment_zone_id",
            &self.assignment_zone_id,
        )?;
        validate_non_empty(
            "county_geometry_reconciliation.legal_source_id",
            &self.legal_source_id,
        )?;
        validate_non_empty(
            "county_geometry_reconciliation.geometry_source_id",
            &self.geometry_source_id,
        )?;
        validate_non_empty("county_geometry_reconciliation.evidence_note", &self.evidence_note)?;
        if !manifest.has_source(self.legal_source_id.as_str()) {
            return Err(
                TemporalModelError::UnknownSourceReference {
                    owner_kind: "county_geometry_reconciliation.legal_source_id",
                    source_id: self.legal_source_id.clone(),
                },
            );
        }
        if !manifest.has_source(self.geometry_source_id.as_str()) {
            return Err(
                TemporalModelError::UnknownSourceReference {
                    owner_kind: "county_geometry_reconciliation.geometry_source_id",
                    source_id: self.geometry_source_id.clone(),
                },
            );
        }
        Ok(())
    }
}

impl CountyGeometryReconciliationSet {
    /// The outcomes of checking each row in turn.
    pub open spec fn row_outcomes(self, manifest: SourceManifest) -> Seq<
        Option<TemporalModelError>,
    > {
        Seq::new(
            self.rows@.len(),
            |j: int|
                match self.rows@[j].check(manifest) {
                    Err(e) => Some(e),
                    Ok(_) => None,
                },
        )
    }

    /// The outcome of the checks that precede the counting.
    pub open spec fn check(self, manifest: SourceManifest) -> Result<(), TemporalModelError> {
        if manifest.check() is Err {
            manifest.check()
        } else if self.reconciliation_id@.len() == 0 {
            Err(
                TemporalModelError::EmptyId {
                    kind: "county_geometry_reconciliation_set.reconciliation_id",
                },
            )
        } else if self.source_manifest_id@.len() == 0 {
            Err(
                TemporalModelError::EmptyId {
                    kind: "county_geometry_reconciliation_set.source_manifest_id",
                },
            )
        } else if self.generated_on@.len() == 0 {
            Err(
                TemporalModelError::EmptyId {
                    kind: "county_geometry_reconciliation_set.generated_on",
                },
            )
        } else if self.source_manifest_id@ != manifest.manifest_id@ {
            Err(
                TemporalModelError::UnknownSourceReference {
                    owner_kind: "county_geometry_reconciliation_set.source_manifest_id",
                    source_id: self.source_manifest_id,
                },
            )
        } else {
            first_error(self.row_outcomes(manifest))
        }
    }

    /// The report on a set whose checks pass.
    pub open spec fn summary(self) -> CountyGeometryReconciliationReport {
        let a = self.rows@;
        let reconciled = count_where(a, row_with_status(GeometryReconciliationStatus::Reconciled));
        CountyGeometryReconciliationReport {
            reconciliation_id: self.reconciliation_id,
            source_manifest_id: self.source_manifest_id,
            row_count: a.len() as usize,
            pending_count: count_where(
                a,
                row_with_status(GeometryReconciliationStatus::Pending),
            ) as usize,
            representative_point_matched_count: count_where(
                a,
                row_with_status(GeometryReconciliationStatus::RepresentativePointMatched),
            ) as usize,
            reconciled_count: reconciled as usize,
            split_county_count: count_where(
                a,
                row_with_status(GeometryReconciliationStatus::SplitCounty),
            ) as usize,
            mismatch_count: count_where(
                a,
                row_with_status(GeometryReconciliationStatus::Mismatch),
            ) as usize,
            caveated_row_count: count_where(a, row_has_caveats()) as usize,
            caveat_count: sum_of(a, row_caveat_count()) as usize,
            geometry_reconciliation_ready: a.len() > 0 && reconciled == a.len(),
        }
    }

    /// Validates the manifest, the set's fields, and each row, then counts
    /// statuses and caveats.
    pub fn report(&self, manifest: &SourceManifest) -> (r: Result<
        CountyGeometryReconciliationReport,
        TemporalModelError,
    >)
        requires
            sum_of(self.rows@, row_caveat_count()) <= usize::MAX,
        ensures
            r == match self.check(*manifest) {
                Err(e) => Err(e),
                Ok(_) => Ok(self.summary()),
            },
    {
        manifest.validate()?;
        validate_non_empty(
            "county_geometry_reconciliation_set.reconciliation_id",
            &self.reconciliation_id,
        )?;
        validate_non_empty(
            "county_geometry_reconciliation_set.source_manifest_id",
            &self.source_manifest_id,
        )?;
        validate_non_empty("county_geometry_reconciliation_set.generated_on", &self.generated_on)?;
        if !same_text(self.source_manifest_id.as_str(), manifest.manifest_id.as_str()) {
            return Err(
                TemporalModelError::UnknownSourceReference {
                    owner_kind: "county_geometry_reconciliation_set.source_manifest_id",
                    source_id: self.source_manifest_id.clone(),
                },
            );
        }
        let ghost a = self.rows@;
        let ghost outcomes = self.row_outcomes(*manifest);
        let mut report = CountyGeometryReconciliationReport {
            reconciliation_id: self.reconciliation_id.clone(),
            source_manifest_id: self.source_manifest_id.clone(),
            row_count: self.rows.len(),
            pending_count: 0,
            representative_point_matched_count: 0,
            reconciled_count: 0,
            split_county_count: 0,
            mismatch_count: 0,
            caveated_row_count: 0,
            caveat_count: 0,
            geometry_reconciliation_ready: false,
        };
        let mut i: usize = 0;
        while i < self.rows.len()
            invariant
                a == self.rows@,
                i <= a.len(),
                outcomes == self.row_outcomes(*manifest),
                self.check(*manifest) == first_error(outcomes),
                first_error(outcomes) == first_error_from(outcomes, i as int),
                sum_of(a, row_caveat_count()) <= usize::MAX,
                report.reconciliation_id == self.reconciliation_id,
                report.source_manifest_id == self.source_manifest_id,
                report.row_count == a.len(),
                report.pending_count == count_where(
                    a.take(i as int),
                    row_with_status(GeometryReconciliationStatus::Pending),
                ),
                report.representative_point_matched_count == count_where(
                    a.take(i as int),
                    row_with_status(GeometryReconciliationStatus::RepresentativePointMatched),
                ),
                report.reconciled_count == count_where(
                    a.take(i as int),
                    row_with_status(GeometryReconciliationStatus::Reconciled),
                ),
                report.split_county_count == count_where(
                    a.take(i as int),
                    row_with_status(GeometryReconciliationStatus::SplitCounty),
                ),
                report.mismatch_count == count_where(
                    a.take(i as int),
                    row_with_status(GeometryReconciliationStatus::Mismatch),
                ),
                report.caveated_row_count == count_where(a.take(i as int), row_has_caveats()),
                report.caveat_count == sum_of(a.take(i as int), row_caveat_count()),
            decreases a.len() - i,
        {
            let row = &self.rows[i];
            if let Err(e) = row.validate(manifest) {
                assert(outcomes[i as int] == Some(e));
                return Err(e);
            }
            assert(outcomes[i as int] is None);
            proof {
                lemma_prefix_step(a, i as int);
                lemma_count_bound(a.take(i as int), row_has_caveats());
                lemma_count_bound(a.take(i as int), row_with_status(a[i as int].status));
                lemma_row_caveats_prefix_bound(a, i as int + 1);
            }
            match row.status {
                GeometryReconciliationStatus::Pending => report.pending_count = report.pending_count
                    + 1,
                GeometryReconciliationStatus::RepresentativePointMatched => {
                    report.representative_point_matched_count =
                    report.representative_point_matched_count + 1
                },
                GeometryReconciliationStatus::Reconciled => report.reconciled_count =
                    report.reconciled_count + 1,
                GeometryReconciliationStatus::SplitCounty => report.split_county_count =
                    report.split_county_count + 1,
                GeometryReconciliationStatus::Mismatch => report.mismatch_count =
                    report.mismatch_count + 1,
            }
            if !row.caveats.is_empty() {
                report.caveated_row_count = report.caveated_row_count + 1;
                report.caveat_count = report.caveat_count + row.caveats.len();
            }
            i = i + 1;
        }
        proof {
            lemma_take_all(a);
        }
        report.geometry_reconciliation_ready = report.row_count > 0 && report.reconciled_count
            == report.row_count;
        Ok(report)
    }
}

} // verus!
