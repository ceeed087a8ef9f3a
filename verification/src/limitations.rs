use vstd::prelude::*;

use crate::checks::{
    count_where, first_error, first_error_from, lemma_count_bound, lemma_first_error_ok,
    lemma_prefix_step, lemma_take_all, sum_of,
};
use crate::errors::{validate_non_empty, TemporalModelError};
use crate::sources::SourceKind;
use crate::text::same_text;

verus! {

/// A kind of claim that a source might support.
#[derive(Debug, Clone, Copy, PartialEq, Eq)]
pub enum SourceClaim {
    OffsetRuleHistory,
    CurrentLegalOffset,
    LegalBoundaryGeometry,
    AdministrativeBoundaryGeometry,
    RepresentativePoint,
    PopulationWeights,
    DisplayMetadata,
    HistoricalReconstruction,
}

/// How well a source supports a claim.
#[derive(Debug, Clone, Copy, PartialEq, Eq)]
pub enum SourceSupportLevel {
    Supports,
    Partial,
    NotSupported,
    Unknown,
}

/// One judgement of how a source supports one claim.
#[derive(Debug, Clone, PartialEq, Eq)]
pub struct SourceClaimAssessment {
    pub claim: SourceClaim,
    pub support: SourceSupportLevel,
    pub notes: String,
}

/// The judged limitations of one source family.
#[derive(Debug, Clone, PartialEq, Eq)]
pub struct SourceLimitationEntry {
    pub source_id: String,
    pub source_kind: SourceKind,
    pub title: String,
    pub assessments: Vec<SourceClaimAssessment>,
    pub caveats: Vec<String>,
}

/// The judged limitations of several source families.
#[derive(Debug, Clone, PartialEq, Eq)]
pub struct SourceLimitationMatrix {
    pub matrix_id: String,
    pub generated_on: String,
    pub entries: Vec<SourceLimitationEntry>,
}

/// Support counts over a limitation matrix.
#[derive(Debug, Clone, PartialEq, Eq)]
pub struct SourceLimitationMatrixReport {
    pub matrix_id: String,
    pub entry_count: usize,
    pub assessment_count: usize,
    pub supports_count: usize,
    pub partial_count: usize,
    pub not_supported_count: usize,
    pub unknown_count: usize,
    pub caveated_entry_count: usize,
}

/// What one module owns, must not own, and depends on.
#[derive(Debug, Clone, PartialEq, Eq)]
pub struct ModuleBoundaryEntry {
    pub module_id: String,
    pub owns: Vec<String>,
    pub must_not_own: Vec<String>,
    pub upstream_dependencies: Vec<String>,
    pub downstream_consumers: Vec<String>,
}

/// The ownership boundaries between modules.
#[derive(Debug, Clone, PartialEq, Eq)]
pub struct ModuleBoundaryContract {
    pub contract_id: String,
    pub generated_on: String,
    pub entries: Vec<ModuleBoundaryEntry>,
    pub caveats: Vec<String>,
}

/// Statement counts over a module boundary contract.
#[derive(Debug, Clone, PartialEq, Eq)]
pub struct ModuleBoundaryReport {
    pub contract_id: String,
    pub module_count: usize,
    pub ownership_statement_count: usize,
    pub exclusion_statement_count: usize,
    pub dependency_edge_count: usize,
    pub downstream_edge_count: usize,
    pub caveat_count: usize,
}

/// The outcome of requiring each statement of a list to be non-empty.
pub open spec fn statements_check(kind: &'static str, list: Seq<String>) -> Result<
    (),
    TemporalModelError,
> {
    first_error(
        Seq::new(
            list.len(),
            |j: int|
                if list[j]@.len() == 0 {
                    Some(TemporalModelError::EmptyId { kind })
                } else {
                    None
                },
        ),
    )
}

/// Rejects the first empty statement of a list, naming it by `kind`.
pub fn validate_statements(kind: &'static str, list: &Vec<String>) -> (r: Result<
    (),
    TemporalModelError,
>)
    ensures
        r == statements_check(kind, list@),
{
    let ghost outcomes = Seq::new(
        list@.len(),
        |j: int|
            if list@[j]@.len() == 0 {
                Some(TemporalModelError::EmptyId { kind })
            } else {
                None
            },
    );
    let mut i: usize = 0;
    while i < list.len()
        invariant
            i <= list@.len(),
            outcomes == Seq::new(
                list@.len(),
                |j: int|
                    if list@[j]@.len() == 0 {
                        Some(TemporalModelError::EmptyId { kind })
                    } else {
                        None
                    },
            ),
            first_error(outcomes) == first_error_from(outcomes, i as int),
        decreases list@.len() - i,
    {
        if let Err(e) = validate_non_empty(kind, &list[i]) {
            assert(outcomes[i as int] == Some(e));
            return Err(e);
        }
        assert(outcomes[i as int] is None);
        i = i + 1;
    }
    Ok(())
}

/// Assessments at the given support level.
pub open spec fn assessment_with_support(level: SourceSupportLevel) -> spec_fn(
    SourceClaimAssessment,
) -> bool {
    |a: SourceClaimAssessment| a.support == level
}

/// The number of an entry's assessments at the given support level.
pub open spec fn entry_support_count(level: SourceSupportLevel) -> spec_fn(
    SourceLimitationEntry,
) -> nat {
    |e: SourceLimitationEntry| count_where(e.assessments@, assessment_with_support(level))
}

/// The number of an entry's assessments.
pub open spec fn entry_assessment_count() -> spec_fn(SourceLimitationEntry) -> nat {
    |e: SourceLimitationEntry| e.assessments@.len()
}

/// Entries that carry at least one caveat.
pub open spec fn entry_has_caveats() -> spec_fn(SourceLimitationEntry) -> bool {
    |e: SourceLimitationEntry| e.caveats@.len() > 0
}

/// A pointwise smaller summand gives a smaller sum.
pub proof fn lemma_sum_monotone<T>(s: Seq<T>, f: spec_fn(T) -> nat, g: spec_fn(T) -> nat)
    requires
        forall|x: T| #[trigger] f(x) <= g(x),
    ensures
        sum_of(s, f) <= sum_of(s, g),
    decreases s.len(),
{
    if s.len() > 0 {
        lemma_sum_monotone(s.drop_last(), f, g);
    }
}

/// A sum over a prefix is at most the sum over the whole sequence.
pub proof fn lemma_sum_prefix<T>(s: Seq<T>, f: spec_fn(T) -> nat, n: int)
    requires
        0 <= n <= s.len(),
    ensures
        sum_of(s.take(n), f) <= sum_of(s, f),
    decreases s.len() - n,
{
    if n < s.len() {
        lemma_sum_prefix(s, f, n + 1);
        lemma_prefix_step(s, n);
    } else {
        lemma_take_all(s);
    }
}

impl SourceClaimAssessment {
    /// Requires non-empty notes.
    pub fn validate(&self) -> (r: Result<(), TemporalModelError>)
        ensures
            r == (if self.notes@.len() == 0 {
                Err(TemporalModelError::EmptyId { kind: "source_claim_assessment.notes" })
            } else {
                Ok(())
            }),
    {
        validate_non_empty("source_claim_assessment.notes", &self.notes)
    }
}

impl SourceLimitationEntry {
    /// The outcome of validating an entry.
    pub open spec fn check(self) -> Result<(), TemporalModelError> {
        if self.source_id@.len() == 0 {
            Err(TemporalModelError::EmptyId { kind: "source_limitation_entry.source_id" })
        } else if self.title@.len() == 0 {
            Err(TemporalModelError::EmptyId { kind: "source_limitation_entry.title" })
        } else if self.assessments@.len() == 0 {
            Err(TemporalModelError::EmptySourceAssessments { source_id: self.source_id })
        } else {
            first_error(
                Seq::new(
                    self.assessments@.len(),
                    |j: int|
                        if self.assessments@[j].notes@.len() == 0 {
                            Some(
                                TemporalModelError::EmptyId {
                                    kind: "source_claim_assessment.notes",
                                },
                            )
                        } else {
                            None
                        },
                ),
            )
        }
    }

    /// Requires a non-empty id and title, at least one assessment, and notes on each.
    pub fn validate(&self) -> (r: Result<(), TemporalModelError>)
        ensures
            r == self.check(),
    {
        validate_non_empty("source_limitation_entry.source_id", &self.source_id)?;
        validate_non_empty("source_limitation_entry.title", &self.title)?;
        if self.assessments.len() == 0 {
            return Err(
                TemporalModelError::EmptySourceAssessments { source_id: self.source_id.clone() },
            );
        }
        let ghost outcomes = Seq::new(
            self.assessments@.len(),
            |j: int|
                if self.assessments@[j].notes@.len() == 0 {
                    Some(TemporalModelError::EmptyId { kind: "source_claim_assessment.notes" })
                } else {
                    None
                },
        );
        let mut i: usize = 0;
        while i < self.assessments.len()
            invariant
                i <= self.assessments@.len(),
                self.assessments@.len() > 0,
                self.source_id@.len() > 0,
                self.title@.len() > 0,
                self.check() == first_error(outcomes),
                outcomes == Seq::new(
                    self.assessments@.len(),
                    |j: int|
                        if self.assessments@[j].notes@.len() == 0 {
                            Some(
                                TemporalModelError::EmptyId {
                                    kind: "source_claim_assessment.notes",
                                },
                            )
                        } else {
                            None
                        },
                ),
                first_error(outcomes) == first_error_from(outcomes, i as int),
            decreases self.assessments@.len() - i,
        {
            if let Err(e) = self.assessments[i].validate() {
                assert(outcomes[i as int] == Some(e));
                return Err(e);
            }
            assert(outcomes[i as int] is None);
            i = i + 1;
        }
        Ok(())
    }
}

/// Whether some entry among the first `n` has the given source id.
pub open spec fn id_among_limitation_entries(
    entries: Seq<SourceLimitationEntry>,
    n: int,
    id: Seq<char>,
) -> bool {
    exists|k: int| 0 <= k < n && #[trigger] entries[k].source_id@ == id
}

fn limitation_id_seen(entries: &Vec<SourceLimitationEntry>, n: usize, id: &str) -> (r: bool)
    requires
        n <= entries@.len(),
    ensures
        r == id_among_limitation_entries(entries@, n as int, id@),
{
    let mut k: usize = 0;
    while k < n
        invariant
            n <= entries@.len(),
            k <= n,
            forall|j: int| 0 <= j < k ==> entries@[j].source_id@ != id@,
        decreases n - k,
    {
        if same_text(entries[k].source_id.as_str(), id) {
            assert(entries@[k as int].source_id@ == id@);
            return true;
        }
        k = k + 1;
    }
    false
}

/// What the check of the `j`-th entry of a matrix reports, if anything.
pub open spec fn limitation_entry_outcome(entries: Seq<SourceLimitationEntry>, j: int) -> Option<
    TemporalModelError,
> {
    match entries[j].check() {
        Err(e) => Some(e),
        Ok(_) => if id_among_limitation_entries(entries, j, entries[j].source_id@) {
            Some(
                TemporalModelError::DuplicateSourceLimitationSourceId {
                    source_id: entries[j].source_id,
                },
            )
        } else {
            None
        },
    }
}

impl SourceLimitationMatrix {
    /// The outcomes of checking each entry in turn.
    pub open spec fn entry_outcomes(self) -> Seq<Option<TemporalModelError>> {
        Seq::new(self.entries@.len(), |j: int| limitation_entry_outcome(self.entries@, j))
    }

    /// The outcome of validating a matrix.
    pub open spec fn check(self) -> Result<(), TemporalModelError> {
        if self.matrix_id@.len() == 0 {
            Err(TemporalModelError::EmptyId { kind: "source_limitation_matrix.matrix_id" })
        } else if self.generated_on@.len() == 0 {
            Err(TemporalModelError::EmptyId { kind: "source_limitation_matrix.generated_on" })
        } else {
            first_error(self.entry_outcomes())
        }
    }

    /// The report on a valid matrix.
    pub open spec fn summary(self) -> SourceLimitationMatrixReport {
        let e = self.entries@;
        SourceLimitationMatrixReport {
            matrix_id: self.matrix_id,
            entry_count: e.len() as usize,
            assessment_count: sum_of(e, entry_assessment_count()) as usize,
            supports_count: sum_of(
                e,
                entry_support_count(SourceSupportLevel::Supports),
            ) as usize,
            partial_count: sum_of(e, entry_support_count(SourceSupportLevel::Partial)) as usize,
            not_supported_count: sum_of(
                e,
                entry_support_count(SourceSupportLevel::NotSupported),
            ) as usize,
            unknown_count: sum_of(e, entry_support_count(SourceSupportLevel::Unknown)) as usize,
            caveated_entry_count: count_where(e, entry_has_caveats()) as usize,
        }
    }

    /// Requires a non-empty id and date, valid entries, and no repeated source id.
    pub fn validate(&self) -> (r: Result<(), TemporalModelError>)
        ensures
            r == self.check(),
    {
        validate_non_empty("source_limitation_matrix.matrix_id", &self.matrix_id)?;
        validate_non_empty("source_limitation_matrix.generated_on", &self.generated_on)?;
        let ghost outcomes = self.entry_outcomes();
        let mut i: usize = 0;
        while i < self.entries.len()
            invariant
                i <= self.entries@.len(),
                outcomes == self.entry_outcomes(),
                self.check() == first_error(outcomes),
                first_error(outcomes) == first_error_from(outcomes, i as int),
            decreases self.entries@.len() - i,
        {
            let entry = &self.entries[i];
            if let Err(e) = entry.validate() {
                assert(outcomes[i as int] == Some(e));
                return Err(e);
            }
            if limitation_id_seen(&self.entries, i, entry.source_id.as_str()) {
                let e = TemporalModelError::DuplicateSourceLimitationSourceId {
                    source_id: entry.source_id.clone(),
                };
                assert(outcomes[i as int] == Some(e));
                return Err(e);
            }
            assert(outcomes[i as int] is None);
            i = i + 1;
        }
        Ok(())
    }

    /// Validates the matrix, then counts its assessments by support level.
    pub fn report(&self) -> (r: Result<SourceLimitationMatrixReport, TemporalModelError>)
        requires
            sum_of(self.entries@, entry_assessment_count()) <= usize::MAX,
        ensures
            r == match self.check() {
                Err(e) => Err(e),
                Ok(_) => Ok(self.summary()),
            },
    {
        self.validate()?;
        let ghost e = self.entries@;
        let mut report = SourceLimitationMatrixReport {
            matrix_id: self.matrix_id.clone(),
            entry_count: self.entries.len(),
            assessment_count: 0,
            supports_count: 0,
            partial_count: 0,
            not_supported_count: 0,
            unknown_count: 0,
            caveated_entry_count: 0,
        };
        proof {
            assert forall|x: SourceLimitationEntry| #[trigger]
                entry_support_count(SourceSupportLevel::Supports)(x)
                    <= entry_assessment_count()(x) by {
                lemma_count_bound(x.assessments@, assessment_with_support(SourceSupportLevel::Supports));
            }
            assert forall|x: SourceLimitationEntry| #[trigger]
                entry_support_count(SourceSupportLevel::Partial)(x)
                    <= entry_assessment_count()(x) by {
                lemma_count_bound(x.assessments@, assessment_with_support(SourceSupportLevel::Partial));
            }
            assert forall|x: SourceLimitationEntry| #[trigger]
                entry_support_count(SourceSupportLevel::NotSupported)(x)
                    <= entry_assessment_count()(x) by {
                lemma_count_bound(
                    x.assessments@,
                    assessment_with_support(SourceSupportLevel::NotSupported),
                );
            }
            assert forall|x: SourceLimitationEntry| #[trigger]
                entry_support_count(SourceSupportLevel::Unknown)(x)
                    <= entry_assessment_count()(x) by {
                lemma_count_bound(x.assessments@, assessment_with_support(SourceSupportLevel::Unknown));
            }
        }
        let mut i: usize = 0;
        while i < self.entries.len()
            invariant
                e == self.entries@,
                i <= e.len(),
                sum_of(e, entry_assessment_count()) <= usize::MAX,
                forall|x: SourceLimitationEntry| #[trigger]
                    entry_support_count(SourceSupportLevel::Supports)(x)
                        <= entry_assessment_count()(x),
                forall|x: SourceLimitationEntry| #[trigger]
                    entry_support_count(SourceSupportLevel::Partial)(x)
                        <= entry_assessment_count()(x),
                forall|x: SourceLimitationEntry| #[trigger]
                    entry_support_count(SourceSupportLevel::NotSupported)(x)
                        <= entry_assessment_count()(x),
                forall|x: SourceLimitationEntry| #[trigger]
                    entry_support_count(SourceSupportLevel::Unknown)(x)
                        <= entry_assessment_count()(x),
                report.matrix_id == self.matrix_id,
                report.entry_count == e.len(),
                report.assessment_count == sum_of(e.take(i as int), entry_assessment_count()),
                report.supports_count == sum_of(
                    e.take(i as int),
                    entry_support_count(SourceSupportLevel::Supports),
                ),
                report.partial_count == sum_of(
                    e.take(i as int),
                    entry_support_count(SourceSupportLevel::Partial),
                ),
                report.not_supported_count == sum_of(
                    e.take(i as int),
                    entry_support_count(SourceSupportLevel::NotSupported),
                ),
                report.unknown_count == sum_of(
                    e.take(i as int),
                    entry_support_count(SourceSupportLevel::Unknown),
                ),
                report.caveated_entry_count == count_where(e.take(i as int), entry_has_caveats()),
            decreases e.len() - i,
        {
            proof {
                lemma_prefix_step(e, i as int);
                lemma_count_bound(e.take(i as int), entry_has_caveats());
                lemma_sum_prefix(e, entry_assessment_count(), i as int + 1);
                lemma_sum_monotone(
                    e.take(i as int + 1),
                    entry_support_count(SourceSupportLevel::Supports),
                    entry_assessment_count(),
                );
                lemma_sum_monotone(
                    e.take(i as int + 1),
                    entry_support_count(SourceSupportLevel::Partial),
                    entry_assessment_count(),
                );
                lemma_sum_monotone(
                    e.take(i as int + 1),
                    entry_support_count(SourceSupportLevel::NotSupported),
                    entry_assessment_count(),
                );
                lemma_sum_monotone(
                    e.take(i as int + 1),
                    entry_support_count(SourceSupportLevel::Unknown),
                    entry_assessment_count(),
                );
            }
            let entry = &self.entries[i];
            if !entry.caveats.is_empty() {
                report.caveated_entry_count = report.caveated_entry_count + 1;
            }
            let ghost a = entry.assessments@;
            let ghost base = report;
            let mut j: usize = 0;
            while j < entry.assessments.len()
                invariant
                    a == entry.assessments@,
                    j <= a.len(),
                    report.matrix_id == base.matrix_id,
                    report.entry_count == base.entry_count,
                    report.caveated_entry_count == base.caveated_entry_count,
                    report.assessment_count == base.assessment_count + j,
                    report.supports_count == base.supports_count + count_where(
                        a.take(j as int),
                        assessment_with_support(SourceSupportLevel::Supports),
                    ),
                    report.partial_count == base.partial_count + count_where(
                        a.take(j as int),
                        assessment_with_support(SourceSupportLevel::Partial),
                    ),
                    report.not_supported_count == base.not_supported_count + count_where(
                        a.take(j as int),
                        assessment_with_support(SourceSupportLevel::NotSupported),
                    ),
                    report.unknown_count == base.unknown_count + count_where(
                        a.take(j as int),
                        assessment_with_support(SourceSupportLevel::Unknown),
                    ),
                    base.assessment_count + a.len() <= usize::MAX,
                    base.supports_count + count_where(
                        a,
                        assessment_with_support(SourceSupportLevel::Supports),
                    ) <= usize::MAX,
                    base.partial_count + count_where(
                        a,
                        assessment_with_support(SourceSupportLevel::Partial),
                    ) <= usize::MAX,
                    base.not_supported_count + count_where(
                        a,
                        assessment_with_support(SourceSupportLevel::NotSupported),
                    ) <= usize::MAX,
                    base.unknown_count + count_where(
                        a,
                        assessment_with_support(SourceSupportLevel::Unknown),
                    ) <= usize::MAX,
                decreases a.len() - j,
            {
                proof {
                    lemma_prefix_step(a, j as int);
                    lemma_count_prefix(a, assessment_with_support(a[j as int].support), j as int + 1);
                }
                report.assessment_count = report.assessment_count + 1;
                match entry.assessments[j].support {
                    SourceSupportLevel::Supports => report.supports_count = report.supports_count
                        + 1,
                    SourceSupportLevel::Partial => report.partial_count = report.partial_count + 1,
                    SourceSupportLevel::NotSupported => report.not_supported_count =
                        report.not_supported_count + 1,
                    SourceSupportLevel::Unknown => report.unknown_count = report.unknown_count + 1,
                }
                j = j + 1;
            }
            proof {
                lemma_take_all(a);
            }
            i = i + 1;
        }
        proof {
            lemma_take_all(e);
        }
        Ok(report)
    }
}

/// A count over a prefix is at most the count over the whole sequence.
pub proof fn lemma_count_prefix<T>(s: Seq<T>, p: spec_fn(T) -> bool, n: int)
    requires
        0 <= n <= s.len(),
    ensures
        count_where(s.take(n), p) <= count_where(s, p),
    decreases s.len() - n,
{
    if n < s.len() {
        lemma_count_prefix(s, p, n + 1);
        lemma_prefix_step(s, n);
    } else {
        lemma_take_all(s);
    }
}

/// The number of an entry's ownership statements.
pub open spec fn entry_owns_count() -> spec_fn(ModuleBoundaryEntry) -> nat {
    |e: ModuleBoundaryEntry| e.owns@.len()
}

/// The number of an entry's exclusion statements.
pub open spec fn entry_exclusion_count() -> spec_fn(ModuleBoundaryEntry) -> nat {
    |e: ModuleBoundaryEntry| e.must_not_own@.len()
}

/// The number of an entry's upstream dependencies.
pub open spec fn entry_dependency_count() -> spec_fn(ModuleBoundaryEntry) -> nat {
    |e: ModuleBoundaryEntry| e.upstream_dependencies@.len()
}

/// The number of an entry's downstream consumers.
pub open spec fn entry_consumer_count() -> spec_fn(ModuleBoundaryEntry) -> nat {
    |e: ModuleBoundaryEntry| e.downstream_consumers@.len()
}

impl ModuleBoundaryEntry {
    /// The outcome of validating an entry.
    pub open spec fn check(self) -> Result<(), TemporalModelError> {
        if self.module_id@.len() == 0 {
            Err(TemporalModelError::EmptyId { kind: "module_boundary_entry.module_id" })
        } else if self.owns@.len() == 0 {
            Err(TemporalModelError::EmptyModuleOwnership { module_id: self.module_id })
        } else if statements_check("module_boundary_entry.owns", self.owns@) is Err {
            statements_check("module_boundary_entry.owns", self.owns@)
        } else if statements_check("module_boundary_entry.must_not_own", self.must_not_own@) is Err {
            statements_check("module_boundary_entry.must_not_own", self.must_not_own@)
        } else if statements_check(
            "module_boundary_entry.upstream_dependencies",
            self.upstream_dependencies@,
        ) is Err {
            statements_check(
                "module_boundary_entry.upstream_dependencies",
                self.upstream_dependencies@,
            )
        } else {
            statements_check(
                "module_boundary_entry.downstream_consumers",
                self.downstream_consumers@,
            )
        }
    }

    /// Requires a non-empty id, at least one ownership statement, and no empty statement.
    pub fn validate(&self) -> (r: Result<(), TemporalModelError>)
        ensures
            r == self.check(),
    {
        validate_non_empty("module_boundary_entry.module_id", &self.module_id)?;
        if self.owns.len() == 0 {
            return Err(TemporalModelError::EmptyModuleOwnership { module_id: self.module_id.clone() });
        }
        validate_statements("module_boundary_entry.owns", &self.owns)?;
        validate_statements("module_boundary_entry.must_not_own", &self.must_not_own)?;
        validate_statements(
            "module_boundary_entry.upstream_dependencies",
            &self.upstream_dependencies,
        )?;
        validate_statements("module_boundary_entry.downstream_consumers", &self.downstream_consumers)
    }
}

/// Whether some entry among the first `n` has the given module id.
pub open spec fn id_among_modules(entries: Seq<ModuleBoundaryEntry>, n: int, id: Seq<char>) -> bool {
    exists|k: int| 0 <= k < n && #[trigger] entries[k].module_id@ == id
}

fn module_id_seen(entries: &Vec<ModuleBoundaryEntry>, n: usize, id: &str) -> (r: bool)
    requires
        n <= entries@.len(),
    ensures
        r == id_among_modules(entries@, n as int, id@),
{
    let mut k: usize = 0;
    while k < n
        invariant
            n <= entries@.len(),
            k <= n,
            forall|j: int| 0 <= j < k ==> entries@[j].module_id@ != id@,
        decreases n - k,
    {
        if same_text(entries[k].module_id.as_str(), id) {
            assert(entries@[k as int].module_id@ == id@);
            return true;
        }
        k = k + 1;
    }
    false
}

/// What the check of the `j`-th entry of a contract reports, if anything.
pub open spec fn module_entry_outcome(entries: Seq<ModuleBoundaryEntry>, j: int) -> Option<
    TemporalModelError,
> {
    match entries[j].check() {
        Err(e) => Some(e),
        Ok(_) => if id_among_modules(entries, j, entries[j].module_id@) {
            Some(
                TemporalModelError::DuplicateModuleBoundaryModuleId {
                    module_id: entries[j].module_id,
                },
            )
        } else {
            None
        },
    }
}

impl ModuleBoundaryContract {
    /// The outcomes of checking each entry in turn.
    pub open spec fn entry_outcomes(self) -> Seq<Option<TemporalModelError>> {
        Seq::new(self.entries@.len(), |j: int| module_entry_outcome(self.entries@, j))
    }

    /// The outcome of validating a contract.
    pub open spec fn check(self) -> Result<(), TemporalModelError> {
        if self.contract_id@.len() == 0 {
            Err(TemporalModelError::EmptyId { kind: "module_boundary_contract.contract_id" })
        } else if self.generated_on@.len() == 0 {
            Err(TemporalModelError::EmptyId { kind: "module_boundary_contract.generated_on" })
        } else {
            first_error(self.entry_outcomes())
        }
    }

    /// The report on a valid contract.
    pub open spec fn summary(self) -> ModuleBoundaryReport {
        let e = self.entries@;
        ModuleBoundaryReport {
            contract_id: self.contract_id,
            module_count: e.len() as usize,
            ownership_statement_count: sum_of(e, entry_owns_count()) as usize,
            exclusion_statement_count: sum_of(e, entry_exclusion_count()) as usize,
            dependency_edge_count: sum_of(e, entry_dependency_count()) as usize,
            downstream_edge_count: sum_of(e, entry_consumer_count()) as usize,
            caveat_count: self.caveats@.len() as usize,
        }
    }

    /// Requires a non-empty id and date, valid entries, and no repeated module id.
    pub fn validate(&self) -> (r: Result<(), TemporalModelError>)
        ensures
            r == self.check(),
    {
        validate_non_empty("module_boundary_contract.contract_id", &self.contract_id)?;
        validate_non_empty("module_boundary_contract.generated_on", &self.generated_on)?;
        let ghost outcomes = self.entry_outcomes();
        let mut i: usize = 0;
        while i < self.entries.len()
            invariant
                i <= self.entries@.len(),
                outcomes == self.entry_outcomes(),
                self.check() == first_error(outcomes),
                first_error(outcomes) == first_error_from(outcomes, i as int),
            decreases self.entries@.len() - i,
        {
            let entry = &self.entries[i];
            if let Err(e) = entry.validate() {
                assert(outcomes[i as int] == Some(e));
                return Err(e);
            }
            if module_id_seen(&self.entries, i, entry.module_id.as_str()) {
                let e = TemporalModelError::DuplicateModuleBoundaryModuleId {
                    module_id: entry.module_id.clone(),
                };
                assert(outcomes[i as int] == Some(e));
                return Err(e);
            }
            assert(outcomes[i as int] is None);
            i = i + 1;
        }
        Ok(())
    }

    /// Validates the contract, then counts its statements and edges.
    pub fn report(&self) -> (r: Result<ModuleBoundaryReport, TemporalModelError>)
        requires
            sum_of(self.entries@, entry_owns_count()) <= usize::MAX,
            sum_of(self.entries@, entry_exclusion_count()) <= usize::MAX,
            sum_of(self.entries@, entry_dependency_count()) <= usize::MAX,
            sum_of(self.entries@, entry_consumer_count()) <= usize::MAX,
        ensures
            r == match self.check() {
                Err(e) => Err(e),
                Ok(_) => Ok(self.summary()),
            },
    {
        self.validate()?;
        let ghost e = self.entries@;
        let mut owns: usize = 0;
        let mut exclusions: usize = 0;
        let mut dependencies: usize = 0;
        let mut consumers: usize = 0;
        let mut i: usize = 0;
        while i < self.entries.len()
            invariant
                e == self.entries@,
                i <= e.len(),
                sum_of(e, entry_owns_count()) <= usize::MAX,
                sum_of(e, entry_exclusion_count()) <= usize::MAX,
                sum_of(e, entry_dependency_count()) <= usize::MAX,
                sum_of(e, entry_consumer_count()) <= usize::MAX,
                owns == sum_of(e.take(i as int), entry_owns_count()),
                exclusions == sum_of(e.take(i as int), entry_exclusion_count()),
                dependencies == sum_of(e.take(i as int), entry_dependency_count()),
                consumers == sum_of(e.take(i as int), entry_consumer_count()),
            decreases e.len() - i,
        {
            proof {
                lemma_prefix_step(e, i as int);
                lemma_sum_prefix(e, entry_owns_count(), i as int + 1);
                lemma_sum_prefix(e, entry_exclusion_count(), i as int + 1);
                lemma_sum_prefix(e, entry_dependency_count(), i as int + 1);
                lemma_sum_prefix(e, entry_consumer_count(), i as int + 1);
            }
            let entry = &self.entries[i];
            owns = owns + entry.owns.len();
            exclusions = exclusions + entry.must_not_own.len();
            dependencies = dependencies + entry.upstream_dependencies.len();
            consumers = consumers + entry.downstream_consumers.len();
            i = i + 1;
        }
        proof {
            lemma_take_all(e);
        }
        Ok(
            ModuleBoundaryReport {
                contract_id: self.contract_id.clone(),
                module_count: self.entries.len(),
                ownership_statement_count: owns,
                exclusion_statement_count: exclusions,
                dependency_edge_count: dependencies,
                downstream_edge_count: consumers,
                caveat_count: self.caveats.len(),
            },
        )
    }
}

/// A list of non-empty statements passes its statement check.
pub proof fn lemma_statements_ok(kind: &'static str, list: Seq<String>)
    requires
        forall|j: int| 0 <= j < list.len() ==> (#[trigger] list[j])@.len() > 0,
    ensures
        statements_check(kind, list) is Ok,
{
    lemma_first_error_ok(
        Seq::new(
            list.len(),
            |j: int|
                if list[j]@.len() == 0 {
                    Some(TemporalModelError::EmptyId { kind })
                } else {
                    None
                },
        ),
    );
}

/// An entry with an id, a title, and at least one assessment, each with
/// notes, passes its check.
pub proof fn lemma_limitation_entry_ok(e: SourceLimitationEntry)
    requires
        e.source_id@.len() > 0,
        e.title@.len() > 0,
        e.assessments@.len() > 0,
        forall|j: int| 0 <= j < e.assessments@.len() ==> (#[trigger] e.assessments@[j]).notes@.len() > 0,
    ensures
        e.check() is Ok,
{
    lemma_first_error_ok(
        Seq::new(
            e.assessments@.len(),
            |j: int|
                if e.assessments@[j].notes@.len() == 0 {
                    Some(TemporalModelError::EmptyId { kind: "source_claim_assessment.notes" })
                } else {
                    None
                },
        ),
    );
}

} // verus!
