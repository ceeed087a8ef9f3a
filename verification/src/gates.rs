use vstd::prelude::*;

use crate::checks::{
    count_where, first_error, first_error_from, lemma_count_bound, lemma_prefix_step,
    lemma_take_all, sum_of,
};
use crate::errors::{non_empty_check, validate_non_empty, TemporalModelError};
use crate::sources::SourceManifest;
use crate::text::{
    insert_sorted, lemma_increasing_len, same_text, sorted_filter_by_membership,
    strictly_increasing, views,
};

verus! {

/// How a source is expected to be acquired.
#[derive(Debug, Clone, Copy, PartialEq, Eq)]
pub enum SourceAcquisitionMode {
    ManualReference,
    FletchCandidate,
    LocalDerived,
    SyntheticFixture,
    Imported,
}

/// What may be cached of a source.
#[derive(Debug, Clone, Copy, PartialEq, Eq)]
pub enum SourceCachePolicy {
    ReferenceOnly,
    IgnoredLocalCache,
    DerivedMetadataOnly,
    CommittedFixture,
}

/// The acquisition gate for one source.
#[derive(Debug, Clone, PartialEq, Eq)]
pub struct SourceGateEntry {
    pub source_id: String,
    pub acquisition_mode: SourceAcquisitionMode,
    pub cache_policy: SourceCachePolicy,
    pub rights_posture: String,
    pub expected_artifact: String,
    pub hash_required: bool,
    pub gate_notes: Vec<String>,
}

/// The acquisition gates for the sources of one manifest.
#[derive(Debug, Clone, PartialEq, Eq)]
pub struct SourceGatePolicy {
    pub policy_id: String,
    pub source_manifest_id: String,
    pub generated_on: String,
    pub entries: Vec<SourceGateEntry>,
}

/// How a gate policy covers a manifest.
#[derive(Debug, Clone, PartialEq, Eq)]
pub struct SourceGateReport {
    pub policy_id: String,
    pub source_manifest_id: String,
    pub source_count: usize,
    pub policy_entry_count: usize,
    pub covered_source_count: usize,
    pub missing_source_ids: Vec<String>,
    pub extra_entry_source_ids: Vec<String>,
    pub manual_reference_count: usize,
    pub fletch_candidate_count: usize,
    pub local_derived_count: usize,
    pub synthetic_fixture_count: usize,
    pub imported_count: usize,
    pub reference_only_count: usize,
    pub ignored_local_cache_count: usize,
    pub derived_metadata_only_count: usize,
    pub committed_fixture_count: usize,
    pub hash_required_count: usize,
    pub gate_note_count: usize,
    pub source_gate_ready: bool,
}

/// Entries with the given acquisition mode.
pub open spec fn entry_with_mode(mode: SourceAcquisitionMode) -> spec_fn(SourceGateEntry) -> bool {
    |e: SourceGateEntry| e.acquisition_mode == mode
}

/// Entries with the given cache policy.
pub open spec fn entry_with_cache(policy: SourceCachePolicy) -> spec_fn(SourceGateEntry) -> bool {
    |e: SourceGateEntry| e.cache_policy == policy
}

/// Entries that require a content hash.
pub open spec fn entry_requires_hash() -> spec_fn(SourceGateEntry) -> bool {
    |e: SourceGateEntry| e.hash_required
}

/// The number of gate notes of an entry.
pub open spec fn entry_note_count() -> spec_fn(SourceGateEntry) -> nat {
    |e: SourceGateEntry| e.gate_notes@.len()
}

/// Whether some entry among the first `n` has the given source id.
pub open spec fn id_among_entries(entries: Seq<SourceGateEntry>, n: int, id: Seq<char>) -> bool {
    exists|k: int| 0 <= k < n && #[trigger] entries[k].source_id@ == id
}

/// Whether the first `n` entries include one with the source id `id`.
fn entry_id_seen(entries: &Vec<SourceGateEntry>, n: usize, id: &str) -> (r: bool)
    requires
        n <= entries@.len(),
    ensures
        r == id_among_entries(entries@, n as int, id@),
{
    let mut k: usize = 0;
    while k < n
        invariant
            n <= entries@.len(),
            k <= n,
            forall|j: int| 0 <= j < k ==> entries@[j].source_id@ != id@,
        decreases n - k,
    {
        if same_text(entries[k].source_id.as_str(), id) {
            assert(entries@[k as int].source_id@ == id@);
            return true;
        }
        k = k + 1;
    }
    false
}

impl SourceGateEntry {
    /// The outcome of validating an entry.
    pub open spec fn check(self) -> Result<(), TemporalModelError> {
        if self.source_id@.len() == 0 {
            Err(TemporalModelError::EmptyId { kind: "source_gate_entry.source_id" })
        } else if self.rights_posture@.len() == 0 {
            Err(TemporalModelError::EmptyId { kind: "source_gate_entry.rights_posture" })
        } else {
            non_empty_check("source_gate_entry.expected_artifact", self.expected_artifact@)
        }
    }

    /// Requires a non-empty source id, rights posture, and expected artifact.
    pub fn validate(&self) -> (r: Result<(), TemporalModelError>)
        ensures
            r == self.check(),
    {
        validate_non_empty("source_gate_entry.source_id", &self.source_id)?;
        validate_non_empty("source_gate_entry.rights_posture", &self.rights_posture)?;
        validate_non_empty("source_gate_entry.expected_artifact", &self.expected_artifact)
    }
}

/// What the check of the `j`-th entry of a policy reports, if anything.
pub open spec fn gate_entry_outcome(entries: Seq<SourceGateEntry>, j: int) -> Option<
    TemporalModelError,
> {
    match entries[j].check() {
        Err(e) => Some(e),
        Ok(_) => if id_among_entries(entries, j, entries[j].source_id@) {
            Some(
                TemporalModelError::DuplicateSourceGateEntrySourceId {
                    source_id: entries[j].source_id,
                },
            )
        } else {
            None
        },
    }
}

impl SourceGatePolicy {
    /// The outcomes of checking each entry in turn.
    pub open spec fn entry_outcomes(self) -> Seq<Option<TemporalModelError>> {
        Seq::new(self.entries@.len(), |j: int| gate_entry_outcome(self.entries@, j))
    }

    /// The outcome of validating a policy.
    pub open spec fn check(self) -> Result<(), TemporalModelError> {
        if self.policy_id@.len() == 0 {
            Err(TemporalModelError::EmptyId { kind: "source_gate_policy.policy_id" })
        } else if self.source_manifest_id@.len() == 0 {
            Err(TemporalModelError::EmptyId { kind: "source_gate_policy.source_manifest_id" })
        } else if self.generated_on@.len() == 0 {
            Err(TemporalModelError::EmptyId { kind: "source_gate_policy.generated_on" })
        } else {
            first_error(self.entry_outcomes())
        }
    }

    /// The source ids that the policy gates.
    pub open spec fn id_set(self) -> Set<Seq<char>> {
        Set::new(|x: Seq<char>| id_among_entries(self.entries@, self.entries@.len() as int, x))
    }

    /// What a report on a valid policy and manifest holds, besides its two id lists.
    pub open spec fn report_matches(self, manifest: SourceManifest, r: SourceGateReport) -> bool {
        let e = self.entries@;
        let missing = manifest.id_set().difference(self.id_set());
        let extra = self.id_set().difference(manifest.id_set());
        &&& r.policy_id == self.policy_id
        &&& r.source_manifest_id == self.source_manifest_id
        &&& r.source_count == manifest.sources@.len()
        &&& r.policy_entry_count == e.len()
        &&& r.covered_source_count == manifest.id_set().intersect(self.id_set()).len()
        &&& strictly_increasing(views(r.missing_source_ids@))
        &&& views(r.missing_source_ids@).to_set() == missing
        &&& strictly_increasing(views(r.extra_entry_source_ids@))
        &&& views(r.extra_entry_source_ids@).to_set() == extra
        &&& r.manual_reference_count == count_where(
            e,
            entry_with_mode(SourceAcquisitionMode::ManualReference),
        )
        &&& r.fletch_candidate_count == count_where(
            e,
            entry_with_mode(SourceAcquisitionMode::FletchCandidate),
        )
        &&& r.local_derived_count == count_where(
            e,
            entry_with_mode(SourceAcquisitionMode::LocalDerived),
        )
        &&& r.synthetic_fixture_count == count_where(
            e,
            entry_with_mode(SourceAcquisitionMode::SyntheticFixture),
        )
        &&& r.imported_count == count_where(e, entry_with_mode(SourceAcquisitionMode::Imported))
        &&& r.reference_only_count == count_where(
            e,
            entry_with_cache(SourceCachePolicy::ReferenceOnly),
        )
        &&& r.ignored_local_cache_count == count_where(
            e,
            entry_with_cache(SourceCachePolicy::IgnoredLocalCache),
        )
        &&& r.derived_metadata_only_count == count_where(
            e,
            entry_with_cache(SourceCachePolicy::DerivedMetadataOnly),
        )
        &&& r.committed_fixture_count == count_where(
            e,
            entry_with_cache(SourceCachePolicy::CommittedFixture),
        )
        &&& r.hash_required_count == count_where(e, entry_requires_hash())
        &&& r.gate_note_count == sum_of(e, entry_note_count())
        &&& r.source_gate_ready == (self.source_manifest_id@ == manifest.manifest_id@
            && r.covered_source_count == r.source_count && r.policy_entry_count == r.source_count
            && extra.len() == 0 && r.hash_required_count > 0)
    }

    /// The distinct gated source ids, in increasing text order.
    pub fn entry_source_ids(&self) -> (ids: Vec<String>)
        ensures
            strictly_increasing(views(ids@)),
            forall|x: Seq<char>| views(ids@).contains(x) <==> self.id_set().contains(x),
    {
        let mut ids: Vec<String> = Vec::new();
        let mut i: usize = 0;
        while i < self.entries.len()
            invariant
                i <= self.entries@.len(),
                strictly_increasing(views(ids@)),
                forall|x: Seq<char>|
                    views(ids@).contains(x) <==> id_among_entries(self.entries@, i as int, x),
            decreases self.entries@.len() - i,
        {
            insert_sorted(&mut ids, self.entries[i].source_id.clone());
            proof {
                assert forall|x: Seq<char>|
                    views(ids@).contains(x) <==> id_among_entries(
                        self.entries@,
                        i + 1,
                        x,
                    ) by {
                    if id_among_entries(self.entries@, i + 1, x) {
                        let k = choose|k: int|
                            0 <= k < i + 1 && #[trigger] self.entries@[k].source_id@ == x;
                        if k < i {
                            assert(id_among_entries(self.entries@, i as int, x));
                        }
                    }
                    if id_among_entries(self.entries@, i as int, x) {
                        let k = choose|k: int|
                            0 <= k < i && #[trigger] self.entries@[k].source_id@ == x;
                        assert(self.entries@[k].source_id@ == x);
                    }
                    if x == self.entries@[i as int].source_id@ {
                        assert(self.entries@[i as int].source_id@ == x);
                    }
                }
            }
            i = i + 1;
        }
        ids
    }

    /// Requires non-empty ids and date, valid entries, and no repeated source id.
    pub fn validate(&self) -> (r: Result<(), TemporalModelError>)
        ensures
            r == self.check(),
    {
        validate_non_empty("source_gate_policy.policy_id", &self.policy_id)?;
        validate_non_empty("source_gate_policy.source_manifest_id", &self.source_manifest_id)?;
        validate_non_empty("source_gate_policy.generated_on", &self.generated_on)?;
        let ghost outcomes = self.entry_outcomes();
        let mut i: usize = 0;
        while i < self.entries.len()
            invariant
                i <= self.entries@.len(),
                outcomes == self.entry_outcomes(),
                self.check() == first_error(outcomes),
                first_error(outcomes) == first_error_from(outcomes, i as int),
            decreases self.entries@.len() - i,
        {
            let entry = &self.entries[i];
            if let Err(e) = entry.validate() {
                assert(outcomes[i as int] == Some(e));
                return Err(e);
            }
            if entry_id_seen(&self.entries, i, entry.source_id.as_str()) {
                let e = TemporalModelError::DuplicateSourceGateEntrySourceId {
                    source_id: entry.source_id.clone(),
                };
                assert(outcomes[i as int] == Some(e));
                return Err(e);
            }
            assert(outcomes[i as int] is None);
            i = i + 1;
        }
        Ok(())
    }

    /// Validates the policy and the manifest, then reports which manifest
    /// sources the policy covers, misses, or adds, and counts its gates.
    pub fn report(&self, manifest: &SourceManifest) -> (r: Result<SourceGateReport, TemporalModelError>)
        requires
            sum_of(self.entries@, entry_note_count()) <= usize::MAX,
        ensures
            self.check() matches Err(e) ==> r == Err::<SourceGateReport, TemporalModelError>(e),
            self.check() is Ok ==> (manifest.check() matches Err(e) ==> r == Err::<
                SourceGateReport,
                TemporalModelError,
            >(e)),
            self.check() is Ok && manifest.check() is Ok ==> (r matches Ok(report)
                && self.report_matches(*manifest, report)),
    {
        self.validate()?;
        manifest.validate()?;
        let manifest_ids = manifest.source_ids();
        let policy_ids = self.entry_source_ids();
        let missing_source_ids = sorted_filter_by_membership(&manifest_ids, &policy_ids, false);
        let extra_entry_source_ids = sorted_filter_by_membership(&policy_ids, &manifest_ids, false);
        let covered = sorted_filter_by_membership(&manifest_ids, &policy_ids, true);
        proof {
            lemma_increasing_len(
                views(missing_source_ids@),
                manifest.id_set().difference(self.id_set()),
            );
            lemma_increasing_len(
                views(extra_entry_source_ids@),
                self.id_set().difference(manifest.id_set()),
            );
            lemma_increasing_len(views(covered@), manifest.id_set().intersect(self.id_set()));
        }
        let ghost e = self.entries@;
        let mut report = SourceGateReport {
            policy_id: self.policy_id.clone(),
            source_manifest_id: self.source_manifest_id.clone(),
            source_count: manifest.sources.len(),
            policy_entry_count: self.entries.len(),
            covered_source_count: covered.len(),
            missing_source_ids,
            extra_entry_source_ids,
            manual_reference_count: 0,
            fletch_candidate_count: 0,
            local_derived_count: 0,
            synthetic_fixture_count: 0,
            imported_count: 0,
            reference_only_count: 0,
            ignored_local_cache_count: 0,
            derived_metadata_only_count: 0,
            committed_fixture_count: 0,
            hash_required_count: 0,
            gate_note_count: 0,
            source_gate_ready: false,
        };
        let mut i: usize = 0;
        while i < self.entries.len()
            invariant
                e == self.entries@,
                i <= e.len(),
                sum_of(e, entry_note_count()) <= usize::MAX,
                report.manual_reference_count == count_where(
                    e.take(i as int),
                    entry_with_mode(SourceAcquisitionMode::ManualReference),
                ),
                report.fletch_candidate_count == count_where(
                    e.take(i as int),
                    entry_with_mode(SourceAcquisitionMode::FletchCandidate),
                ),
                report.local_derived_count == count_where(
                    e.take(i as int),
                    entry_with_mode(SourceAcquisitionMode::LocalDerived),
                ),
                report.synthetic_fixture_count == count_where(
                    e.take(i as int),
                    entry_with_mode(SourceAcquisitionMode::SyntheticFixture),
                ),
                report.imported_count == count_where(
                    e.take(i as int),
                    entry_with_mode(SourceAcquisitionMode::Imported),
                ),
                report.reference_only_count == count_where(
                    e.take(i as int),
                    entry_with_cache(SourceCachePolicy::ReferenceOnly),
                ),
                report.ignored_local_cache_count == count_where(
                    e.take(i as int),
                    entry_with_cache(SourceCachePolicy::IgnoredLocalCache),
                ),
                report.derived_metadata_only_count == count_where(
                    e.take(i as int),
                    entry_with_cache(SourceCachePolicy::DerivedMetadataOnly),
                ),
                report.committed_fixture_count == count_where(
                    e.take(i as int),
                    entry_with_cache(SourceCachePolicy::CommittedFixture),
                ),
                report.hash_required_count == count_where(e.take(i as int), entry_requires_hash()),
                report.gate_note_count == sum_of(e.take(i as int), entry_note_count()),
                report.policy_id == self.policy_id,
                report.source_manifest_id == self.source_manifest_id,
                report.source_count == manifest.sources@.len(),
                report.policy_entry_count == e.len(),
                report.covered_source_count == manifest.id_set().intersect(self.id_set()).len(),
                strictly_increasing(views(report.missing_source_ids@)),
                views(report.missing_source_ids@).to_set() == manifest.id_set().difference(
                    self.id_set(),
                ),
                strictly_increasing(views(report.extra_entry_source_ids@)),
                views(report.extra_entry_source_ids@).to_set() == self.id_set().difference(
                    manifest.id_set(),
                ),
                views(report.extra_entry_source_ids@).len() == self.id_set().difference(
                    manifest.id_set(),
                ).len(),
            decreases e.len() - i,
        {
            proof {
                lemma_prefix_step(e, i as int);
                lemma_count_bound(e.take(i as int), entry_with_mode(e[i as int].acquisition_mode));
                lemma_count_bound(e.take(i as int), entry_with_cache(e[i as int].cache_policy));
                lemma_count_bound(e.take(i as int), entry_requires_hash());
                lemma_sum_prefix_bound(e, i as int + 1);
            }
            let entry = &self.entries[i];
            match entry.acquisition_mode {
                SourceAcquisitionMode::ManualReference => report.manual_reference_count =
                    report.manual_reference_count + 1,
                SourceAcquisitionMode::FletchCandidate => report.fletch_candidate_count =
                    report.fletch_candidate_count + 1,
                SourceAcquisitionMode::LocalDerived => report.local_derived_count =
                    report.local_derived_count + 1,
                SourceAcquisitionMode::SyntheticFixture => report.synthetic_fixture_count =
                    report.synthetic_fixture_count + 1,
                SourceAcquisitionMode::Imported => report.imported_count = report.imported_count
                    + 1,
            }
            match entry.cache_policy {
                SourceCachePolicy::ReferenceOnly => report.reference_only_count =
                    report.reference_only_count + 1,
                SourceCachePolicy::IgnoredLocalCache => report.ignored_local_cache_count =
                    report.ignored_local_cache_count + 1,
                SourceCachePolicy::DerivedMetadataOnly => report.derived_metadata_only_count =
                    report.derived_metadata_only_count + 1,
                SourceCachePolicy::CommittedFixture => report.committed_fixture_count =
                    report.committed_fixture_count + 1,
            }
            if entry.hash_required {
                report.hash_required_count = report.hash_required_count + 1;
            }
            report.gate_note_count = report.gate_note_count + entry.gate_notes.len();
            i = i + 1;
        }
        proof {
            lemma_take_all(e);
        }
        report.source_gate_ready = same_text(
            self.source_manifest_id.as_str(),
            manifest.manifest_id.as_str(),
        ) && report.covered_source_count == report.source_count && report.policy_entry_count
            == report.source_count && report.extra_entry_source_ids.len() == 0
            && report.hash_required_count > 0;
        Ok(report)
    }
}

/// A sum over a prefix never exceeds the sum over the whole sequence.
proof fn lemma_sum_prefix_bound(e: Seq<SourceGateEntry>, n: int)
    requires
        0 <= n <= e.len(),
    ensures
        sum_of(e.take(n), entry_note_count()) <= sum_of(e, entry_note_count()),
    decreases e.len() - n,
{
    if n < e.len() {
        lemma_sum_prefix_bound(e, n + 1);
        lemma_prefix_step(e, n);
    } else {
        lemma_take_all(e);
    }
}

} // verus!
