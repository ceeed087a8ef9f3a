use vstd::prelude::*;

use crate::checks::{
    count_where, first_error, first_error_from, lemma_count_bound, lemma_prefix_step,
    lemma_take_all,
};
use crate::errors::{validate_non_empty, TemporalModelError};
use crate::text::{insert_sorted, same_text, strictly_increasing, views};

verus! {

/// The kind of evidence a cited source provides.
#[derive(Debug, Clone, Copy, PartialEq, Eq)]
pub enum SourceKind {
    LegalText,
    GeospatialBoundary,
    TimeRuleDatabase,
    Population,
    RepresentativePoint,
    DerivedManifest,
    ResearchNote,
    Imported,
}

/// One cited source.
#[derive(Debug, Clone, PartialEq, Eq)]
pub struct SourceCitation {
    pub source_id: String,
    pub title: String,
    pub kind: SourceKind,
    pub url: String,
    pub retrieved_on: String,
    pub vintage: Option<String>,
    pub content_hash: Option<String>,
    pub caveats: Vec<String>,
}

/// A named set of cited sources.
#[derive(Debug, Clone, PartialEq, Eq)]
pub struct SourceManifest {
    pub manifest_id: String,
    pub generated_on: String,
    pub sources: Vec<SourceCitation>,
}

/// Counts of the sources in a manifest, by kind.
#[derive(Debug, Clone, PartialEq, Eq)]
pub struct SourceManifestReport {
    pub manifest_id: String,
    pub source_count: usize,
    pub caveated_source_count: usize,
    pub legal_text_count: usize,
    pub geospatial_boundary_count: usize,
    pub time_rule_database_count: usize,
    pub population_count: usize,
    pub representative_point_count: usize,
    pub derived_manifest_count: usize,
    pub research_note_count: usize,
    pub imported_count: usize,
}

/// Sources of the given kind.
pub open spec fn source_of_kind(kind: SourceKind) -> spec_fn(SourceCitation) -> bool {
    |c: SourceCitation| c.kind == kind
}

/// Sources that carry at least one caveat.
pub open spec fn source_has_caveats() -> spec_fn(SourceCitation) -> bool {
    |c: SourceCitation| c.caveats@.len() > 0
}

/// Whether some source among the first `n` has the given id.
pub open spec fn id_among_sources(sources: Seq<SourceCitation>, n: int, id: Seq<char>) -> bool {
    exists|k: int| 0 <= k < n && #[trigger] sources[k].source_id@ == id
}

impl SourceCitation {
    /// The outcome of validating a citation.
    pub open spec fn check(self) -> Result<(), TemporalModelError> {
        if self.source_id@.len() == 0 {
            Err(TemporalModelError::EmptyId { kind: "source.source_id" })
        } else if self.title@.len() == 0 {
            Err(TemporalModelError::EmptyId { kind: "source.title" })
        } else if self.retrieved_on@.len() == 0 {
            Err(TemporalModelError::EmptyId { kind: "source.retrieved_on" })
        } else if self.url@.len() == 0 {
            Err(TemporalModelError::EmptySourceUrl { source_id: self.source_id })
        } else {
            Ok(())
        }
    }

    /// Requires a non-empty id, title, retrieval date, and URL.
    pub fn validate(&self) -> (r: Result<(), TemporalModelError>)
        ensures
            r == self.check(),
    {
        validate_non_empty("source.source_id", &self.source_id)?;
        validate_non_empty("source.title", &self.title)?;
        validate_non_empty("source.retrieved_on", &self.retrieved_on)?;
        if self.url.as_str().is_empty() {
            return Err(TemporalModelError::EmptySourceUrl { source_id: self.source_id.clone() });
        }
        Ok(())
    }
}

/// What the check of the `j`-th source of a manifest reports, if anything.
pub open spec fn source_outcome(sources: Seq<SourceCitation>, j: int) -> Option<TemporalModelError> {
    match sources[j].check() {
        Err(e) => Some(e),
        Ok(_) => if id_among_sources(sources, j, sources[j].source_id@) {
            Some(TemporalModelError::DuplicateSourceId { source_id: sources[j].source_id })
        } else {
            None
        },
    }
}

/// Whether the first `n` sources include one with the id of `id`.
pub fn source_id_seen(sources: &Vec<SourceCitation>, n: usize, id: &str) -> (r: bool)
    requires
        n <= sources@.len(),
    ensures
        r == id_among_sources(sources@, n as int, id@),
{
    let mut k: usize = 0;
    while k < n
        invariant
            n <= sources@.len(),
            k <= n,
            forall|j: int| 0 <= j < k ==> sources@[j].source_id@ != id@,
        decreases n - k,
    {
        if same_text(sources[k].source_id.as_str(), id) {
            assert(sources@[k as int].source_id@ == id@);
            return true;
        }
        k = k + 1;
    }
    false
}

impl SourceManifest {
    /// The outcomes of checking each source in turn.
    pub open spec fn source_outcomes(self) -> Seq<Option<TemporalModelError>> {
        Seq::new(self.sources@.len(), |j: int| source_outcome(self.sources@, j))
    }

    /// The outcome of validating a manifest.
    pub open spec fn check(self) -> Result<(), TemporalModelError> {
        if self.manifest_id@.len() == 0 {
            Err(TemporalModelError::EmptyId { kind: "source_manifest.manifest_id" })
        } else if self.generated_on@.len() == 0 {
            Err(TemporalModelError::EmptyId { kind: "source_manifest.generated_on" })
        } else {
            first_error(self.source_outcomes())
        }
    }

    /// The ids of the cited sources.
    pub open spec fn id_set(self) -> Set<Seq<char>> {
        Set::new(|x: Seq<char>| id_among_sources(self.sources@, self.sources@.len() as int, x))
    }

    /// The report of a valid manifest.
    pub open spec fn summary(self) -> SourceManifestReport {
        let s = self.sources@;
        SourceManifestReport {
            manifest_id: self.manifest_id,
            source_count: s.len() as usize,
            caveated_source_count: count_where(s, source_has_caveats()) as usize,
            legal_text_count: count_where(s, source_of_kind(SourceKind::LegalText)) as usize,
            geospatial_boundary_count: count_where(
                s,
                source_of_kind(SourceKind::GeospatialBoundary),
            ) as usize,
            time_rule_database_count: count_where(
                s,
                source_of_kind(SourceKind::TimeRuleDatabase),
            ) as usize,
            population_count: count_where(s, source_of_kind(SourceKind::Population)) as usize,
            representative_point_count: count_where(
                s,
                source_of_kind(SourceKind::RepresentativePoint),
            ) as usize,
            derived_manifest_count: count_where(
                s,
                source_of_kind(SourceKind::DerivedManifest),
            ) as usize,
            research_note_count: count_where(s, source_of_kind(SourceKind::ResearchNote)) as usize,
            imported_count: count_where(s, source_of_kind(SourceKind::Imported)) as usize,
        }
    }

    /// The distinct source ids, in increasing text order.
    pub fn source_ids(&self) -> (ids: Vec<String>)
        ensures
            strictly_increasing(views(ids@)),
            forall|x: Seq<char>| views(ids@).contains(x) <==> self.id_set().contains(x),
    {
        let mut ids: Vec<String> = Vec::new();
        let mut i: usize = 0;
        while i < self.sources.len()
            invariant
                i <= self.sources@.len(),
                strictly_increasing(views(ids@)),
                forall|x: Seq<char>|
                    views(ids@).contains(x) <==> id_among_sources(self.sources@, i as int, x),
            decreases self.sources@.len() - i,
        {
            let ghost prev = views(ids@);
            insert_sorted(&mut ids, self.sources[i].source_id.clone());
            proof {
                assert forall|x: Seq<char>|
                    views(ids@).contains(x) <==> id_among_sources(
                        self.sources@,
                        i + 1,
                        x,
                    ) by {
                    if id_among_sources(self.sources@, i + 1, x) {
                        let k = choose|k: int|
                            0 <= k < i + 1 && #[trigger] self.sources@[k].source_id@ == x;
                        if k < i {
                            assert(id_among_sources(self.sources@, i as int, x));
                        }
                    }
                    if id_among_sources(self.sources@, i as int, x) {
                        let k = choose|k: int|
                            0 <= k < i && #[trigger] self.sources@[k].source_id@ == x;
                        assert(self.sources@[k].source_id@ == x);
                    }
                    if x == self.sources@[i as int].source_id@ {
                        assert(self.sources@[i as int].source_id@ == x);
                    }
                }
            }
            i = i + 1;
        }
        proof {
            assert forall|x: Seq<char>| views(ids@).contains(x) <==> self.id_set().contains(x) by {}
        }
        ids
    }

    /// Whether the manifest cites a source with the given id.
    pub fn has_source(&self, id: &str) -> (r: bool)
        ensures
            r == self.id_set().contains(id@),
    {
        source_id_seen(&self.sources, self.sources.len(), id)
    }

    /// Requires a non-empty id and date, valid citations, and no repeated source id.
    pub fn validate(&self) -> (r: Result<(), TemporalModelError>)
        ensures
            r == self.check(),
    {
        validate_non_empty("source_manifest.manifest_id", &self.manifest_id)?;
        validate_non_empty("source_manifest.generated_on", &self.generated_on)?;
        let ghost outcomes = self.source_outcomes();
        let mut i: usize = 0;
        while i < self.sources.len()
            invariant
                i <= self.sources@.len(),
                outcomes == self.source_outcomes(),
                self.check() == first_error(outcomes),
                first_error(outcomes) == first_error_from(outcomes, i as int),
            decreases self.sources@.len() - i,
        {
            let source = &self.sources[i];
            if let Err(e) = source.validate() {
                assert(outcomes[i as int] == Some(e));
                return Err(e);
            }
            if source_id_seen(&self.sources, i, source.source_id.as_str()) {
                let e = TemporalModelError::DuplicateSourceId { source_id: source.source_id.clone() };
                assert(outcomes[i as int] == Some(e));
                return Err(e);
            }
            assert(outcomes[i as int] is None);
            i = i + 1;
        }
        Ok(())
    }

    /// Validates the manifest and counts its sources by kind.
    pub fn report(&self) -> (r: Result<SourceManifestReport, TemporalModelError>)
        ensures
            r == match self.check() {
                Err(e) => Err(e),
                Ok(_) => Ok(self.summary()),
            },
    {
        self.validate()?;
        let ghost s = self.sources@;
        let mut report = SourceManifestReport {
            manifest_id: self.manifest_id.clone(),
            source_count: self.sources.len(),
            caveated_source_count: 0,
            legal_text_count: 0,
            geospatial_boundary_count: 0,
            time_rule_database_count: 0,
            population_count: 0,
            representative_point_count: 0,
            derived_manifest_count: 0,
            research_note_count: 0,
            imported_count: 0,
        };
        let mut i: usize = 0;
        while i < self.sources.len()
            invariant
                s == self.sources@,
                i <= s.len(),
                report.manifest_id == self.manifest_id,
                report.source_count == s.len(),
                report.caveated_source_count == count_where(s.take(i as int), source_has_caveats()),
                report.legal_text_count == count_where(
                    s.take(i as int),
                    source_of_kind(SourceKind::LegalText),
                ),
                report.geospatial_boundary_count == count_where(
                    s.take(i as int),
                    source_of_kind(SourceKind::GeospatialBoundary),
                ),
                report.time_rule_database_count == count_where(
                    s.take(i as int),
                    source_of_kind(SourceKind::TimeRuleDatabase),
                ),
                report.population_count == count_where(
                    s.take(i as int),
                    source_of_kind(SourceKind::Population),
                ),
                report.representative_point_count == count_where(
                    s.take(i as int),
                    source_of_kind(SourceKind::RepresentativePoint),
                ),
                report.derived_manifest_count == count_where(
                    s.take(i as int),
                    source_of_kind(SourceKind::DerivedManifest),
                ),
                report.research_note_count == count_where(
                    s.take(i as int),
                    source_of_kind(SourceKind::ResearchNote),
                ),
                report.imported_count == count_where(
                    s.take(i as int),
                    source_of_kind(SourceKind::Imported),
                ),
            decreases s.len() - i,
        {
            proof {
                lemma_prefix_step(s, i as int);
                lemma_count_bound(s.take(i as int), source_has_caveats());
                lemma_count_bound(s.take(i as int), source_of_kind(s[i as int].kind));
            }
            let source = &self.sources[i];
            if !source.caveats.is_empty() {
                report.caveated_source_count = report.caveated_source_count + 1;
            }
            match source.kind {
                SourceKind::LegalText => report.legal_text_count = report.legal_text_count + 1,
                SourceKind::GeospatialBoundary => report.geospatial_boundary_count =
                    report.geospatial_boundary_count + 1,
                SourceKind::TimeRuleDatabase => report.time_rule_database_count =
                    report.time_rule_database_count + 1,
                SourceKind::Population => report.population_count = report.population_count + 1,
                SourceKind::RepresentativePoint => report.representative_point_count =
                    report.representative_point_count + 1,
                SourceKind::DerivedManifest => report.derived_manifest_count =
                    report.derived_manifest_count + 1,
                SourceKind::ResearchNote => report.research_note_count =
                    report.research_note_count + 1,
                SourceKind::Imported => report.imported_count = report.imported_count + 1,
            }
            i = i + 1;
        }
        proof {
            lemma_take_all(s);
        }
        Ok(report)
    }
}

/// The outcome of checking a list of (owner, source id) references against a manifest.
pub open spec fn reference_outcome(
    manifest: SourceManifest,
    references: Seq<(&'static str, &str)>,
    j: int,
) -> Option<(&'static str, Seq<char>)> {
    if manifest.id_set().contains(references[j].1@) {
        None
    } else {
        Some((references[j].0, references[j].1@))
    }
}

/// Validates the manifest, then requires every referenced source id to be cited by it.
/// The error names the first reference, in order, that the manifest does not cite.
pub fn validate_source_references(
    manifest: &SourceManifest,
    references: &[(&'static str, &str)],
) -> (r: Result<(), TemporalModelError>)
    ensures
        manifest.check() is Err ==> r == manifest.check(),
        manifest.check() is Ok ==> match first_error(
            Seq::new(references@.len(), |j: int| reference_outcome(*manifest, references@, j)),
        ) {
            Ok(_) => r is Ok,
            Err((owner, id)) => r matches Err(
                TemporalModelError::UnknownSourceReference { owner_kind, source_id },
            ) && owner_kind == owner && source_id@ == id,
        },
{
    manifest.validate()?;
    let ghost outcomes = Seq::new(
        references@.len(),
        |j: int| reference_outcome(*manifest, references@, j),
    );
    let mut i: usize = 0;
    while i < references.len()
        invariant
            i <= references@.len(),
            manifest.check() is Ok,
            outcomes == Seq::new(
                references@.len(),
                |j: int| reference_outcome(*manifest, references@, j),
            ),
            first_error(outcomes) == first_error_from(outcomes, i as int),
        decreases references@.len() - i,
    {
        let (owner_kind, source_id) = references[i];
        if !manifest.has_source(source_id) {
            assert(outcomes[i as int] == Some((owner_kind, source_id@)));
            return Err(
                TemporalModelError::UnknownSourceReference {
                    owner_kind,
                    source_id: String::from_str(source_id),
                },
            );
        }
        assert(outcomes[i as int] is None);
        i = i + 1;
    }
    Ok(())
}


/// The caveat lines of a list of sources: each caveat prefixed by its
/// source id and a colon, in source order.
pub open spec fn caveat_lines(sources: Seq<SourceCitation>) -> Seq<Seq<char>>
    decreases sources.len(),
{
    if sources.len() == 0 {
        seq![]
    } else {
        let last = sources.last();
        caveat_lines(sources.drop_last()) + last.caveats@.map_values(
            |c: String| last.source_id@ + ": "@ + c@,
        )
    }
}

/// Every source caveat of the manifest, prefixed by its source id.
pub fn source_caveat_lines(manifest: &SourceManifest) -> (lines: Vec<String>)
    ensures
        views(lines@) == caveat_lines(manifest.sources@),
{
    let mut lines: Vec<String> = Vec::new();
    let mut i: usize = 0;
    while i < manifest.sources.len()
        invariant
            i <= manifest.sources@.len(),
            views(lines@) == caveat_lines(manifest.sources@.take(i as int)),
        decreases manifest.sources@.len() - i,
    {
        let source = &manifest.sources[i];
        let ghost before = views(lines@);
        let mut k: usize = 0;
        while k < source.caveats.len()
            invariant
                k <= source.caveats@.len(),
                views(lines@) == before + source.caveats@.take(k as int).map_values(
                    |c: String| source.source_id@ + ": "@ + c@,
                ),
            decreases source.caveats@.len() - k,
        {
            let mut line = source.source_id.clone();
            line.append(": ");
            line.append(source.caveats[k].as_str());
            let ghost prior = views(lines@);
            lines.push(line);
            assert(views(lines@) =~= prior.push(line@));
            assert(source.caveats@.take(k + 1).map_values(
                |c: String| source.source_id@ + ": "@ + c@,
            ) =~= source.caveats@.take(k as int).map_values(
                |c: String| source.source_id@ + ": "@ + c@,
            ).push(source.source_id@ + ": "@ + source.caveats@[k as int]@));
            k = k + 1;
        }
        assert(source.caveats@.take(source.caveats@.len() as int) =~= source.caveats@);
        assert(manifest.sources@.take(i + 1).drop_last() =~= manifest.sources@.take(i as int));
        i = i + 1;
    }
    assert(manifest.sources@.take(manifest.sources@.len() as int) =~= manifest.sources@);
    lines
}

} // verus!
