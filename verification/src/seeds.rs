use vstd::prelude::*;

use crate::checks::{lemma_first_error_ok, sum_of};
use crate::county::{
    assignment_caveat_count, row_caveat_count, CountyAssignmentStatus, CountyGeometryReconciliation, CountyGeometryReconciliationSet,
    CountyTimeZoneAssignment, CountyTimeZoneAssignmentSet, GeometryReconciliationStatus,
};
use crate::gates::{
    entry_note_count, id_among_entries, SourceAcquisitionMode, SourceCachePolicy, SourceGateEntry, SourceGatePolicy,
};
use crate::limitations::{
    entry_assessment_count, entry_consumer_count, entry_dependency_count, entry_exclusion_count,
    entry_owns_count, lemma_limitation_entry_ok, lemma_statements_ok, ModuleBoundaryContract, ModuleBoundaryEntry, SourceClaim, SourceClaimAssessment,
    SourceLimitationEntry, SourceLimitationMatrix, SourceSupportLevel,
};
use crate::sources::{id_among_sources, SourceCitation, SourceKind, SourceManifest};
use crate::text::same_text;
use crate::zones::{zone_outcome, ZoneCatalog, ZoneSpec};

verus! {

/// The ids of the seven foundation sources.
pub open spec fn foundation_source_ids() -> Set<Seq<char>> {
    set!["census-tiger-counties-2024"@, "census-county-gazetteer-2024"@, "census-county-population-estimates-2024"@, "dot-49-cfr-71"@, "dot-time-zone-map-layer"@, "dot-time-zone-procedure"@, "iana-tzdb-theory"@]
}

/// The foundation source manifest: seven cited sources for the US county baseline.
pub fn seed_source_manifest() -> (m: SourceManifest)
    ensures
        m.manifest_id@ == "zones-us-foundation-sources"@,
        m.generated_on@ == "2026-05-26"@,
        m.sources@.len() == 7,
        m.sources@[0].source_id@ == "census-tiger-counties-2024"@,
        m.sources@[0].kind == SourceKind::GeospatialBoundary,
        m.sources@[0].vintage is Some,
        m.sources@[0].content_hash is None,
        m.sources@[0].caveats@.len() == 1,
        m.sources@[1].source_id@ == "census-county-gazetteer-2024"@,
        m.sources@[1].kind == SourceKind::RepresentativePoint,
        m.sources@[1].vintage is Some,
        m.sources@[1].content_hash is None,
        m.sources@[1].caveats@.len() == 1,
        m.sources@[2].source_id@ == "census-county-population-estimates-2024"@,
        m.sources@[2].kind == SourceKind::Population,
        m.sources@[2].vintage is Some,
        m.sources@[2].content_hash is None,
        m.sources@[2].caveats@.len() == 1,
        m.sources@[3].source_id@ == "dot-49-cfr-71"@,
        m.sources@[3].kind == SourceKind::LegalText,
        m.sources@[3].vintage is None,
        m.sources@[3].content_hash is None,
        m.sources@[3].caveats@.len() == 1,
        m.sources@[4].source_id@ == "dot-time-zone-map-layer"@,
        m.sources@[4].kind == SourceKind::GeospatialBoundary,
        m.sources@[4].vintage is None,
        m.sources@[4].content_hash is None,
        m.sources@[4].caveats@.len() == 1,
        m.sources@[5].source_id@ == "dot-time-zone-procedure"@,
        m.sources@[5].kind == SourceKind::LegalText,
        m.sources@[5].vintage is None,
        m.sources@[5].content_hash is None,
        m.sources@[5].caveats@.len() == 1,
        m.sources@[6].source_id@ == "iana-tzdb-theory"@,
        m.sources@[6].kind == SourceKind::TimeRuleDatabase,
        m.sources@[6].vintage is None,
        m.sources@[6].content_hash is None,
        m.sources@[6].caveats@.len() == 1,
        m.check() is Ok,
        m.id_set() == foundation_source_ids(),
        m.sources@[0].title@ == "2024 TIGER/Line Counties"@,
        m.sources@[0].url@ == "https://www.census.gov/cgi-bin/geo/shapefiles/index.php?layergroup=Counties&year=2024"@,
        m.sources@[0].retrieved_on@ == "2026-05-26"@,
        m.sources@[0].vintage is Some && m.sources@[0].vintage->0@ == "2024"@,
        m.sources@[0].caveats@[0]@ == "Boundary source only; not evidence of legal time-zone assignment."@,
        m.sources@[1].title@ == "2024 County Gazetteer Files"@,
        m.sources@[1].url@ == "https://www.census.gov/geographies/reference-files/2024/geo/gazetter-file.html"@,
        m.sources@[1].retrieved_on@ == "2026-05-26"@,
        m.sources@[1].vintage is Some && m.sources@[1].vintage->0@ == "2024"@,
        m.sources@[1].caveats@[0]@ == "Internal points are exploratory and not population-weighted."@,
        m.sources@[2].title@ == "County Population Totals and Components of Change: 2020-2024"@,
        m.sources@[2].url@ == "https://www.census.gov/programs-surveys/popest/data/tables.html"@,
        m.sources@[2].retrieved_on@ == "2026-05-26"@,
        m.sources@[2].vintage is Some && m.sources@[2].vintage->0@ == "2024"@,
        m.sources@[2].caveats@[0]@ == "Population source selected for county weighting; smoke fixtures may use tiny placeholder weights until source-derived rows are generated."@,
        m.sources@[3].title@ == "49 CFR Part 71"@,
        m.sources@[3].url@ == "https://www.ecfr.gov/current/title-49/subtitle-A/part-71"@,
        m.sources@[3].retrieved_on@ == "2026-05-26"@,
        m.sources@[3].caveats@[0]@ == "Legal text must be converted to geospatial assignments before county scoring."@,
        m.sources@[4].title@ == "DOT Time Zones Geospatial Map"@,
        m.sources@[4].url@ == "https://www.transportation.gov/regulations/time-act"@,
        m.sources@[4].retrieved_on@ == "2026-05-26"@,
        m.sources@[4].caveats@[0]@ == "Map layer must be reconciled with 49 CFR Part 71 and county boundaries before county-level assignments are treated as evidence."@,
        m.sources@[5].title@ == "Procedure for Moving an Area from One Time Zone to Another"@,
        m.sources@[5].url@ == "https://www.transportation.gov/regulations/procedure-moving-area-one-time-zone-another"@,
        m.sources@[5].retrieved_on@ == "2026-05-26"@,
        m.sources@[5].caveats@[0]@ == "Procedure guidance, not a scoring dataset."@,
        m.sources@[6].title@ == "Theory and pragmatics of the tz code and data"@,
        m.sources@[6].url@ == "https://ftp.iana.org/tz/theory.html"@,
        m.sources@[6].retrieved_on@ == "2026-05-26"@,
        m.sources@[6].caveats@[0]@ == "IANA tzdb does not record complete legal boundaries."@,
{
    let m = SourceManifest {
        manifest_id: String::from_str("zones-us-foundation-sources"),
        generated_on: String::from_str("2026-05-26"),
        sources: vec![
            SourceCitation {
                source_id: String::from_str("census-tiger-counties-2024"),
                title: String::from_str("2024 TIGER/Line Counties"),
                kind: SourceKind::GeospatialBoundary,
                url: String::from_str("https://www.census.gov/cgi-bin/geo/shapefiles/index.php?layergroup=Counties&year=2024"),
                retrieved_on: String::from_str("2026-05-26"),
                vintage: Some(String::from_str("2024")),
                content_hash: None,
                caveats: vec![
                    String::from_str("Boundary source only; not evidence of legal time-zone assignment."),
                ],
            },
            SourceCitation {
                source_id: String::from_str("census-county-gazetteer-2024"),
                title: String::from_str("2024 County Gazetteer Files"),
                kind: SourceKind::RepresentativePoint,
                url: String::from_str("https://www.census.gov/geographies/reference-files/2024/geo/gazetter-file.html"),
                retrieved_on: String::from_str("2026-05-26"),
                vintage: Some(String::from_str("2024")),
                content_hash: None,
                caveats: vec![
                    String::from_str("Internal points are exploratory and not population-weighted."),
                ],
            },
            SourceCitation {
                source_id: String::from_str("census-county-population-estimates-2024"),
                title: String::from_str("County Population Totals and Components of Change: 2020-2024"),
                kind: SourceKind::Population,
                url: String::from_str("https://www.census.gov/programs-surveys/popest/data/tables.html"),
                retrieved_on: String::from_str("2026-05-26"),
                vintage: Some(String::from_str("2024")),
                content_hash: None,
                caveats: vec![
                    String::from_str("Population source selected for county weighting; smoke fixtures may use tiny placeholder weights until source-derived rows are generated."),
                ],
            },
            SourceCitation {
                source_id: String::from_str("dot-49-cfr-71"),
                title: String::from_str("49 CFR Part 71"),
                kind: SourceKind::LegalText,
                url: String::from_str("https://www.ecfr.gov/current/title-49/subtitle-A/part-71"),
                retrieved_on: String::from_str("2026-05-26"),
                vintage: None,
                content_hash: None,
                caveats: vec![
                    String::from_str("Legal text must be converted to geospatial assignments before county scoring."),
                ],
            },
            SourceCitation {
                source_id: String::from_str("dot-time-zone-map-layer"),
                title: String::from_str("DOT Time Zones Geospatial Map"),
                kind: SourceKind::GeospatialBoundary,
                url: String::from_str("https://www.transportation.gov/regulations/time-act"),
                retrieved_on: String::from_str("2026-05-26"),
                vintage: None,
                content_hash: None,
                caveats: vec![
                    String::from_str("Map layer must be reconciled with 49 CFR Part 71 and county boundaries before county-level assignments are treated as evidence."),
                ],
            },
            SourceCitation {
                source_id: String::from_str("dot-time-zone-procedure"),
                title: String::from_str("Procedure for Moving an Area from One Time Zone to Another"),
                kind: SourceKind::LegalText,
                url: String::from_str("https://www.transportation.gov/regulations/procedure-moving-area-one-time-zone-another"),
                retrieved_on: String::from_str("2026-05-26"),
                vintage: None,
                content_hash: None,
                caveats: vec![
                    String::from_str("Procedure guidance, not a scoring dataset."),
                ],
            },
            SourceCitation {
                source_id: String::from_str("iana-tzdb-theory"),
                title: String::from_str("Theory and pragmatics of the tz code and data"),
                kind: SourceKind::TimeRuleDatabase,
                url: String::from_str("https://ftp.iana.org/tz/theory.html"),
                retrieved_on: String::from_str("2026-05-26"),
                vintage: None,
                content_hash: None,
                caveats: vec![
                    String::from_str("IANA tzdb does not record complete legal boundaries."),
                ],
            },
        ],
    };
    proof {
        reveal_strlit("zones-us-foundation-sources");
        reveal_strlit("2026-05-26");
        reveal_strlit("census-tiger-counties-2024");
        reveal_strlit("2024 TIGER/Line Counties");
        reveal_strlit("https://www.census.gov/cgi-bin/geo/shapefiles/index.php?layergroup=Counties&year=2024");
        reveal_strlit("2024");
        reveal_strlit("Boundary source only; not evidence of legal time-zone assignment.");
        reveal_strlit("census-county-gazetteer-2024");
        reveal_strlit("2024 County Gazetteer Files");
        reveal_strlit("https://www.census.gov/geographies/reference-files/2024/geo/gazetter-file.html");
        reveal_strlit("Internal points are exploratory and not population-weighted.");
        reveal_strlit("census-county-population-estimates-2024");
        reveal_strlit("County Population Totals and Components of Change: 2020-2024");
        reveal_strlit("https://www.census.gov/programs-surveys/popest/data/tables.html");
        reveal_strlit("Population source selected for county weighting; smoke fixtures may use tiny placeholder weights until source-derived rows are generated.");
        reveal_strlit("dot-49-cfr-71");
        reveal_strlit("49 CFR Part 71");
        reveal_strlit("https://www.ecfr.gov/current/title-49/subtitle-A/part-71");
        reveal_strlit("Legal text must be converted to geospatial assignments before county scoring.");
        reveal_strlit("dot-time-zone-map-layer");
        reveal_strlit("DOT Time Zones Geospatial Map");
        reveal_strlit("https://www.transportation.gov/regulations/time-act");
        reveal_strlit("Map layer must be reconciled with 49 CFR Part 71 and county boundaries before county-level assignments are treated as evidence.");
        reveal_strlit("dot-time-zone-procedure");
        reveal_strlit("Procedure for Moving an Area from One Time Zone to Another");
        reveal_strlit("https://www.transportation.gov/regulations/procedure-moving-area-one-time-zone-another");
        reveal_strlit("Procedure guidance, not a scoring dataset.");
        reveal_strlit("iana-tzdb-theory");
        reveal_strlit("Theory and pragmatics of the tz code and data");
        reveal_strlit("https://ftp.iana.org/tz/theory.html");
        reveal_strlit("IANA tzdb does not record complete legal boundaries.");
        let s = m.sources@;
        assert(s[0].source_id@.len() != s[1].source_id@.len());
        assert(s[0].source_id@.len() != s[2].source_id@.len());
        assert(s[0].source_id@.len() != s[3].source_id@.len());
        assert(s[0].source_id@.len() != s[4].source_id@.len());
        assert(s[0].source_id@.len() != s[5].source_id@.len());
        assert(s[0].source_id@.len() != s[6].source_id@.len());
        assert(s[1].source_id@.len() != s[2].source_id@.len());
        assert(s[1].source_id@.len() != s[3].source_id@.len());
        assert(s[1].source_id@.len() != s[4].source_id@.len());
        assert(s[1].source_id@.len() != s[5].source_id@.len());
        assert(s[1].source_id@.len() != s[6].source_id@.len());
        assert(s[2].source_id@.len() != s[3].source_id@.len());
        assert(s[2].source_id@.len() != s[4].source_id@.len());
        assert(s[2].source_id@.len() != s[5].source_id@.len());
        assert(s[2].source_id@.len() != s[6].source_id@.len());
        assert(s[3].source_id@.len() != s[4].source_id@.len());
        assert(s[3].source_id@.len() != s[5].source_id@.len());
        assert(s[3].source_id@.len() != s[6].source_id@.len());
        assert(s[4].source_id@[14] != s[5].source_id@[14]);
        assert(s[4].source_id@.len() != s[6].source_id@.len());
        assert(s[5].source_id@.len() != s[6].source_id@.len());
        assert forall|j: int| 0 <= j < s.len() implies #[trigger] m.source_outcomes()[j] is None by {
            assert(s[j].check() is Ok);
            assert forall|k: int| 0 <= k < j implies s[k].source_id@ != s[j].source_id@ by {}
        }
        lemma_first_error_ok(m.source_outcomes());
        assert(m.id_set() =~= foundation_source_ids()) by {
            assert forall|x: Seq<char>| m.id_set().contains(x) <==> foundation_source_ids().contains(x) by {
                if foundation_source_ids().contains(x) {
                    if x == s[0].source_id@ { assert(id_among_sources(s, 7, s[0].source_id@)); }
                    if x == s[1].source_id@ { assert(id_among_sources(s, 7, s[1].source_id@)); }
                    if x == s[2].source_id@ { assert(id_among_sources(s, 7, s[2].source_id@)); }
                    if x == s[3].source_id@ { assert(id_among_sources(s, 7, s[3].source_id@)); }
                    if x == s[4].source_id@ { assert(id_among_sources(s, 7, s[4].source_id@)); }
                    if x == s[5].source_id@ { assert(id_among_sources(s, 7, s[5].source_id@)); }
                    if x == s[6].source_id@ { assert(id_among_sources(s, 7, s[6].source_id@)); }
                }
            }
        }
    }
    m
}

/// The acquisition gate policy for the foundation sources, one entry per source.
pub fn seed_source_gate_policy() -> (p: SourceGatePolicy)
    ensures
        p.policy_id@ == "zones-us-foundation-source-gate-v0"@,
        p.source_manifest_id@ == "zones-us-foundation-sources"@,
        p.generated_on@ == "2026-05-26"@,
        p.entries@.len() == 7,
        p.entries@[0].source_id@ == "census-tiger-counties-2024"@,
        p.entries@[0].acquisition_mode == SourceAcquisitionMode::FletchCandidate,
        p.entries@[0].cache_policy == SourceCachePolicy::IgnoredLocalCache,
        p.entries@[0].hash_required == true,
        p.entries@[0].gate_notes@.len() == 1,
        p.entries@[1].source_id@ == "census-county-gazetteer-2024"@,
        p.entries@[1].acquisition_mode == SourceAcquisitionMode::FletchCandidate,
        p.entries@[1].cache_policy == SourceCachePolicy::IgnoredLocalCache,
        p.entries@[1].hash_required == true,
        p.entries@[1].gate_notes@.len() == 1,
        p.entries@[2].source_id@ == "census-county-population-estimates-2024"@,
        p.entries@[2].acquisition_mode == SourceAcquisitionMode::FletchCandidate,
        p.entries@[2].cache_policy == SourceCachePolicy::IgnoredLocalCache,
        p.entries@[2].hash_required == true,
        p.entries@[2].gate_notes@.len() == 1,
        p.entries@[3].source_id@ == "dot-49-cfr-71"@,
        p.entries@[3].acquisition_mode == SourceAcquisitionMode::ManualReference,
        p.entries@[3].cache_policy == SourceCachePolicy::ReferenceOnly,
        p.entries@[3].hash_required == false,
        p.entries@[3].gate_notes@.len() == 1,
        p.entries@[4].source_id@ == "dot-time-zone-map-layer"@,
        p.entries@[4].acquisition_mode == SourceAcquisitionMode::FletchCandidate,
        p.entries@[4].cache_policy == SourceCachePolicy::IgnoredLocalCache,
        p.entries@[4].hash_required == true,
        p.entries@[4].gate_notes@.len() == 2,
        p.entries@[5].source_id@ == "dot-time-zone-procedure"@,
        p.entries@[5].acquisition_mode == SourceAcquisitionMode::ManualReference,
        p.entries@[5].cache_policy == SourceCachePolicy::ReferenceOnly,
        p.entries@[5].hash_required == false,
        p.entries@[5].gate_notes@.len() == 1,
        p.entries@[6].source_id@ == "iana-tzdb-theory"@,
        p.entries@[6].acquisition_mode == SourceAcquisitionMode::ManualReference,
        p.entries@[6].cache_policy == SourceCachePolicy::ReferenceOnly,
        p.entries@[6].hash_required == false,
        p.entries@[6].gate_notes@.len() == 1,
        p.check() is Ok,
        p.id_set() == foundation_source_ids(),
        sum_of(p.entries@, entry_note_count()) == 8,
        p.entries@[0].rights_posture@ == "US Census public data; raw national GIS cache must stay out of git."@,
        p.entries@[0].expected_artifact@ == "RPLAN county context with GEOID unit order, adjacency, and source hash references."@,
        p.entries@[0].gate_notes@[0]@ == "Boundary source only; time-zone assignments must cite DOT/49 CFR evidence separately."@,
        p.entries@[1].rights_posture@ == "US Census public data; derived representative-point rows may be regenerated."@,
        p.entries@[1].expected_artifact@ == "County representative-point table with GEOID, longitude, latitude, and source hash."@,
        p.entries@[1].gate_notes@[0]@ == "Internal points are exploratory and must be labeled before publication."@,
        p.entries@[2].rights_posture@ == "US Census public data; source-derived county weights must record vintage."@,
        p.entries@[2].expected_artifact@ == "County population table keyed by GEOID with source hash and vintage."@,
        p.entries@[2].gate_notes@[0]@ == "Population weights must not remain placeholders for the baseline scorecard."@,
        p.entries@[3].rights_posture@ == "Federal regulation reference; cite retrieved eCFR text and clause paths."@,
        p.entries@[3].expected_artifact@ == "Machine-readable current-law assignment evidence table citing 49 CFR Part 71 clauses."@,
        p.entries@[3].gate_notes@[0]@ == "County-level assignments must preserve clause evidence and uncertainty."@,
        p.entries@[4].rights_posture@ == "DOT public map reference; verify metadata, vintage, and distribution terms before broad cache."@,
        p.entries@[4].expected_artifact@ == "Reconciliation table comparing DOT geometry to county units and 49 CFR clauses."@,
        p.entries@[4].gate_notes@[0]@ == "Endpoint metadata is recorded at data/source-endpoints/dot-time-zones-arcgis.json."@,
        p.entries@[4].gate_notes@[1]@ == "Map geometry cannot override 49 CFR text without a documented reconciliation note."@,
        p.entries@[5].rights_posture@ == "DOT public guidance; cite as process context, not score data."@,
        p.entries@[5].expected_artifact@ == "Research note for boundary-change procedure and convenience-of-commerce context."@,
        p.entries@[5].gate_notes@[0]@ == "Procedure guidance must not be treated as a scoring dataset."@,
        p.entries@[6].rights_posture@ == "IANA tzdb documentation reference; use for limitations and offset-rule context."@,
        p.entries@[6].expected_artifact@ == "Research note explaining why IANA tzdb is not legal-boundary evidence."@,
        p.entries@[6].gate_notes@[0]@ == "Do not use as complete legal-boundary geometry for the US county baseline."@,
{
    let p = SourceGatePolicy {
        policy_id: String::from_str("zones-us-foundation-source-gate-v0"),
        source_manifest_id: String::from_str("zones-us-foundation-sources"),
        generated_on: String::from_str("2026-05-26"),
        entries: vec![
            SourceGateEntry {
                source_id: String::from_str("census-tiger-counties-2024"),
                acquisition_mode: SourceAcquisitionMode::FletchCandidate,
                cache_policy: SourceCachePolicy::IgnoredLocalCache,
                rights_posture: String::from_str("US Census public data; raw national GIS cache must stay out of git."),
                expected_artifact: String::from_str("RPLAN county context with GEOID unit order, adjacency, and source hash references."),
                hash_required: true,
                gate_notes: vec![
                    String::from_str("Boundary source only; time-zone assignments must cite DOT/49 CFR evidence separately."),
                ],
            },
            SourceGateEntry {
                source_id: String::from_str("census-county-gazetteer-2024"),
                acquisition_mode: SourceAcquisitionMode::FletchCandidate,
                cache_policy: SourceCachePolicy::IgnoredLocalCache,
                rights_posture: String::from_str("US Census public data; derived representative-point rows may be regenerated."),
                expected_artifact: String::from_str("County representative-point table with GEOID, longitude, latitude, and source hash."),
                hash_required: true,
                gate_notes: vec![
                    String::from_str("Internal points are exploratory and must be labeled before publication."),
                ],
            },
            SourceGateEntry {
                source_id: String::from_str("census-county-population-estimates-2024"),
                acquisition_mode: SourceAcquisitionMode::FletchCandidate,
                cache_policy: SourceCachePolicy::IgnoredLocalCache,
                rights_posture: String::from_str("US Census public data; source-derived county weights must record vintage."),
                expected_artifact: String::from_str("County population table keyed by GEOID with source hash and vintage."),
                hash_required: true,
                gate_notes: vec![
                    String::from_str("Population weights must not remain placeholders for the baseline scorecard."),
                ],
            },
            SourceGateEntry {
                source_id: String::from_str("dot-49-cfr-71"),
                acquisition_mode: SourceAcquisitionMode::ManualReference,
                cache_policy: SourceCachePolicy::ReferenceOnly,
                rights_posture: String::from_str("Federal regulation reference; cite retrieved eCFR text and clause paths."),
                expected_artifact: String::from_str("Machine-readable current-law assignment evidence table citing 49 CFR Part 71 clauses."),
                hash_required: false,
                gate_notes: vec![
                    String::from_str("County-level assignments must preserve clause evidence and uncertainty."),
                ],
            },
            SourceGateEntry {
                source_id: String::from_str("dot-time-zone-map-layer"),
                acquisition_mode: SourceAcquisitionMode::FletchCandidate,
                cache_policy: SourceCachePolicy::IgnoredLocalCache,
                rights_posture: String::from_str("DOT public map reference; verify metadata, vintage, and distribution terms before broad cache."),
                expected_artifact: String::from_str("Reconciliation table comparing DOT geometry to county units and 49 CFR clauses."),
                hash_required: true,
                gate_notes: vec![
                    String::from_str("Endpoint metadata is recorded at data/source-endpoints/dot-time-zones-arcgis.json."),
                    String::from_str("Map geometry cannot override 49 CFR text without a documented reconciliation note."),
                ],
            },
            SourceGateEntry {
                source_id: String::from_str("dot-time-zone-procedure"),
                acquisition_mode: SourceAcquisitionMode::ManualReference,
                cache_policy: SourceCachePolicy::ReferenceOnly,
                rights_posture: String::from_str("DOT public guidance; cite as process context, not score data."),
                expected_artifact: String::from_str("Research note for boundary-change procedure and convenience-of-commerce context."),
                hash_required: false,
                gate_notes: vec![
                    String::from_str("Procedure guidance must not be treated as a scoring dataset."),
                ],
            },
            SourceGateEntry {
                source_id: String::from_str("iana-tzdb-theory"),
                acquisition_mode: SourceAcquisitionMode::ManualReference,
                cache_policy: SourceCachePolicy::ReferenceOnly,
                rights_posture: String::from_str("IANA tzdb documentation reference; use for limitations and offset-rule context."),
                expected_artifact: String::from_str("Research note explaining why IANA tzdb is not legal-boundary evidence."),
                hash_required: false,
                gate_notes: vec![
                    String::from_str("Do not use as complete legal-boundary geometry for the US county baseline."),
                ],
            },
        ],
    };
    proof {
        reveal_strlit("zones-us-foundation-source-gate-v0");
        reveal_strlit("zones-us-foundation-sources");
        reveal_strlit("2026-05-26");
        reveal_strlit("census-tiger-counties-2024");
        reveal_strlit("US Census public data; raw national GIS cache must stay out of git.");
        reveal_strlit("RPLAN county context with GEOID unit order, adjacency, and source hash references.");
        reveal_strlit("Boundary source only; time-zone assignments must cite DOT/49 CFR evidence separately.");
        reveal_strlit("census-county-gazetteer-2024");
        reveal_strlit("US Census public data; derived representative-point rows may be regenerated.");
        reveal_strlit("County representative-point table with GEOID, longitude, latitude, and source hash.");
        reveal_strlit("Internal points are exploratory and must be labeled before publication.");
        reveal_strlit("census-county-population-estimates-2024");
        reveal_strlit("US Census public data; source-derived county weights must record vintage.");
        reveal_strlit("County population table keyed by GEOID with source hash and vintage.");
        reveal_strlit("Population weights must not remain placeholders for the baseline scorecard.");
        reveal_strlit("dot-49-cfr-71");
        reveal_strlit("Federal regulation reference; cite retrieved eCFR text and clause paths.");
        reveal_strlit("Machine-readable current-law assignment evidence table citing 49 CFR Part 71 clauses.");
        reveal_strlit("County-level assignments must preserve clause evidence and uncertainty.");
        reveal_strlit("dot-time-zone-map-layer");
        reveal_strlit("DOT public map reference; verify metadata, vintage, and distribution terms before broad cache.");
        reveal_strlit("Reconciliation table comparing DOT geometry to county units and 49 CFR clauses.");
        reveal_strlit("Endpoint metadata is recorded at data/source-endpoints/dot-time-zones-arcgis.json.");
        reveal_strlit("Map geometry cannot override 49 CFR text without a documented reconciliation note.");
        reveal_strlit("dot-time-zone-procedure");
        reveal_strlit("DOT public guidance; cite as process context, not score data.");
        reveal_strlit("Research note for boundary-change procedure and convenience-of-commerce context.");
        reveal_strlit("Procedure guidance must not be treated as a scoring dataset.");
        reveal_strlit("iana-tzdb-theory");
        reveal_strlit("IANA tzdb documentation reference; use for limitations and offset-rule context.");
        reveal_strlit("Research note explaining why IANA tzdb is not legal-boundary evidence.");
        reveal_strlit("Do not use as complete legal-boundary geometry for the US county baseline.");
        let e = p.entries@;
        assert(e[0].source_id@.len() != e[1].source_id@.len());
        assert(e[0].source_id@.len() != e[2].source_id@.len());
        assert(e[0].source_id@.len() != e[3].source_id@.len());
        assert(e[0].source_id@.len() != e[4].source_id@.len());
        assert(e[0].source_id@.len() != e[5].source_id@.len());
        assert(e[0].source_id@.len() != e[6].source_id@.len());
        assert(e[1].source_id@.len() != e[2].source_id@.len());
        assert(e[1].source_id@.len() != e[3].source_id@.len());
        assert(e[1].source_id@.len() != e[4].source_id@.len());
        assert(e[1].source_id@.len() != e[5].source_id@.len());
        assert(e[1].source_id@.len() != e[6].source_id@.len());
        assert(e[2].source_id@.len() != e[3].source_id@.len());
        assert(e[2].source_id@.len() != e[4].source_id@.len());
        assert(e[2].source_id@.len() != e[5].source_id@.len());
        assert(e[2].source_id@.len() != e[6].source_id@.len());
        assert(e[3].source_id@.len() != e[4].source_id@.len());
        assert(e[3].source_id@.len() != e[5].source_id@.len());
        assert(e[3].source_id@.len() != e[6].source_id@.len());
        assert(e[4].source_id@[14] != e[5].source_id@[14]);
        assert(e[4].source_id@.len() != e[6].source_id@.len());
        assert(e[5].source_id@.len() != e[6].source_id@.len());
        assert forall|j: int| 0 <= j < e.len() implies #[trigger] p.entry_outcomes()[j] is None by {
            assert(e[j].check() is Ok);
            assert forall|k: int| 0 <= k < j implies e[k].source_id@ != e[j].source_id@ by {}
        }
        lemma_gate_note_total(e);
        lemma_first_error_ok(p.entry_outcomes());
        assert(p.id_set() =~= foundation_source_ids()) by {
            assert forall|x: Seq<char>| p.id_set().contains(x) <==> foundation_source_ids().contains(x) by {
                if foundation_source_ids().contains(x) {
                    if x == e[0].source_id@ { assert(id_among_entries(e, 7, e[0].source_id@)); }
                    if x == e[1].source_id@ { assert(id_among_entries(e, 7, e[1].source_id@)); }
                    if x == e[2].source_id@ { assert(id_among_entries(e, 7, e[2].source_id@)); }
                    if x == e[3].source_id@ { assert(id_among_entries(e, 7, e[3].source_id@)); }
                    if x == e[4].source_id@ { assert(id_among_entries(e, 7, e[4].source_id@)); }
                    if x == e[5].source_id@ { assert(id_among_entries(e, 7, e[5].source_id@)); }
                    if x == e[6].source_id@ { assert(id_among_entries(e, 7, e[6].source_id@)); }
                }
            }
        }
    }
    p
}

/// What each broad family of sources can and cannot support.
pub fn seed_source_limitation_matrix() -> (m: SourceLimitationMatrix)
    ensures
        m.matrix_id@ == "zones-source-limitation-matrix-v0"@,
        m.generated_on@ == "2026-05-26"@,
        m.entries@.len() == 5,
        m.entries@[0].source_id@ == "iana-tzdb"@,
        m.entries@[0].source_kind == SourceKind::TimeRuleDatabase,
        m.entries@[0].assessments@.len() == 3,
        m.entries@[0].assessments@[0].claim == SourceClaim::OffsetRuleHistory,
        m.entries@[0].assessments@[0].support == SourceSupportLevel::Supports,
        m.entries@[0].assessments@[1].claim == SourceClaim::LegalBoundaryGeometry,
        m.entries@[0].assessments@[1].support == SourceSupportLevel::NotSupported,
        m.entries@[0].assessments@[2].claim == SourceClaim::HistoricalReconstruction,
        m.entries@[0].assessments@[2].support == SourceSupportLevel::Partial,
        m.entries@[0].caveats@.len() == 1,
        m.entries@[1].source_id@ == "unicode-cldr"@,
        m.entries@[1].source_kind == SourceKind::TimeRuleDatabase,
        m.entries@[1].assessments@.len() == 2,
        m.entries@[1].assessments@[0].claim == SourceClaim::DisplayMetadata,
        m.entries@[1].assessments@[0].support == SourceSupportLevel::Supports,
        m.entries@[1].assessments@[1].claim == SourceClaim::LegalBoundaryGeometry,
        m.entries@[1].assessments@[1].support == SourceSupportLevel::NotSupported,
        m.entries@[1].caveats@.len() == 1,
        m.entries@[2].source_id@ == "national-legal-sources"@,
        m.entries@[2].source_kind == SourceKind::LegalText,
        m.entries@[2].assessments@.len() == 3,
        m.entries@[2].assessments@[0].claim == SourceClaim::CurrentLegalOffset,
        m.entries@[2].assessments@[0].support == SourceSupportLevel::Supports,
        m.entries@[2].assessments@[1].claim == SourceClaim::LegalBoundaryGeometry,
        m.entries@[2].assessments@[1].support == SourceSupportLevel::Partial,
        m.entries@[2].assessments@[2].claim == SourceClaim::OffsetRuleHistory,
        m.entries@[2].assessments@[2].support == SourceSupportLevel::Partial,
        m.entries@[2].caveats@.len() == 1,
        m.entries@[3].source_id@ == "official-administrative-boundaries"@,
        m.entries@[3].source_kind == SourceKind::GeospatialBoundary,
        m.entries@[3].assessments@.len() == 3,
        m.entries@[3].assessments@[0].claim == SourceClaim::AdministrativeBoundaryGeometry,
        m.entries@[3].assessments@[0].support == SourceSupportLevel::Supports,
        m.entries@[3].assessments@[1].claim == SourceClaim::LegalBoundaryGeometry,
        m.entries@[3].assessments@[1].support == SourceSupportLevel::Partial,
        m.entries@[3].assessments@[2].claim == SourceClaim::CurrentLegalOffset,
        m.entries@[3].assessments@[2].support == SourceSupportLevel::NotSupported,
        m.entries@[3].caveats@.len() == 1,
        m.entries@[4].source_id@ == "population-and-representative-points"@,
        m.entries@[4].source_kind == SourceKind::Population,
        m.entries@[4].assessments@.len() == 3,
        m.entries@[4].assessments@[0].claim == SourceClaim::PopulationWeights,
        m.entries@[4].assessments@[0].support == SourceSupportLevel::Supports,
        m.entries@[4].assessments@[1].claim == SourceClaim::RepresentativePoint,
        m.entries@[4].assessments@[1].support == SourceSupportLevel::Supports,
        m.entries@[4].assessments@[2].claim == SourceClaim::LegalBoundaryGeometry,
        m.entries@[4].assessments@[2].support == SourceSupportLevel::NotSupported,
        m.entries@[4].caveats@.len() == 1,
        m.check() is Ok,
        sum_of(m.entries@, entry_assessment_count()) == 14,
        m.entries@[0].title@ == "IANA Time Zone Database"@,
        m.entries@[0].assessments@[0].notes@ == "Records post-1970 civil-time transitions for representative tzdb zones."@,
        m.entries@[0].assessments@[1].notes@ == "Does not provide authoritative legal polygons or administrative boundary assignments."@,
        m.entries@[0].assessments@[2].notes@ == "Contains some pre-1970 material, but its own theory file warns that complete past-time handling everywhere is out of scope."@,
        m.entries@[0].caveats@[0]@ == "Use for offset-rule history, not as complete legal-boundary evidence."@,
        m.entries@[1].title@ == "Unicode CLDR time-zone metadata"@,
        m.entries@[1].assessments@[0].notes@ == "Provides localized time-zone names, aliases, and interoperability metadata."@,
        m.entries@[1].assessments@[1].notes@ == "Not a legal or geospatial boundary authority."@,
        m.entries@[1].caveats@[0]@ == "Useful for labels and mappings, not for scoring legal zone boundaries."@,
        m.entries@[2].title@ == "National statutes, regulations, and official maps"@,
        m.entries@[2].assessments@[0].notes@ == "Best authority for current legal claims when current and accessible."@,
        m.entries@[2].assessments@[1].notes@ == "May define legal boundaries textually or by map, but availability and machine readability vary."@,
        m.entries@[2].assessments@[2].notes@ == "Historical law can be authoritative, but coverage, language, and amendment history vary by jurisdiction."@,
        m.entries@[2].caveats@[0]@ == "Requires country-specific audit for licensing, language, currency, and historical completeness."@,
        m.entries@[3].title@ == "Official administrative boundary geometry"@,
        m.entries@[3].assessments@[0].notes@ == "Primary input for state, county, province, municipality, or district graph construction."@,
        m.entries@[3].assessments@[1].notes@ == "Supports legal time-zone scoring only when time law aligns to these units or assignments are independently derived."@,
        m.entries@[3].assessments@[2].notes@ == "Boundary geometry alone does not identify the legal UTC offset."@,
        m.entries@[3].caveats@[0]@ == "Must be paired with legal time-zone assignments and source vintages."@,
        m.entries@[4].title@ == "Population weights and representative points"@,
        m.entries@[4].assessments@[0].notes@ == "Needed for population-weighted error and disruption metrics."@,
        m.entries@[4].assessments@[1].notes@ == "Needed to compute longitude-derived solar offset when geometry is not directly integrated."@,
        m.entries@[4].assessments@[2].notes@ == "Representative points and population tables do not establish legal time-zone boundaries."@,
        m.entries@[4].caveats@[0]@ == "Centroid, internal-point, and population-center choices can change measured solar error."@,
{
    let m = SourceLimitationMatrix {
        matrix_id: String::from_str("zones-source-limitation-matrix-v0"),
        generated_on: String::from_str("2026-05-26"),
        entries: vec![
            SourceLimitationEntry {
                source_id: String::from_str("iana-tzdb"),
                source_kind: SourceKind::TimeRuleDatabase,
                title: String::from_str("IANA Time Zone Database"),
                assessments: vec![
                    SourceClaimAssessment {
                        claim: SourceClaim::OffsetRuleHistory,
                        support: SourceSupportLevel::Supports,
                        notes: String::from_str("Records post-1970 civil-time transitions for representative tzdb zones."),
                    },
                    SourceClaimAssessment {
                        claim: SourceClaim::LegalBoundaryGeometry,
                        support: SourceSupportLevel::NotSupported,
                        notes: String::from_str("Does not provide authoritative legal polygons or administrative boundary assignments."),
                    },
                    SourceClaimAssessment {
                        claim: SourceClaim::HistoricalReconstruction,
                        support: SourceSupportLevel::Partial,
                        notes: String::from_str("Contains some pre-1970 material, but its own theory file warns that complete past-time handling everywhere is out of scope."),
                    },
                ],
                caveats: vec![
                    String::from_str("Use for offset-rule history, not as complete legal-boundary evidence."),
                ],
            },
            SourceLimitationEntry {
                source_id: String::from_str("unicode-cldr"),
                source_kind: SourceKind::TimeRuleDatabase,
                title: String::from_str("Unicode CLDR time-zone metadata"),
                assessments: vec![
                    SourceClaimAssessment {
                        claim: SourceClaim::DisplayMetadata,
                        support: SourceSupportLevel::Supports,
                        notes: String::from_str("Provides localized time-zone names, aliases, and interoperability metadata."),
                    },
                    SourceClaimAssessment {
                        claim: SourceClaim::LegalBoundaryGeometry,
                        support: SourceSupportLevel::NotSupported,
                        notes: String::from_str("Not a legal or geospatial boundary authority."),
                    },
                ],
                caveats: vec![
                    String::from_str("Useful for labels and mappings, not for scoring legal zone boundaries."),
                ],
            },
            SourceLimitationEntry {
                source_id: String::from_str("national-legal-sources"),
                source_kind: SourceKind::LegalText,
                title: String::from_str("National statutes, regulations, and official maps"),
                assessments: vec![
                    SourceClaimAssessment {
                        claim: SourceClaim::CurrentLegalOffset,
                        support: SourceSupportLevel::Supports,
                        notes: String::from_str("Best authority for current legal claims when current and accessible."),
                    },
                    SourceClaimAssessment {
                        claim: SourceClaim::LegalBoundaryGeometry,
                        support: SourceSupportLevel::Partial,
                        notes: String::from_str("May define legal boundaries textually or by map, but availability and machine readability vary."),
                    },
                    SourceClaimAssessment {
                        claim: SourceClaim::OffsetRuleHistory,
                        support: SourceSupportLevel::Partial,
                        notes: String::from_str("Historical law can be authoritative, but coverage, language, and amendment history vary by jurisdiction."),
                    },
                ],
                caveats: vec![
                    String::from_str("Requires country-specific audit for licensing, language, currency, and historical completeness."),
                ],
            },
            SourceLimitationEntry {
                source_id: String::from_str("official-administrative-boundaries"),
                source_kind: SourceKind::GeospatialBoundary,
                title: String::from_str("Official administrative boundary geometry"),
                assessments: vec![
                    SourceClaimAssessment {
                        claim: SourceClaim::AdministrativeBoundaryGeometry,
                        support: SourceSupportLevel::Supports,
                        notes: String::from_str("Primary input for state, county, province, municipality, or district graph construction."),
                    },
                    SourceClaimAssessment {
                        claim: SourceClaim::LegalBoundaryGeometry,
                        support: SourceSupportLevel::Partial,
                        notes: String::from_str("Supports legal time-zone scoring only when time law aligns to these units or assignments are independently derived."),
                    },
                    SourceClaimAssessment {
                        claim: SourceClaim::CurrentLegalOffset,
                        support: SourceSupportLevel::NotSupported,
                        notes: String::from_str("Boundary geometry alone does not identify the legal UTC offset."),
                    },
                ],
                caveats: vec![
                    String::from_str("Must be paired with legal time-zone assignments and source vintages."),
                ],
            },
            SourceLimitationEntry {
                source_id: String::from_str("population-and-representative-points"),
                source_kind: SourceKind::Population,
                title: String::from_str("Population weights and representative points"),
                assessments: vec![
                    SourceClaimAssessment {
                        claim: SourceClaim::PopulationWeights,
                        support: SourceSupportLevel::Supports,
                        notes: String::from_str("Needed for population-weighted error and disruption metrics."),
                    },
                    SourceClaimAssessment {
                        claim: SourceClaim::RepresentativePoint,
                        support: SourceSupportLevel::Supports,
                        notes: String::from_str("Needed to compute longitude-derived solar offset when geometry is not directly integrated."),
                    },
                    SourceClaimAssessment {
                        claim: SourceClaim::LegalBoundaryGeometry,
                        support: SourceSupportLevel::NotSupported,
                        notes: String::from_str("Representative points and population tables do not establish legal time-zone boundaries."),
                    },
                ],
                caveats: vec![
                    String::from_str("Centroid, internal-point, and population-center choices can change measured solar error."),
                ],
            },
        ],
    };
    proof {
        reveal_strlit("zones-source-limitation-matrix-v0");
        reveal_strlit("2026-05-26");
        reveal_strlit("iana-tzdb");
        reveal_strlit("IANA Time Zone Database");
        reveal_strlit("Records post-1970 civil-time transitions for representative tzdb zones.");
        reveal_strlit("Does not provide authoritative legal polygons or administrative boundary assignments.");
        reveal_strlit("Contains some pre-1970 material, but its own theory file warns that complete past-time handling everywhere is out of scope.");
        reveal_strlit("Use for offset-rule history, not as complete legal-boundary evidence.");
        reveal_strlit("unicode-cldr");
        reveal_strlit("Unicode CLDR time-zone metadata");
        reveal_strlit("Provides localized time-zone names, aliases, and interoperability metadata.");
        reveal_strlit("Not a legal or geospatial boundary authority.");
        reveal_strlit("Useful for labels and mappings, not for scoring legal zone boundaries.");
        reveal_strlit("national-legal-sources");
        reveal_strlit("National statutes, regulations, and official maps");
        reveal_strlit("Best authority for current legal claims when current and accessible.");
        reveal_strlit("May define legal boundaries textually or by map, but availability and machine readability vary.");
        reveal_strlit("Historical law can be authoritative, but coverage, language, and amendment history vary by jurisdiction.");
        reveal_strlit("Requires country-specific audit for licensing, language, currency, and historical completeness.");
        reveal_strlit("official-administrative-boundaries");
        reveal_strlit("Official administrative boundary geometry");
        reveal_strlit("Primary input for state, county, province, municipality, or district graph construction.");
        reveal_strlit("Supports legal time-zone scoring only when time law aligns to these units or assignments are independently derived.");
        reveal_strlit("Boundary geometry alone does not identify the legal UTC offset.");
        reveal_strlit("Must be paired with legal time-zone assignments and source vintages.");
        reveal_strlit("population-and-representative-points");
        reveal_strlit("Population weights and representative points");
        reveal_strlit("Needed for population-weighted error and disruption metrics.");
        reveal_strlit("Needed to compute longitude-derived solar offset when geometry is not directly integrated.");
        reveal_strlit("Representative points and population tables do not establish legal time-zone boundaries.");
        reveal_strlit("Centroid, internal-point, and population-center choices can change measured solar error.");
        let e = m.entries@;
        assert(e[0].source_id@.len() != e[1].source_id@.len());
        assert(e[0].source_id@.len() != e[2].source_id@.len());
        assert(e[0].source_id@.len() != e[3].source_id@.len());
        assert(e[0].source_id@.len() != e[4].source_id@.len());
        assert(e[1].source_id@.len() != e[2].source_id@.len());
        assert(e[1].source_id@.len() != e[3].source_id@.len());
        assert(e[1].source_id@.len() != e[4].source_id@.len());
        assert(e[2].source_id@.len() != e[3].source_id@.len());
        assert(e[2].source_id@.len() != e[4].source_id@.len());
        assert(e[3].source_id@.len() != e[4].source_id@.len());
        lemma_limitation_entry_ok(e[0]);
        lemma_limitation_entry_ok(e[1]);
        lemma_limitation_entry_ok(e[2]);
        lemma_limitation_entry_ok(e[3]);
        lemma_limitation_entry_ok(e[4]);
        assert forall|j: int| 0 <= j < e.len() implies #[trigger] m.entry_outcomes()[j] is None by {
            assert(e[j].check() is Ok);
            assert forall|k: int| 0 <= k < j implies e[k].source_id@ != e[j].source_id@ by {}
        }
        lemma_assessment_total(e);
        lemma_first_error_ok(m.entry_outcomes());
    }
    m
}

/// Which responsibilities each module owns and must not own.
pub fn seed_module_boundary_contract() -> (c: ModuleBoundaryContract)
    ensures
        c.contract_id@ == "zones-module-boundaries-v0"@,
        c.generated_on@ == "2026-05-26"@,
        c.entries@.len() == 4,
        c.entries@[0].module_id@ == "rline"@,
        c.entries@[0].owns@.len() == 2,
        c.entries@[0].must_not_own@.len() == 2,
        c.entries@[0].upstream_dependencies@.len() == 0,
        c.entries@[0].downstream_consumers@.len() == 2,
        c.entries@[0].downstream_consumers@[0]@ == "rplan"@,
        c.entries@[0].downstream_consumers@[1]@ == "zones"@,
        c.entries@[1].module_id@ == "rplan"@,
        c.entries@[1].owns@.len() == 2,
        c.entries@[1].must_not_own@.len() == 2,
        c.entries@[1].upstream_dependencies@.len() == 1,
        c.entries@[1].upstream_dependencies@[0]@ == "rline"@,
        c.entries@[1].downstream_consumers@.len() == 1,
        c.entries@[1].downstream_consumers@[0]@ == "zones"@,
        c.entries@[2].module_id@ == "zones"@,
        c.entries@[2].owns@.len() == 3,
        c.entries@[2].must_not_own@.len() == 2,
        c.entries@[2].upstream_dependencies@.len() == 2,
        c.entries@[2].upstream_dependencies@[0]@ == "rline"@,
        c.entries@[2].upstream_dependencies@[1]@ == "rplan"@,
        c.entries@[2].downstream_consumers@.len() == 0,
        c.entries@[3].module_id@ == "bisect"@,
        c.entries@[3].owns@.len() == 1,
        c.entries@[3].must_not_own@.len() == 2,
        c.entries@[3].upstream_dependencies@.len() == 2,
        c.entries@[3].upstream_dependencies@[0]@ == "rline"@,
        c.entries@[3].upstream_dependencies@[1]@ == "rplan"@,
        c.entries@[3].downstream_consumers@.len() == 1,
        c.entries@[3].downstream_consumers@[0]@ == "zones-reference-only"@,
        c.caveats@.len() == 1,
        c.check() is Ok,
        sum_of(c.entries@, entry_owns_count()) == 8,
        sum_of(c.entries@, entry_exclusion_count()) == 8,
        sum_of(c.entries@, entry_dependency_count()) == 5,
        sum_of(c.entries@, entry_consumer_count()) == 4,
        c.entries@[0].owns@[0]@ == "Reusable graph kernels and connectivity metrics."@,
        c.entries@[0].owns@[1]@ == "Generic statistical or optimization primitives with no civic-time semantics."@,
        c.entries@[0].must_not_own@[0]@ == "Time-zone legal authority or solar-time policy assumptions."@,
        c.entries@[0].must_not_own@[1]@ == "ZONES source caveats, scenario labels, or civil-time scoring definitions."@,
        c.entries@[1].owns@[0]@ == "Portable legal-boundary unit graph and context contracts."@,
        c.entries@[1].owns@[1]@ == "Unit ids, adjacency, populations, source hashes, and assignment carriers."@,
        c.entries@[1].must_not_own@[0]@ == "Time-zone reform recommendations."@,
        c.entries@[1].must_not_own@[1]@ == "Solar-noon error scoring or DST scenario semantics."@,
        c.entries@[2].owns@[0]@ == "Civil-time regimes, offset rules, DST deltas, and scenario labels."@,
        c.entries@[2].owns@[1]@ == "Solar-time scoring, source limitation matrices, and time-zone research artifacts."@,
        c.entries@[2].owns@[2]@ == "Mappings from RPLAN contexts into time-zone plan evaluations."@,
        c.entries@[2].must_not_own@[0]@ == "Generic graph-kernel implementations that belong in RLINE."@,
        c.entries@[2].must_not_own@[1]@ == "Reusable non-time-zone redistricting context semantics that belong in RPLAN."@,
        c.entries@[3].owns@[0]@ == "Election/redistricting application precedent and Census/GEOID implementation examples."@,
        c.entries@[3].must_not_own@[0]@ == "New ZONES time-zone policy logic."@,
        c.entries@[3].must_not_own@[1]@ == "Shared boundary contracts that should be promoted into RPLAN."@,
        c.caveats@[0]@ == "This contract is architectural guidance; it does not prevent future extraction of reusable ZONES components into shared crates."@,
{
    let c = ModuleBoundaryContract {
        contract_id: String::from_str("zones-module-boundaries-v0"),
        generated_on: String::from_str("2026-05-26"),
        entries: vec![
            ModuleBoundaryEntry {
                module_id: String::from_str("rline"),
                owns: vec![
                    String::from_str("Reusable graph kernels and connectivity metrics."),
                    String::from_str("Generic statistical or optimization primitives with no civic-time semantics."),
                ],
                must_not_own: vec![
                    String::from_str("Time-zone legal authority or solar-time policy assumptions."),
                    String::from_str("ZONES source caveats, scenario labels, or civil-time scoring definitions."),
                ],
                upstream_dependencies: vec![],
                downstream_consumers: vec![
                    String::from_str("rplan"),
                    String::from_str("zones"),
                ],
            },
            ModuleBoundaryEntry {
                module_id: String::from_str("rplan"),
                owns: vec![
                    String::from_str("Portable legal-boundary unit graph and context contracts."),
                    String::from_str("Unit ids, adjacency, populations, source hashes, and assignment carriers."),
                ],
                must_not_own: vec![
                    String::from_str("Time-zone reform recommendations."),
                    String::from_str("Solar-noon error scoring or DST scenario semantics."),
                ],
                upstream_dependencies: vec![
                    String::from_str("rline"),
                ],
                downstream_consumers: vec![
                    String::from_str("zones"),
                ],
            },
            ModuleBoundaryEntry {
                module_id: String::from_str("zones"),
                owns: vec![
                    String::from_str("Civil-time regimes, offset rules, DST deltas, and scenario labels."),
                    String::from_str("Solar-time scoring, source limitation matrices, and time-zone research artifacts."),
                    String::from_str("Mappings from RPLAN contexts into time-zone plan evaluations."),
                ],
                must_not_own: vec![
                    String::from_str("Generic graph-kernel implementations that belong in RLINE."),
                    String::from_str("Reusable non-time-zone redistricting context semantics that belong in RPLAN."),
                ],
                upstream_dependencies: vec![
                    String::from_str("rline"),
                    String::from_str("rplan"),
                ],
                downstream_consumers: vec![],
            },
            ModuleBoundaryEntry {
                module_id: String::from_str("bisect"),
                owns: vec![
                    String::from_str("Election/redistricting application precedent and Census/GEOID implementation examples."),
                ],
                must_not_own: vec![
                    String::from_str("New ZONES time-zone policy logic."),
                    String::from_str("Shared boundary contracts that should be promoted into RPLAN."),
                ],
                upstream_dependencies: vec![
                    String::from_str("rline"),
                    String::from_str("rplan"),
                ],
                downstream_consumers: vec![
                    String::from_str("zones-reference-only"),
                ],
            },
        ],
        caveats: vec![
            String::from_str("This contract is architectural guidance; it does not prevent future extraction of reusable ZONES components into shared crates."),
        ],
    };
    proof {
        reveal_strlit("zones-module-boundaries-v0");
        reveal_strlit("2026-05-26");
        reveal_strlit("rline");
        reveal_strlit("Reusable graph kernels and connectivity metrics.");
        reveal_strlit("Generic statistical or optimization primitives with no civic-time semantics.");
        reveal_strlit("Time-zone legal authority or solar-time policy assumptions.");
        reveal_strlit("ZONES source caveats, scenario labels, or civil-time scoring definitions.");
        reveal_strlit("rplan");
        reveal_strlit("zones");
        reveal_strlit("Portable legal-boundary unit graph and context contracts.");
        reveal_strlit("Unit ids, adjacency, populations, source hashes, and assignment carriers.");
        reveal_strlit("Time-zone reform recommendations.");
        reveal_strlit("Solar-noon error scoring or DST scenario semantics.");
        reveal_strlit("Civil-time regimes, offset rules, DST deltas, and scenario labels.");
        reveal_strlit("Solar-time scoring, source limitation matrices, and time-zone research artifacts.");
        reveal_strlit("Mappings from RPLAN contexts into time-zone plan evaluations.");
        reveal_strlit("Generic graph-kernel implementations that belong in RLINE.");
        reveal_strlit("Reusable non-time-zone redistricting context semantics that belong in RPLAN.");
        reveal_strlit("bisect");
        reveal_strlit("Election/redistricting application precedent and Census/GEOID implementation examples.");
        reveal_strlit("New ZONES time-zone policy logic.");
        reveal_strlit("Shared boundary contracts that should be promoted into RPLAN.");
        reveal_strlit("zones-reference-only");
        reveal_strlit("This contract is architectural guidance; it does not prevent future extraction of reusable ZONES components into shared crates.");
        let e = c.entries@;
        assert(e[0].module_id@[1] != e[1].module_id@[1]);
        assert(e[0].module_id@[0] != e[2].module_id@[0]);
        assert(e[0].module_id@.len() != e[3].module_id@.len());
        assert(e[1].module_id@[0] != e[2].module_id@[0]);
        assert(e[1].module_id@.len() != e[3].module_id@.len());
        assert(e[2].module_id@.len() != e[3].module_id@.len());
        lemma_statements_ok("module_boundary_entry.owns", e[0].owns@);
        lemma_statements_ok("module_boundary_entry.must_not_own", e[0].must_not_own@);
        lemma_statements_ok("module_boundary_entry.upstream_dependencies", e[0].upstream_dependencies@);
        lemma_statements_ok("module_boundary_entry.downstream_consumers", e[0].downstream_consumers@);
        assert(e[0].check() is Ok);
        lemma_statements_ok("module_boundary_entry.owns", e[1].owns@);
        lemma_statements_ok("module_boundary_entry.must_not_own", e[1].must_not_own@);
        lemma_statements_ok("module_boundary_entry.upstream_dependencies", e[1].upstream_dependencies@);
        lemma_statements_ok("module_boundary_entry.downstream_consumers", e[1].downstream_consumers@);
        assert(e[1].check() is Ok);
        lemma_statements_ok("module_boundary_entry.owns", e[2].owns@);
        lemma_statements_ok("module_boundary_entry.must_not_own", e[2].must_not_own@);
        lemma_statements_ok("module_boundary_entry.upstream_dependencies", e[2].upstream_dependencies@);
        lemma_statements_ok("module_boundary_entry.downstream_consumers", e[2].downstream_consumers@);
        assert(e[2].check() is Ok);
        lemma_statements_ok("module_boundary_entry.owns", e[3].owns@);
        lemma_statements_ok("module_boundary_entry.must_not_own", e[3].must_not_own@);
        lemma_statements_ok("module_boundary_entry.upstream_dependencies", e[3].upstream_dependencies@);
        lemma_statements_ok("module_boundary_entry.downstream_consumers", e[3].downstream_consumers@);
        assert(e[3].check() is Ok);
        assert forall|j: int| 0 <= j < e.len() implies #[trigger] c.entry_outcomes()[j] is None by {
            assert(e[j].check() is Ok);
            assert forall|k: int| 0 <= k < j implies e[k].module_id@ != e[j].module_id@ by {}
        }
        lemma_owns_total(e);
        lemma_exclusion_total(e);
        lemma_dependency_total(e);
        lemma_consumer_total(e);
        lemma_first_error_ok(c.entry_outcomes());
    }
    c
}

/// Placeholder current-law zone assignments for the four smoke counties.
pub fn seed_us_county_smoke_time_zone_assignments() -> (s: CountyTimeZoneAssignmentSet)
    ensures
        s.assignment_id@ == "zones-us-county-smoke-current-law-assignments"@,
        s.source_manifest_id@ == "zones-us-foundation-sources"@,
        s.generated_on@ == "2026-05-26"@,
        s.scenario_id@ == "us-county-smoke-current-law-shape"@,
        s.assignments@.len() == 4,
        s.assignments@[0].unit_id@ == "01001"@,
        s.assignments@[0].zone_id@ == "utc-minus-06-00"@,
        s.assignments@[0].legal_source_id@ == "dot-49-cfr-71"@,
        s.assignments@[0].legal_clause@ == "smoke-placeholder-49-cfr-71"@,
        s.assignments@[0].geometry_source_id is Some && s.assignments@[0].geometry_source_id->0@ == "dot-time-zone-map-layer"@,
        s.assignments@[0].status == CountyAssignmentStatus::Placeholder,
        s.assignments@[0].caveats@.len() == 1,
        s.assignments@[1].unit_id@ == "01003"@,
        s.assignments@[1].zone_id@ == "utc-minus-06-00"@,
        s.assignments@[1].legal_source_id@ == "dot-49-cfr-71"@,
        s.assignments@[1].legal_clause@ == "smoke-placeholder-49-cfr-71"@,
        s.assignments@[1].geometry_source_id is Some && s.assignments@[1].geometry_source_id->0@ == "dot-time-zone-map-layer"@,
        s.assignments@[1].status == CountyAssignmentStatus::Placeholder,
        s.assignments@[1].caveats@.len() == 1,
        s.assignments@[2].unit_id@ == "12001"@,
        s.assignments@[2].zone_id@ == "utc-minus-05-00"@,
        s.assignments@[2].legal_source_id@ == "dot-49-cfr-71"@,
        s.assignments@[2].legal_clause@ == "smoke-placeholder-49-cfr-71"@,
        s.assignments@[2].geometry_source_id is Some && s.assignments@[2].geometry_source_id->0@ == "dot-time-zone-map-layer"@,
        s.assignments@[2].status == CountyAssignmentStatus::Placeholder,
        s.assignments@[2].caveats@.len() == 1,
        s.assignments@[3].unit_id@ == "12003"@,
        s.assignments@[3].zone_id@ == "utc-minus-05-00"@,
        s.assignments@[3].legal_source_id@ == "dot-49-cfr-71"@,
        s.assignments@[3].legal_clause@ == "smoke-placeholder-49-cfr-71"@,
        s.assignments@[3].geometry_source_id is Some && s.assignments@[3].geometry_source_id->0@ == "dot-time-zone-map-layer"@,
        s.assignments@[3].status == CountyAssignmentStatus::Placeholder,
        s.assignments@[3].caveats@.len() == 1,
        sum_of(s.assignments@, assignment_caveat_count()) == 4,
        forall|m: SourceManifest|
            m.check() is Ok && m.id_set() == foundation_source_ids() && m.manifest_id@
                == "zones-us-foundation-sources"@ ==> #[trigger] s.check(m) is Ok,
{
    let s = CountyTimeZoneAssignmentSet {
        assignment_id: String::from_str("zones-us-county-smoke-current-law-assignments"),
        source_manifest_id: String::from_str("zones-us-foundation-sources"),
        generated_on: String::from_str("2026-05-26"),
        scenario_id: String::from_str("us-county-smoke-current-law-shape"),
        assignments: vec![
            CountyTimeZoneAssignment {
                unit_id: String::from_str("01001"),
                zone_id: String::from_str("utc-minus-06-00"),
                legal_source_id: String::from_str("dot-49-cfr-71"),
                legal_clause: String::from_str("smoke-placeholder-49-cfr-71"),
                geometry_source_id: Some(String::from_str("dot-time-zone-map-layer")),
                status: CountyAssignmentStatus::Placeholder,
                caveats: vec![
                    String::from_str("Smoke assignment only; clause-level county evidence is not reconciled."),
                ],
            },
            CountyTimeZoneAssignment {
                unit_id: String::from_str("01003"),
                zone_id: String::from_str("utc-minus-06-00"),
                legal_source_id: String::from_str("dot-49-cfr-71"),
                legal_clause: String::from_str("smoke-placeholder-49-cfr-71"),
                geometry_source_id: Some(String::from_str("dot-time-zone-map-layer")),
                status: CountyAssignmentStatus::Placeholder,
                caveats: vec![
                    String::from_str("Smoke assignment only; clause-level county evidence is not reconciled."),
                ],
            },
            CountyTimeZoneAssignment {
                unit_id: String::from_str("12001"),
                zone_id: String::from_str("utc-minus-05-00"),
                legal_source_id: String::from_str("dot-49-cfr-71"),
                legal_clause: String::from_str("smoke-placeholder-49-cfr-71"),
                geometry_source_id: Some(String::from_str("dot-time-zone-map-layer")),
                status: CountyAssignmentStatus::Placeholder,
                caveats: vec![
                    String::from_str("Smoke assignment only; clause-level county evidence is not reconciled."),
                ],
            },
            CountyTimeZoneAssignment {
                unit_id: String::from_str("12003"),
                zone_id: String::from_str("utc-minus-05-00"),
                legal_source_id: String::from_str("dot-49-cfr-71"),
                legal_clause: String::from_str("smoke-placeholder-49-cfr-71"),
                geometry_source_id: Some(String::from_str("dot-time-zone-map-layer")),
                status: CountyAssignmentStatus::Placeholder,
                caveats: vec![
                    String::from_str("Smoke assignment only; clause-level county evidence is not reconciled."),
                ],
            },
        ],
    };
    proof {
        reveal_strlit("zones-us-county-smoke-current-law-assignments");
        reveal_strlit("zones-us-foundation-sources");
        reveal_strlit("2026-05-26");
        reveal_strlit("us-county-smoke-current-law-shape");
        reveal_strlit("01001");
        reveal_strlit("utc-minus-06-00");
        reveal_strlit("dot-49-cfr-71");
        reveal_strlit("smoke-placeholder-49-cfr-71");
        reveal_strlit("dot-time-zone-map-layer");
        reveal_strlit("Smoke assignment only; clause-level county evidence is not reconciled.");
        reveal_strlit("01003");
        reveal_strlit("12001");
        reveal_strlit("utc-minus-05-00");
        reveal_strlit("12003");
        let a = s.assignments@;
        lemma_assignment_caveat_total(a);
        assert forall|m: SourceManifest|
            m.check() is Ok && m.id_set() == foundation_source_ids() && m.manifest_id@
                == "zones-us-foundation-sources"@ implies #[trigger] s.check(m) is Ok by {
            assert(foundation_source_ids().contains("dot-49-cfr-71"@));
            assert(foundation_source_ids().contains("dot-time-zone-map-layer"@));
            assert forall|j: int| 0 <= j < a.len() implies #[trigger] s.assignment_outcomes(m)[j] is None by {
                assert(a[j].check(m) is Ok);
            }
            lemma_first_error_ok(s.assignment_outcomes(m));
        }
    }
    s
}

/// Current-law zone assignments for the four seed counties, with their 49 CFR clauses.
pub fn seed_us_county_seed_time_zone_assignments() -> (s: CountyTimeZoneAssignmentSet)
    ensures
        s.assignment_id@ == "zones-us-county-seed-current-law-assignments"@,
        s.source_manifest_id@ == "zones-us-foundation-sources"@,
        s.generated_on@ == "2026-05-27"@,
        s.scenario_id@ == "us-county-seed-current-law-shape"@,
        s.assignments@.len() == 4,
        s.assignments@[0].unit_id@ == "01001"@,
        s.assignments@[0].zone_id@ == "utc-minus-06-00"@,
        s.assignments@[0].legal_source_id@ == "dot-49-cfr-71"@,
        s.assignments@[0].legal_clause@ == "49 CFR 71.5(e); 49 CFR 71.6(a)"@,
        s.assignments@[0].geometry_source_id is Some && s.assignments@[0].geometry_source_id->0@ == "dot-time-zone-map-layer"@,
        s.assignments@[0].status == CountyAssignmentStatus::Reconciled,
        s.assignments@[0].caveats@.len() == 1,
        s.assignments@[1].unit_id@ == "01003"@,
        s.assignments@[1].zone_id@ == "utc-minus-06-00"@,
        s.assignments@[1].legal_source_id@ == "dot-49-cfr-71"@,
        s.assignments@[1].legal_clause@ == "49 CFR 71.5(e); 49 CFR 71.6(a)"@,
        s.assignments@[1].geometry_source_id is Some && s.assignments@[1].geometry_source_id->0@ == "dot-time-zone-map-layer"@,
        s.assignments@[1].status == CountyAssignmentStatus::Reconciled,
        s.assignments@[1].caveats@.len() == 1,
        s.assignments@[2].unit_id@ == "12001"@,
        s.assignments@[2].zone_id@ == "utc-minus-05-00"@,
        s.assignments@[2].legal_source_id@ == "dot-49-cfr-71"@,
        s.assignments@[2].legal_clause@ == "49 CFR 71.4; 49 CFR 71.5(f)"@,
        s.assignments@[2].geometry_source_id is Some && s.assignments@[2].geometry_source_id->0@ == "dot-time-zone-map-layer"@,
        s.assignments@[2].status == CountyAssignmentStatus::Reconciled,
        s.assignments@[2].caveats@.len() == 1,
        s.assignments@[3].unit_id@ == "12003"@,
        s.assignments@[3].zone_id@ == "utc-minus-05-00"@,
        s.assignments@[3].legal_source_id@ == "dot-49-cfr-71"@,
        s.assignments@[3].legal_clause@ == "49 CFR 71.4; 49 CFR 71.5(f)"@,
        s.assignments@[3].geometry_source_id is Some && s.assignments@[3].geometry_source_id->0@ == "dot-time-zone-map-layer"@,
        s.assignments@[3].status == CountyAssignmentStatus::Reconciled,
        s.assignments@[3].caveats@.len() == 1,
        sum_of(s.assignments@, assignment_caveat_count()) == 4,
        forall|m: SourceManifest|
            m.check() is Ok && m.id_set() == foundation_source_ids() && m.manifest_id@
                == "zones-us-foundation-sources"@ ==> #[trigger] s.check(m) is Ok,
{
    let s = CountyTimeZoneAssignmentSet {
        assignment_id: String::from_str("zones-us-county-seed-current-law-assignments"),
        source_manifest_id: String::from_str("zones-us-foundation-sources"),
        generated_on: String::from_str("2026-05-27"),
        scenario_id: String::from_str("us-county-seed-current-law-shape"),
        assignments: vec![
            CountyTimeZoneAssignment {
                unit_id: String::from_str("01001"),
                zone_id: String::from_str("utc-minus-06-00"),
                legal_source_id: String::from_str("dot-49-cfr-71"),
                legal_clause: String::from_str("49 CFR 71.5(e); 49 CFR 71.6(a)"),
                geometry_source_id: Some(String::from_str("dot-time-zone-map-layer")),
                status: CountyAssignmentStatus::Reconciled,
                caveats: vec![
                    String::from_str("Seed interpretation: Alabama is west of the eastern/central boundary described along the Alabama-Georgia line; county-level DOT geometry reconciliation remains required before publication."),
                ],
            },
            CountyTimeZoneAssignment {
                unit_id: String::from_str("01003"),
                zone_id: String::from_str("utc-minus-06-00"),
                legal_source_id: String::from_str("dot-49-cfr-71"),
                legal_clause: String::from_str("49 CFR 71.5(e); 49 CFR 71.6(a)"),
                geometry_source_id: Some(String::from_str("dot-time-zone-map-layer")),
                status: CountyAssignmentStatus::Reconciled,
                caveats: vec![
                    String::from_str("Seed interpretation: Alabama is west of the eastern/central boundary described along the Alabama-Georgia line; county-level DOT geometry reconciliation remains required before publication."),
                ],
            },
            CountyTimeZoneAssignment {
                unit_id: String::from_str("12001"),
                zone_id: String::from_str("utc-minus-05-00"),
                legal_source_id: String::from_str("dot-49-cfr-71"),
                legal_clause: String::from_str("49 CFR 71.4; 49 CFR 71.5(f)"),
                geometry_source_id: Some(String::from_str("dot-time-zone-map-layer")),
                status: CountyAssignmentStatus::Reconciled,
                caveats: vec![
                    String::from_str("Seed interpretation: county is east of the Florida boundary line described from the Apalachicola/Jackson River and Gulf County line; county-level DOT geometry reconciliation remains required before publication."),
                ],
            },
            CountyTimeZoneAssignment {
                unit_id: String::from_str("12003"),
                zone_id: String::from_str("utc-minus-05-00"),
                legal_source_id: String::from_str("dot-49-cfr-71"),
                legal_clause: String::from_str("49 CFR 71.4; 49 CFR 71.5(f)"),
                geometry_source_id: Some(String::from_str("dot-time-zone-map-layer")),
                status: CountyAssignmentStatus::Reconciled,
                caveats: vec![
                    String::from_str("Seed interpretation: county is east of the Florida boundary line described from the Apalachicola/Jackson River and Gulf County line; county-level DOT geometry reconciliation remains required before publication."),
                ],
            },
        ],
    };
    proof {
        reveal_strlit("zones-us-county-seed-current-law-assignments");
        reveal_strlit("zones-us-foundation-sources");
        reveal_strlit("2026-05-27");
        reveal_strlit("us-county-seed-current-law-shape");
        reveal_strlit("01001");
        reveal_strlit("utc-minus-06-00");
        reveal_strlit("dot-49-cfr-71");
        reveal_strlit("49 CFR 71.5(e); 49 CFR 71.6(a)");
        reveal_strlit("dot-time-zone-map-layer");
        reveal_strlit("Seed interpretation: Alabama is west of the eastern/central boundary described along the Alabama-Georgia line; county-level DOT geometry reconciliation remains required before publication.");
        reveal_strlit("01003");
        reveal_strlit("12001");
        reveal_strlit("utc-minus-05-00");
        reveal_strlit("49 CFR 71.4; 49 CFR 71.5(f)");
        reveal_strlit("Seed interpretation: county is east of the Florida boundary line described from the Apalachicola/Jackson River and Gulf County line; county-level DOT geometry reconciliation remains required before publication.");
        reveal_strlit("12003");
        let a = s.assignments@;
        lemma_assignment_caveat_total(a);
        assert forall|m: SourceManifest|
            m.check() is Ok && m.id_set() == foundation_source_ids() && m.manifest_id@
                == "zones-us-foundation-sources"@ implies #[trigger] s.check(m) is Ok by {
            assert(foundation_source_ids().contains("dot-49-cfr-71"@));
            assert(foundation_source_ids().contains("dot-time-zone-map-layer"@));
            assert forall|j: int| 0 <= j < a.len() implies #[trigger] s.assignment_outcomes(m)[j] is None by {
                assert(a[j].check(m) is Ok);
            }
            lemma_first_error_ok(s.assignment_outcomes(m));
        }
    }
    s
}


/// The coverage note of the seed geometry reconciliation for a county.
pub open spec fn coverage_note(unit_id: Seq<char>) -> Seq<char> {
    if unit_id == "01003"@ {
        BALDWIN_COVERAGE_NOTE@
    } else {
        FULL_COVERAGE_NOTE@
    }
}

/// The seed geometry reconciliation row for one county assignment: the
/// assignment's ids, the map layer as geometry source when it names none,
/// an evidence note built from the coverage note and the zone, and a caveat
/// only for the county with a residual sliver.
pub open spec fn reconciliation_row(a: CountyTimeZoneAssignment, row: CountyGeometryReconciliation) -> bool {
    &&& row.unit_id == a.unit_id
    &&& row.assignment_zone_id == a.zone_id
    &&& row.legal_source_id == a.legal_source_id
    &&& row.geometry_source_id@ == match a.geometry_source_id {
        Some(g) => g@,
        None => "dot-time-zone-map-layer"@,
    }
    &&& row.status == GeometryReconciliationStatus::Reconciled
    &&& row.evidence_note@ == coverage_note(a.unit_id@) + " Expected assignment zone: "@ + a.zone_id@
        + EVIDENCE_NOTE_END@
    &&& row.caveats@.len() == if a.unit_id@ == "01003"@ {
        1nat
    } else {
        0nat
    }
}

/// Coverage note for a county fully inside its expected time-zone polygon.
pub const FULL_COVERAGE_NOTE: &'static str =
    "TIGER 2024 county polygon is fully covered by the expected BTS/NTAD time-zone polygon at seed precision.";

/// Coverage note for Baldwin County, whose polygon leaves a tiny sliver outside.
pub const BALDWIN_COVERAGE_NOTE: &'static str =
    "TIGER 2024 county polygon intersects the expected BTS/NTAD Central polygon with coverage ratio 0.9999933435; residual outside area is a small coastal/source-boundary sliver.";

/// Closing words of each evidence note, naming the geometry layer.
pub const EVIDENCE_NOTE_END: &'static str =
    "; geometry source: BTS/NTAD Time Zones ArcGIS FeatureServer layer 0.";

fn seed_reconciliation_row(a: &CountyTimeZoneAssignment) -> (row: CountyGeometryReconciliation)
    ensures
        reconciliation_row(*a, row),
{
    let baldwin = same_text(a.unit_id.as_str(), "01003");
    let mut note = if baldwin {
        String::from_str(BALDWIN_COVERAGE_NOTE)
    } else {
        String::from_str(FULL_COVERAGE_NOTE)
    };
    let caveats: Vec<String> = if baldwin {
        vec![
            String::from_str(
                "Baldwin County has a tiny residual outside the BTS/NTAD Central polygon at source precision; review before publication.",
            ),
        ]
    } else {
        Vec::new()
    };
    note.append(" Expected assignment zone: ");
    note.append(a.zone_id.as_str());
    note.append(EVIDENCE_NOTE_END);
    let geometry_source_id = match &a.geometry_source_id {
        Some(g) => g.clone(),
        None => String::from_str("dot-time-zone-map-layer"),
    };
    CountyGeometryReconciliation {
        unit_id: a.unit_id.clone(),
        assignment_zone_id: a.zone_id.clone(),
        legal_source_id: a.legal_source_id.clone(),
        geometry_source_id,
        status: GeometryReconciliationStatus::Reconciled,
        evidence_note: note,
        caveats,
    }
}

/// The seed geometry reconciliation: one reconciled row per seed county
/// assignment, in the same order.
pub fn seed_us_county_seed_geometry_reconciliation() -> (s: CountyGeometryReconciliationSet)
    ensures
        s.reconciliation_id@ == "zones-us-county-seed-dot-geometry-reconciliation"@,
        s.source_manifest_id@ == "zones-us-foundation-sources"@,
        s.generated_on@ == "2026-05-27"@,
        s.rows@.len() == 4,
        s.rows@[0].unit_id@ == "01001"@,
        s.rows@[1].unit_id@ == "01003"@,
        s.rows@[2].unit_id@ == "12001"@,
        s.rows@[3].unit_id@ == "12003"@,
        s.rows@[0].assignment_zone_id@ == "utc-minus-06-00"@,
        s.rows@[1].assignment_zone_id@ == "utc-minus-06-00"@,
        s.rows@[2].assignment_zone_id@ == "utc-minus-05-00"@,
        s.rows@[3].assignment_zone_id@ == "utc-minus-05-00"@,
        forall|i: int| 0 <= i < 4 ==> #[trigger] s.rows@[i].legal_source_id@ == "dot-49-cfr-71"@,
        forall|i: int| 0 <= i < 4 ==> #[trigger] s.rows@[i].geometry_source_id@
            == "dot-time-zone-map-layer"@,
        forall|i: int| 0 <= i < 4 ==> #[trigger] s.rows@[i].status
            == GeometryReconciliationStatus::Reconciled,
        s.rows@[0].caveats@.len() == 0,
        s.rows@[1].caveats@.len() == 1,
        s.rows@[2].caveats@.len() == 0,
        s.rows@[3].caveats@.len() == 0,
        sum_of(s.rows@, row_caveat_count()) == 1,
        forall|m: SourceManifest|
            m.check() is Ok && m.id_set() == foundation_source_ids() && m.manifest_id@
                == "zones-us-foundation-sources"@ ==> #[trigger] s.check(m) is Ok,
{
    let assignments = seed_us_county_seed_time_zone_assignments().assignments;
    let mut rows: Vec<CountyGeometryReconciliation> = Vec::new();
    let mut i: usize = 0;
    while i < assignments.len()
        invariant
            i <= assignments@.len(),
            rows@.len() == i,
            forall|j: int| 0 <= j < i ==> reconciliation_row(assignments@[j], #[trigger] rows@[j]),
        decreases assignments@.len() - i,
    {
        let row = seed_reconciliation_row(&assignments[i]);
        rows.push(row);
        i = i + 1;
    }
    proof {
        reveal_strlit("01003");
        reveal_strlit("01001");
        reveal_strlit("12001");
        reveal_strlit("12003");
        assert("01001"@[4] != "01003"@[4]);
        assert("12001"@[0] != "01003"@[0]);
        assert("12003"@[0] != "01003"@[0]);
    }
    let s = CountyGeometryReconciliationSet {
        reconciliation_id: String::from_str("zones-us-county-seed-dot-geometry-reconciliation"),
        source_manifest_id: String::from_str("zones-us-foundation-sources"),
        generated_on: String::from_str("2026-05-27"),
        rows,
    };
    proof {
        reveal_strlit("zones-us-county-seed-dot-geometry-reconciliation");
        reveal_strlit("zones-us-foundation-sources");
        reveal_strlit("2026-05-27");
        reveal_strlit("; geometry source: BTS/NTAD Time Zones ArcGIS FeatureServer layer 0.");
        reveal_strlit("utc-minus-06-00");
        reveal_strlit("utc-minus-05-00");
        reveal_strlit("dot-49-cfr-71");
        reveal_strlit("dot-time-zone-map-layer");
        let r = s.rows@;
        lemma_row_caveat_total(r);
        assert forall|m: SourceManifest|
            m.check() is Ok && m.id_set() == foundation_source_ids() && m.manifest_id@
                == "zones-us-foundation-sources"@ implies #[trigger] s.check(m) is Ok by {
            assert(foundation_source_ids().contains("dot-49-cfr-71"@));
            assert(foundation_source_ids().contains("dot-time-zone-map-layer"@));
            assert forall|j: int| 0 <= j < r.len() implies #[trigger] s.row_outcomes(m)[j] is None by {
                assert(reconciliation_row(assignments@[j], r[j]));
                assert(r[j].evidence_note@.len() > 0);
                assert(r[j].check(m) is Ok);
            }
            lemma_first_error_ok(s.row_outcomes(m));
        }
    }
    s
}

/// Four rows, only the second with a caveat, carry one caveat.
proof fn lemma_row_caveat_total(a: Seq<CountyGeometryReconciliation>)
    requires
        a.len() == 4,
        a[0].caveats@.len() == 0,
        a[1].caveats@.len() == 1,
        a[2].caveats@.len() == 0,
        a[3].caveats@.len() == 0,
    ensures
        sum_of(a, row_caveat_count()) == 1,
{
    assert(a.take(4) =~= a);
    assert(a.take(4).drop_last() =~= a.take(3));
    assert(a.take(3).drop_last() =~= a.take(2));
    assert(a.take(2).drop_last() =~= a.take(1));
    assert(a.take(1).drop_last() =~= a.take(0));
    assert(sum_of(a.take(0), row_caveat_count()) == 0);
    assert(sum_of(a.take(1), row_caveat_count()) == 0);
    assert(sum_of(a.take(2), row_caveat_count()) == 1);
    assert(sum_of(a.take(3), row_caveat_count()) == 1);
}

/// The seed offset catalog: five zones from UTC-08:00 to UTC+05:45.
pub fn seed_zone_catalog() -> (c: ZoneCatalog)
    ensures
        c.catalog_id@ == "zones-seed-offset-catalog"@,
        c.source_manifest_id@ == "zones-us-foundation-sources"@,
        c.zones@.len() == 5,
        c.zones@[0].id@ == "utc-minus-08-00"@ && c.zones@[0].utc_offset_minutes == -480,
        c.zones@[1].id@ == "utc-minus-06-00"@ && c.zones@[1].utc_offset_minutes == -360,
        c.zones@[2].id@ == "utc-minus-05-00"@ && c.zones@[2].utc_offset_minutes == -300,
        c.zones@[3].id@ == "utc-plus-05-30"@ && c.zones@[3].utc_offset_minutes == 330,
        c.zones@[4].id@ == "utc-plus-05-45"@ && c.zones@[4].utc_offset_minutes == 345,
        c.caveats@.len() == 1,
        c.check() is Ok,
{
    proof {
        reveal_strlit("zones-seed-offset-catalog");
        reveal_strlit("zones-us-foundation-sources");
        reveal_strlit("2026-05-26");
    }
    let c = ZoneCatalog {
        catalog_id: String::from_str("zones-seed-offset-catalog"),
        source_manifest_id: String::from_str("zones-us-foundation-sources"),
        generated_on: String::from_str("2026-05-26"),
        zones: vec![
            ZoneSpec { id: String::from_str("utc-minus-08-00"), utc_offset_minutes: -480 },
            ZoneSpec { id: String::from_str("utc-minus-06-00"), utc_offset_minutes: -360 },
            ZoneSpec { id: String::from_str("utc-minus-05-00"), utc_offset_minutes: -300 },
            ZoneSpec { id: String::from_str("utc-plus-05-30"), utc_offset_minutes: 330 },
            ZoneSpec { id: String::from_str("utc-plus-05-45"), utc_offset_minutes: 345 },
        ],
        caveats: vec![
            String::from_str(
                "Seed offset catalog for validation only; not a complete legal time-zone catalog.",
            ),
        ],
    };
    proof {
        let z = c.zones@;
        lemma_first_error_ok(Seq::new(z.len(), |j: int| zone_outcome(z[j])));
    }
    c
}

/// Seven gate entries with these note counts hold eight notes in all.
proof fn lemma_gate_note_total(e: Seq<SourceGateEntry>)
    requires
        e.len() == 7,
        e[0].gate_notes@.len() == 1,
        e[1].gate_notes@.len() == 1,
        e[2].gate_notes@.len() == 1,
        e[3].gate_notes@.len() == 1,
        e[4].gate_notes@.len() == 2,
        e[5].gate_notes@.len() == 1,
        e[6].gate_notes@.len() == 1,
    ensures
        sum_of(e, entry_note_count()) == 8,
{
    assert(e.take(7).drop_last() =~= e.take(6));
    assert(e.take(6).drop_last() =~= e.take(5));
    assert(e.take(5).drop_last() =~= e.take(4));
    assert(e.take(4).drop_last() =~= e.take(3));
    assert(e.take(3).drop_last() =~= e.take(2));
    assert(e.take(2).drop_last() =~= e.take(1));
    assert(e.take(1).drop_last() =~= e.take(0));
    assert(e.take(7) =~= e);
    assert(sum_of(e.take(0), entry_note_count()) == 0);
    assert(sum_of(e.take(1), entry_note_count()) == 1);
    assert(sum_of(e.take(2), entry_note_count()) == 2);
    assert(sum_of(e.take(3), entry_note_count()) == 3);
    assert(sum_of(e.take(4), entry_note_count()) == 4);
    assert(sum_of(e.take(5), entry_note_count()) == 6);
    assert(sum_of(e.take(6), entry_note_count()) == 7);
    assert(sum_of(e.take(7), entry_note_count()) == 8);
}

/// Five matrix entries with these assessment counts hold fourteen assessments.
proof fn lemma_assessment_total(e: Seq<SourceLimitationEntry>)
    requires
        e.len() == 5,
        e[0].assessments@.len() == 3,
        e[1].assessments@.len() == 2,
        e[2].assessments@.len() == 3,
        e[3].assessments@.len() == 3,
        e[4].assessments@.len() == 3,
    ensures
        sum_of(e, entry_assessment_count()) == 14,
{
    assert(e.take(5).drop_last() =~= e.take(4));
    assert(e.take(4).drop_last() =~= e.take(3));
    assert(e.take(3).drop_last() =~= e.take(2));
    assert(e.take(2).drop_last() =~= e.take(1));
    assert(e.take(1).drop_last() =~= e.take(0));
    assert(e.take(5) =~= e);
    assert(sum_of(e.take(0), entry_assessment_count()) == 0);
    assert(sum_of(e.take(1), entry_assessment_count()) == 3);
    assert(sum_of(e.take(2), entry_assessment_count()) == 5);
    assert(sum_of(e.take(3), entry_assessment_count()) == 8);
    assert(sum_of(e.take(4), entry_assessment_count()) == 11);
    assert(sum_of(e.take(5), entry_assessment_count()) == 14);
}

/// Four modules with these ownership counts own eight things in all.
proof fn lemma_owns_total(e: Seq<ModuleBoundaryEntry>)
    requires
        e.len() == 4,
        e[0].owns@.len() == 2,
        e[1].owns@.len() == 2,
        e[2].owns@.len() == 3,
        e[3].owns@.len() == 1,
    ensures
        sum_of(e, entry_owns_count()) == 8,
{
    assert(e.take(4).drop_last() =~= e.take(3));
    assert(e.take(3).drop_last() =~= e.take(2));
    assert(e.take(2).drop_last() =~= e.take(1));
    assert(e.take(1).drop_last() =~= e.take(0));
    assert(e.take(4) =~= e);
    assert(sum_of(e.take(0), entry_owns_count()) == 0);
    assert(sum_of(e.take(1), entry_owns_count()) == 2);
    assert(sum_of(e.take(2), entry_owns_count()) == 4);
    assert(sum_of(e.take(3), entry_owns_count()) == 7);
    assert(sum_of(e.take(4), entry_owns_count()) == 8);
}

/// Four modules with these exclusion counts exclude eight things in all.
proof fn lemma_exclusion_total(e: Seq<ModuleBoundaryEntry>)
    requires
        e.len() == 4,
        e[0].must_not_own@.len() == 2,
        e[1].must_not_own@.len() == 2,
        e[2].must_not_own@.len() == 2,
        e[3].must_not_own@.len() == 2,
    ensures
        sum_of(e, entry_exclusion_count()) == 8,
{
    assert(e.take(4).drop_last() =~= e.take(3));
    assert(e.take(3).drop_last() =~= e.take(2));
    assert(e.take(2).drop_last() =~= e.take(1));
    assert(e.take(1).drop_last() =~= e.take(0));
    assert(e.take(4) =~= e);
    assert(sum_of(e.take(0), entry_exclusion_count()) == 0);
    assert(sum_of(e.take(1), entry_exclusion_count()) == 2);
    assert(sum_of(e.take(2), entry_exclusion_count()) == 4);
    assert(sum_of(e.take(3), entry_exclusion_count()) == 6);
    assert(sum_of(e.take(4), entry_exclusion_count()) == 8);
}

/// Four modules with these dependency counts have five dependencies in all.
proof fn lemma_dependency_total(e: Seq<ModuleBoundaryEntry>)
    requires
        e.len() == 4,
        e[0].upstream_dependencies@.len() == 0,
        e[1].upstream_dependencies@.len() == 1,
        e[2].upstream_dependencies@.len() == 2,
        e[3].upstream_dependencies@.len() == 2,
    ensures
        sum_of(e, entry_dependency_count()) == 5,
{
    assert(e.take(4).drop_last() =~= e.take(3));
    assert(e.take(3).drop_last() =~= e.take(2));
    assert(e.take(2).drop_last() =~= e.take(1));
    assert(e.take(1).drop_last() =~= e.take(0));
    assert(e.take(4) =~= e);
    assert(sum_of(e.take(0), entry_dependency_count()) == 0);
    assert(sum_of(e.take(1), entry_dependency_count()) == 0);
    assert(sum_of(e.take(2), entry_dependency_count()) == 1);
    assert(sum_of(e.take(3), entry_dependency_count()) == 3);
    assert(sum_of(e.take(4), entry_dependency_count()) == 5);
}

/// Four modules with these consumer counts have four consumers in all.
proof fn lemma_consumer_total(e: Seq<ModuleBoundaryEntry>)
    requires
        e.len() == 4,
        e[0].downstream_consumers@.len() == 2,
        e[1].downstream_consumers@.len() == 1,
        e[2].downstream_consumers@.len() == 0,
        e[3].downstream_consumers@.len() == 1,
    ensures
        sum_of(e, entry_consumer_count()) == 4,
{
    assert(e.take(4).drop_last() =~= e.take(3));
    assert(e.take(3).drop_last() =~= e.take(2));
    assert(e.take(2).drop_last() =~= e.take(1));
    assert(e.take(1).drop_last() =~= e.take(0));
    assert(e.take(4) =~= e);
    assert(sum_of(e.take(0), entry_consumer_count()) == 0);
    assert(sum_of(e.take(1), entry_consumer_count()) == 2);
    assert(sum_of(e.take(2), entry_consumer_count()) == 3);
    assert(sum_of(e.take(3), entry_consumer_count()) == 3);
    assert(sum_of(e.take(4), entry_consumer_count()) == 4);
}

/// Four assignments with one caveat each carry four caveats.
proof fn lemma_assignment_caveat_total(a: Seq<CountyTimeZoneAssignment>)
    requires
        a.len() == 4,
        forall|j: int| 0 <= j < 4 ==> (#[trigger] a[j]).caveats@.len() == 1,
    ensures
        sum_of(a, assignment_caveat_count()) == 4,
{
    assert(a.take(4) =~= a);
    assert(a.take(4).drop_last() =~= a.take(3));
    assert(a.take(3).drop_last() =~= a.take(2));
    assert(a.take(2).drop_last() =~= a.take(1));
    assert(a.take(1).drop_last() =~= a.take(0));
    assert(sum_of(a.take(0), assignment_caveat_count()) == 0);
    assert(sum_of(a.take(1), assignment_caveat_count()) == 1);
    assert(sum_of(a.take(2), assignment_caveat_count()) == 2);
    assert(sum_of(a.take(3), assignment_caveat_count()) == 3);
}

} // verus!
