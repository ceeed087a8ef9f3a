use vstd::prelude::*;

use crate::candidates::{candidate_plan_spec, zone_offsets};
use crate::checks::{count_where, lemma_count_bound, lemma_first_error_ok, sum_of};
use crate::dataset::{source_ref_outcomes, unique_id_outcome, unique_ids_check, TemporalDataset};
use crate::errors::ZonePlanError;
use crate::geojoin::{join_spec, unit_joins, GeoFeature, GeometryJoinPlan};
use crate::evaluation::{
    moved_count, moved_population_of, plan_input_check, source_ref_summary, unit_cites_all, unit_cites_assignment,
    unit_cites_boundary, unit_cites_geometry, unit_cites_point, unit_cites_population,
    unit_has_refs, unit_has_source_caveats, PlanInput,
};
use crate::plans::{
    assignment_outcome, edge_outcomes, edge_row_check, plan_inputs_check, scenario_shape_check,
    PlanUnit,
};
use crate::text::{lemma_increasing_len, strictly_increasing, views};
use crate::scores::{
    row_in_zone, row_population, row_population_in_zone, tally_ids, tally_population, tally_unit_count,
    zone_among_rows, zone_tally_spec, UnitZoneRow, ZoneTally,
};
use crate::zones::{
    max_offset, min_offset, offset_in_range, zone_outcome, ZonePlan, ZoneScenarioKind,
};
use crate::render::{csv_cell_text, csv_needs_quotes, json_escaped, xml_escaped};
use crate::format::{decimal, decimal_two, digit_char, offset_zone_label};
use crate::county::{
    assignment_has_geometry, assignment_with_status, CountyAssignmentStatus, CountyTimeZoneAssignment,
    CountyTimeZoneAssignmentSet,
};
use crate::gates::{
    entry_requires_hash, entry_with_cache, entry_with_mode, SourceAcquisitionMode, SourceCachePolicy,
    SourceGateEntry, SourceGatePolicy, SourceGateReport,
};
use crate::limitations::{
    assessment_with_support, entry_assessment_count, entry_support_count, SourceClaimAssessment,
    SourceLimitationEntry, SourceLimitationMatrix, SourceSupportLevel,
};
use crate::temporal::MAX_UTC_OFFSET_MINUTES;
use crate::sources::{
    id_among_sources, source_of_kind, source_outcome, SourceCitation, SourceKind, SourceManifest,
};
use crate::zones::{zone_half_hour, zone_quarter_hour, zone_whole_hour, ZoneCatalog, ZoneSpec};

verus! {

/// Comparing an assignment with itself moves no unit and no one.
pub proof fn lemma_same_assignment_moves_nobody(
    units: Seq<PlanUnit>,
    assignment: Seq<usize>,
    n: int,
)
    ensures
        moved_count(assignment, assignment, n) == 0,
        moved_population_of(units, assignment, assignment, n) == 0,
    decreases n,
{
    if n > 0 {
        lemma_same_assignment_moves_nobody(units, assignment, n - 1);
    }
}

proof fn lemma_offset_classes_disjoint(z: Seq<ZoneSpec>)
    ensures
        count_where(z, zone_whole_hour()) + count_where(z, zone_half_hour()) + count_where(
            z,
            zone_quarter_hour(),
        ) <= z.len(),
    decreases z.len(),
{
    if z.len() > 0 {
        lemma_offset_classes_disjoint(z.drop_last());
    }
}

/// A catalog's report splits its zones into whole-hour and other offsets,
/// and counts its half-hour and quarter-hour offsets among the others.
pub proof fn lemma_catalog_offset_counts(catalog: ZoneCatalog)
    ensures
        catalog.summary().whole_hour_offset_count + catalog.summary().non_whole_hour_offset_count
            == catalog.summary().zone_count,
        catalog.summary().half_hour_offset_count + catalog.summary().quarter_hour_offset_count
            <= catalog.summary().non_whole_hour_offset_count,
{
    let z = catalog.zones@;
    vstd::std_specs::vec::axiom_spec_len(&catalog.zones);
    lemma_offset_classes_disjoint(z);
}

/// The number of sources of each kind, summed over all kinds.
pub open spec fn kind_total(s: Seq<SourceCitation>) -> nat {
    count_where(s, source_of_kind(SourceKind::LegalText)) + count_where(
        s,
        source_of_kind(SourceKind::GeospatialBoundary),
    ) + count_where(s, source_of_kind(SourceKind::TimeRuleDatabase)) + count_where(
        s,
        source_of_kind(SourceKind::Population),
    ) + count_where(s, source_of_kind(SourceKind::RepresentativePoint)) + count_where(
        s,
        source_of_kind(SourceKind::DerivedManifest),
    ) + count_where(s, source_of_kind(SourceKind::ResearchNote)) + count_where(
        s,
        source_of_kind(SourceKind::Imported),
    )
}

proof fn lemma_kind_total(s: Seq<SourceCitation>)
    ensures
        kind_total(s) == s.len(),
    decreases s.len(),
{
    if s.len() > 0 {
        lemma_kind_total(s.drop_last());
    }
}

/// Every source of a manifest's report is counted under exactly one kind.
pub proof fn lemma_manifest_kinds_cover_sources(manifest: SourceManifest)
    ensures
        manifest.summary().legal_text_count + manifest.summary().geospatial_boundary_count
            + manifest.summary().time_rule_database_count + manifest.summary().population_count
            + manifest.summary().representative_point_count
            + manifest.summary().derived_manifest_count + manifest.summary().research_note_count
            + manifest.summary().imported_count == manifest.summary().source_count,
{
    vstd::std_specs::vec::axiom_spec_len(&manifest.sources);
    lemma_kind_total(manifest.sources@);
}

/// XML and HTML escaping leaves no raw `<`, `>`, or `"`.
pub proof fn lemma_xml_escaped_has_no_markup(s: Seq<char>)
    ensures
        forall|i: int|
            0 <= i < xml_escaped(s).len() ==> #[trigger] xml_escaped(s)[i] != '<' && xml_escaped(
                s,
            )[i] != '>' && xml_escaped(s)[i] != '"',
    decreases s.len(),
{
    reveal_strlit("&amp;");
    reveal_strlit("&lt;");
    reveal_strlit("&gt;");
    reveal_strlit("&quot;");
    if s.len() > 0 {
        lemma_xml_escaped_has_no_markup(s.drop_last());
        let head = xml_escaped(s.drop_last());
        let c = s.last();
        let piece = if c == '&' {
            "&amp;"@
        } else if c == '<' {
            "&lt;"@
        } else if c == '>' {
            "&gt;"@
        } else if c == '"' {
            "&quot;"@
        } else {
            seq![c]
        };
        assert(xml_escaped(s) == head + piece);
        assert forall|i: int| 0 <= i < xml_escaped(s).len() implies #[trigger] xml_escaped(s)[i]
            != '<' && xml_escaped(s)[i] != '>' && xml_escaped(s)[i] != '"' by {
            if i < head.len() {
                assert(xml_escaped(s)[i] == head[i]);
            } else {
                assert(xml_escaped(s)[i] == piece[i - head.len()]);
            }
        }
    }
}

/// Text without `&`, `<`, `>`, or `"` is its own XML and HTML escape.
pub proof fn lemma_xml_escape_plain_text(s: Seq<char>)
    requires
        forall|i: int|
            0 <= i < s.len() ==> #[trigger] s[i] != '&' && s[i] != '<' && s[i] != '>' && s[i]
                != '"',
    ensures
        xml_escaped(s) == s,
    decreases s.len(),
{
    if s.len() > 0 {
        lemma_xml_escape_plain_text(s.drop_last());
        assert(s.drop_last().push(s.last()) =~= s);
    }
}

/// JSON string escaping leaves no raw line break.
pub proof fn lemma_json_escaped_has_no_line_break(s: Seq<char>)
    ensures
        forall|i: int|
            0 <= i < json_escaped(s).len() ==> #[trigger] json_escaped(s)[i] != '\n'
                && json_escaped(s)[i] != '\r',
    decreases s.len(),
{
    reveal_strlit("\\\\");
    reveal_strlit("\\\"");
    reveal_strlit("\\n");
    reveal_strlit("\\r");
    if s.len() > 0 {
        lemma_json_escaped_has_no_line_break(s.drop_last());
        let head = json_escaped(s.drop_last());
        let c = s.last();
        let piece = if c == '\\' {
            "\\\\"@
        } else if c == '"' {
            "\\\""@
        } else if c == '\n' {
            "\\n"@
        } else if c == '\r' {
            "\\r"@
        } else {
            seq![c]
        };
        assert(json_escaped(s) == head + piece);
        assert forall|i: int| 0 <= i < json_escaped(s).len() implies #[trigger] json_escaped(s)[i]
            != '\n' && json_escaped(s)[i] != '\r' by {
            if i < head.len() {
                assert(json_escaped(s)[i] == head[i]);
            } else {
                assert(json_escaped(s)[i] == piece[i - head.len()]);
            }
        }
    }
}

/// A CSV cell without a comma, quote, or line break is written as is.
pub proof fn lemma_csv_plain_cell(s: Seq<char>)
    requires
        forall|i: int|
            0 <= i < s.len() ==> #[trigger] s[i] != ',' && s[i] != '"' && s[i] != '\n' && s[i]
                != '\r',
    ensures
        csv_cell_text(s) == s,
{
    assert(!csv_needs_quotes(s));
}


/// A plan that passes the plan checks has zones within fourteen hours of
/// UTC, one zone index per unit naming one of its zones, one adjacency
/// list per unit, and only edges between units; and no unit had an
/// invalid map coordinate.
pub proof fn lemma_valid_plan_fits_units(
    unit_count: nat,
    adjacency: Seq<Vec<usize>>,
    plan: ZonePlan,
    coordinate_error: Option<ZonePlanError>,
)
    requires
        plan_inputs_check(unit_count, adjacency, plan, coordinate_error) is Ok,
    ensures
        plan.zones@.len() > 0,
        forall|k: int|
            0 <= k < plan.zones@.len() ==> offset_in_range(#[trigger] plan.zones@[k].utc_offset_minutes),
        coordinate_error is None,
        plan.assignment@.len() == unit_count,
        adjacency.len() == unit_count,
        forall|j: int| 0 <= j < unit_count ==> #[trigger] plan.assignment@[j] < plan.zones@.len(),
        forall|from: int, k: int|
            0 <= from < adjacency.len() && 0 <= k < adjacency[from]@.len() ==> #[trigger] adjacency[from]@[k]
                < unit_count,
{
    let zones = plan.zones@;
    let zone_outcomes = Seq::new(zones.len(), |j: int| zone_outcome(zones[j]));
    lemma_first_error_ok(zone_outcomes);
    assert forall|k: int| 0 <= k < zones.len() implies offset_in_range(
        #[trigger] zones[k].utc_offset_minutes,
    ) by {
        assert(zone_outcomes[k] is None);
    }
    let assigned = Seq::new(
        plan.assignment@.len(),
        |j: int| assignment_outcome(plan.assignment@, zones.len(), j),
    );
    lemma_first_error_ok(assigned);
    assert forall|j: int| 0 <= j < unit_count implies #[trigger] plan.assignment@[j] < zones.len() by {
        assert(assigned[j] is None);
    }
    let rows = edge_outcomes(adjacency, unit_count);
    lemma_first_error_ok(rows);
    assert forall|from: int, k: int|
        0 <= from < adjacency.len() && 0 <= k < adjacency[from]@.len() implies #[trigger] adjacency[from]@[k]
            < unit_count by {
        assert(rows[from] is None);
        let row = Seq::new(
            adjacency[from]@.len(),
            |m: int|
                if adjacency[from]@[m] >= unit_count {
                    Some(
                        ZonePlanError::EdgeOutOfBounds {
                            from: from as usize,
                            to: adjacency[from]@[m],
                            unit_count: unit_count as usize,
                        },
                    )
                } else {
                    None
                },
        );
        assert(edge_row_check(adjacency, from, unit_count) == crate::checks::first_error(row));
        lemma_first_error_ok(row);
        assert(row[k] is None);
    }
}

proof fn lemma_unique_ids_distinct(kind: &'static str, ids: Seq<String>)
    requires
        unique_ids_check(kind, ids) is Ok,
    ensures
        views(ids).no_duplicates(),
        forall|j: int| 0 <= j < ids.len() ==> (#[trigger] ids[j])@.len() > 0,
{
    let outcomes = Seq::new(ids.len(), |j: int| unique_id_outcome(kind, ids, j));
    lemma_first_error_ok(outcomes);
    assert forall|j: int| 0 <= j < ids.len() implies (#[trigger] ids[j])@.len() > 0 by {
        assert(outcomes[j] is None);
    }
    assert forall|a: int, b: int|
        0 <= a < views(ids).len() && 0 <= b < views(ids).len() && a != b implies views(ids)[a]
        != views(ids)[b] by {
        let (i, j) = if a < b {
            (a, b)
        } else {
            (b, a)
        };
        assert(outcomes[j] is None);
        assert(views(ids.take(j))[i] == ids[i]@);
        if ids[i]@ == ids[j]@ {
            assert(views(ids.take(j)).contains(ids[j]@));
        }
    }
}

/// A dataset that validates has a valid manifest; distinct, non-empty
/// jurisdiction, unit, graph, and regime ids; graphs with one adjacency
/// list per unit; jurisdictions and units in known jurisdictions;
/// evaluation contexts that name one of its graphs and one of its regimes;
/// and every source it cites present in its manifest.
pub proof fn lemma_valid_dataset_is_consistent(d: TemporalDataset)
    requires
        d.check() is Ok,
    ensures
        d.source_manifest.check() is Ok,
        views(d.jurisdiction_ids()).no_duplicates(),
        views(d.unit_ids()).no_duplicates(),
        views(d.graph_ids()).no_duplicates(),
        views(d.regime_ids()).no_duplicates(),
        forall|k: int|
            0 <= k < d.boundary_graphs@.len() ==> (#[trigger] d.boundary_graphs@[k]).adjacency@.len()
                == d.units@.len(),
        forall|k: int|
            0 <= k < d.units@.len() ==> views(d.jurisdiction_ids()).contains(
                (#[trigger] d.units@[k]).jurisdiction_id@,
            ),
        forall|k: int|
            0 <= k < d.evaluation_contexts@.len() ==> views(d.graph_ids()).contains(
                (#[trigger] d.evaluation_contexts@[k]).boundary_graph_id@,
            ) && views(d.regime_ids()).contains(d.evaluation_contexts@[k].regime_id@),
        forall|k: int|
            0 <= k < d.jurisdictions@.len() ==> d.source_manifest.id_set().contains(
                (#[trigger] d.jurisdictions@[k]).source_id@,
            ),
        forall|k: int|
            0 <= k < d.units@.len() ==> d.source_manifest.id_set().contains(
                (#[trigger] d.units@[k]).representative_point.source_id@,
            ),
        forall|k: int|
            0 <= k < d.boundary_graphs@.len() ==> d.source_manifest.id_set().contains(
                (#[trigger] d.boundary_graphs@[k]).source_id@,
            ),
        forall|k: int|
            0 <= k < d.regimes@.len() ==> d.source_manifest.id_set().contains(
                (#[trigger] d.regimes@[k]).source_id@,
            ),
        forall|k: int|
            0 <= k < d.evaluation_contexts@.len() ==> d.source_manifest.id_set().contains(
                (#[trigger] d.evaluation_contexts@[k]).weighting_source_id@,
            ),
{
    lemma_unique_ids_distinct("jurisdiction", d.jurisdiction_ids());
    lemma_unique_ids_distinct("unit", d.unit_ids());
    lemma_unique_ids_distinct("boundary_graph", d.graph_ids());
    lemma_unique_ids_distinct("regime", d.regime_ids());
    let graphs = d.graph_outcomes();
    lemma_first_error_ok(graphs);
    assert forall|k: int| 0 <= k < d.boundary_graphs@.len() implies (#[trigger] d.boundary_graphs@[
        k
    ]).adjacency@.len() == d.units@.len() by {
        assert(graphs[k] is None);
    }
    let units = d.unit_outcomes();
    lemma_first_error_ok(units);
    assert forall|k: int| 0 <= k < d.units@.len() implies views(d.jurisdiction_ids()).contains(
        (#[trigger] d.units@[k]).jurisdiction_id@,
    ) by {
        assert(units[k] is None);
    }
    let contexts = d.context_reference_outcomes();
    lemma_first_error_ok(contexts);
    assert forall|k: int| 0 <= k < d.evaluation_contexts@.len() implies views(d.graph_ids()).contains(
        (#[trigger] d.evaluation_contexts@[k]).boundary_graph_id@,
    ) && views(d.regime_ids()).contains(d.evaluation_contexts@[k].regime_id@) by {
        assert(contexts[k] is None);
    }
    let m = d.source_manifest;
    let j = source_ref_outcomes(
        m,
        "jurisdiction",
        d.jurisdictions@.map_values(|x: crate::temporal::Jurisdiction| x.source_id),
    );
    let p = source_ref_outcomes(
        m,
        "representative_point",
        d.units@.map_values(|x: crate::dataset::TemporalBoundaryUnit| x.representative_point.source_id),
    );
    let g = source_ref_outcomes(
        m,
        "boundary_graph",
        d.boundary_graphs@.map_values(|x: crate::dataset::BoundaryGraphVersion| x.source_id),
    );
    let r = source_ref_outcomes(
        m,
        "regime",
        d.regimes@.map_values(|x: crate::temporal::TimeZoneRegime| x.source_id),
    );
    let c = source_ref_outcomes(
        m,
        "evaluation_context",
        d.evaluation_contexts@.map_values(
            |x: crate::temporal::EvaluationContext| x.weighting_source_id,
        ),
    );
    lemma_first_error_ok(j);
    lemma_first_error_ok(p);
    lemma_first_error_ok(g);
    lemma_first_error_ok(r);
    lemma_first_error_ok(c);
    assert forall|k: int| 0 <= k < d.jurisdictions@.len() implies m.id_set().contains(
        (#[trigger] d.jurisdictions@[k]).source_id@,
    ) by {
        assert(j[k] is None);
    }
    assert forall|k: int| 0 <= k < d.units@.len() implies m.id_set().contains(
        (#[trigger] d.units@[k]).representative_point.source_id@,
    ) by {
        assert(p[k] is None);
    }
    assert forall|k: int| 0 <= k < d.boundary_graphs@.len() implies m.id_set().contains(
        (#[trigger] d.boundary_graphs@[k]).source_id@,
    ) by {
        assert(g[k] is None);
    }
    assert forall|k: int| 0 <= k < d.regimes@.len() implies m.id_set().contains(
        (#[trigger] d.regimes@[k]).source_id@,
    ) by {
        assert(r[k] is None);
    }
    assert forall|k: int| 0 <= k < d.evaluation_contexts@.len() implies m.id_set().contains(
        (#[trigger] d.evaluation_contexts@[k]).weighting_source_id@,
    ) by {
        assert(c[k] is None);
    }
}


/// A valid manifest cites as many distinct source ids as it has sources.
pub proof fn lemma_valid_manifest_id_count(manifest: SourceManifest)
    requires
        manifest.check() is Ok,
    ensures
        manifest.id_set().finite(),
        manifest.id_set().len() == manifest.sources@.len(),
{
    let s = manifest.sources@;
    let ids = s.map_values(|c: SourceCitation| c.source_id@);
    let outcomes = manifest.source_outcomes();
    lemma_first_error_ok(outcomes);
    assert forall|a: int, b: int| 0 <= a < ids.len() && 0 <= b < ids.len() && a != b implies ids[a]
        != ids[b] by {
        let (i, j) = if a < b {
            (a, b)
        } else {
            (b, a)
        };
        assert(outcomes[j] is None);
        assert(source_outcome(s, j) is None);
        if s[i].source_id@ == s[j].source_id@ {
            assert(id_among_sources(s, j, s[j].source_id@));
        }
    }
    assert forall|x: Seq<char>| manifest.id_set().contains(x) <==> ids.to_set().contains(x) by {
        if manifest.id_set().contains(x) {
            let k = choose|k: int| 0 <= k < s.len() && #[trigger] s[k].source_id@ == x;
            assert(ids[k] == x);
        }
        if ids.to_set().contains(x) {
            assert(ids.contains(x));
            let k = choose|k: int| 0 <= k < ids.len() && ids[k] == x;
            assert(s[k].source_id@ == x);
        }
    }
    assert(manifest.id_set() =~= ids.to_set());
    ids.unique_seq_to_set();
    vstd::seq_lib::seq_to_set_is_finite(ids);
}

/// A ready gate leaves no source of the manifest uncovered and gates no
/// source outside the manifest.
pub proof fn lemma_ready_gate_covers_manifest(
    policy: SourceGatePolicy,
    manifest: SourceManifest,
    report: SourceGateReport,
)
    requires
        manifest.check() is Ok,
        policy.report_matches(manifest, report),
        report.source_gate_ready,
    ensures
        report.missing_source_ids@.len() == 0,
        report.extra_entry_source_ids@.len() == 0,
{
    lemma_valid_manifest_id_count(manifest);
    let m = manifest.id_set();
    let p = policy.id_set();
    let missing = views(report.missing_source_ids@);
    let extra = views(report.extra_entry_source_ids@);
    if missing.len() > 0 {
        let x = missing[0];
        assert(missing.to_set().contains(x));
        assert(m.difference(p).contains(x));
        vstd::set_lib::lemma_len_subset(m.intersect(p), m.remove(x));
        assert(false);
    }
    extra.lemma_cardinality_of_empty_set_is_0();
}


proof fn lemma_decimal_two_small(n: nat)
    requires
        n < 100,
    ensures
        decimal_two(n) == seq![digit_char(n / 10), digit_char(n % 10)],
{
    if n >= 10 {
        assert(decimal(n / 10) == seq![digit_char(n / 10)]);
        assert(decimal(n) == decimal(n / 10).push(digit_char(n % 10)));
        assert(decimal_two(n) =~= seq![digit_char(n / 10), digit_char(n % 10)]);
    }
}

proof fn lemma_digit_char_injective(a: nat, b: nat)
    requires
        a < 10,
        b < 10,
        digit_char(a) == digit_char(b),
    ensures
        a == b,
{
}

/// Distinct offsets within fourteen hours of UTC get distinct zone ids.
pub proof fn lemma_zone_id_injective(a: int, b: int)
    requires
        -MAX_UTC_OFFSET_MINUTES <= a <= MAX_UTC_OFFSET_MINUTES,
        -MAX_UTC_OFFSET_MINUTES <= b <= MAX_UTC_OFFSET_MINUTES,
        offset_zone_label(a) == offset_zone_label(b),
    ensures
        a == b,
{
    reveal_strlit("utc-");
    reveal_strlit("minus");
    reveal_strlit("plus");
    reveal_strlit("-");
    let abs_a = if a < 0 {
        -a
    } else {
        a
    };
    let abs_b = if b < 0 {
        -b
    } else {
        b
    };
    let sign_a = if a < 0 {
        "minus"@
    } else {
        "plus"@
    };
    let sign_b = if b < 0 {
        "minus"@
    } else {
        "plus"@
    };
    let (qa, ra) = ((abs_a / 60) as nat, (abs_a % 60) as nat);
    let (qb, rb) = ((abs_b / 60) as nat, (abs_b % 60) as nat);
    lemma_decimal_two_small(qa);
    lemma_decimal_two_small(ra);
    lemma_decimal_two_small(qb);
    lemma_decimal_two_small(rb);
    let la = offset_zone_label(a);
    let lb = offset_zone_label(b);
    assert(la == "utc-"@ + sign_a + "-"@ + seq![digit_char(qa / 10), digit_char(qa % 10)] + "-"@
        + seq![digit_char(ra / 10), digit_char(ra % 10)]);
    assert(lb == "utc-"@ + sign_b + "-"@ + seq![digit_char(qb / 10), digit_char(qb % 10)] + "-"@
        + seq![digit_char(rb / 10), digit_char(rb % 10)]);
    assert(la.len() == 10 + sign_a.len());
    assert(lb.len() == 10 + sign_b.len());
    assert((a < 0) == (b < 0));
    let at: int = 5 + sign_a.len() as int;
    assert(la[at] == digit_char(qa / 10) && lb[at] == digit_char(qb / 10));
    assert(la[at + 1] == digit_char(qa % 10) && lb[at + 1] == digit_char(qb % 10));
    assert(la[at + 3] == digit_char(ra / 10) && lb[at + 3] == digit_char(rb / 10));
    assert(la[at + 4] == digit_char(ra % 10) && lb[at + 4] == digit_char(rb % 10));
    lemma_digit_char_injective(qa / 10, qb / 10);
    lemma_digit_char_injective(qa % 10, qb % 10);
    lemma_digit_char_injective(ra / 10, rb / 10);
    lemma_digit_char_injective(ra % 10, rb % 10);
    assert(qa == qb);
    assert(ra == rb);
}


/// The zones of a candidate plan built from offsets within fourteen hours
/// of UTC have distinct ids.
pub proof fn lemma_candidate_zone_ids_distinct(
    best: Seq<i32>,
    zones: Seq<ZoneSpec>,
    assignment: Seq<usize>,
)
    requires
        candidate_plan_spec(best, zones, assignment),
        forall|j: int|
            0 <= j < best.len() ==> -MAX_UTC_OFFSET_MINUTES <= #[trigger] best[j]
                <= MAX_UTC_OFFSET_MINUTES,
    ensures
        forall|i: int, k: int| 0 <= i < k < zones.len() ==> #[trigger] zones[i].id@ != #[trigger] zones[k].id@,
{
    assert forall|i: int, k: int| 0 <= i < k < zones.len() implies #[trigger] zones[i].id@
        != #[trigger] zones[k].id@ by {
        let offsets = zone_offsets(zones);
        assert(offsets[i] < offsets[k]);
        assert(offsets.contains(offsets[i]) && offsets.contains(offsets[k]));
        let m = choose|m: int| 0 <= m < best.len() && best[m] == offsets[i];
        let n = choose|n: int| 0 <= n < best.len() && best[n] == offsets[k];
        if zones[i].id@ == zones[k].id@ {
            lemma_zone_id_injective(
                zones[i].utc_offset_minutes as int,
                zones[k].utc_offset_minutes as int,
            );
        }
    }
}

} // verus!

verus! {

/// The rows, over all the zones of `ids`, that lie in one of them.
spec fn rows_in_zones(rows: Seq<UnitZoneRow>, ids: Seq<Seq<char>>) -> nat
    decreases ids.len(),
{
    if ids.len() == 0 {
        0
    } else {
        rows_in_zones(rows, ids.drop_last()) + count_where(rows, row_in_zone(ids.last()))
    }
}

/// The population, over all the zones of `ids`, of the rows in each.
spec fn population_in_zones(rows: Seq<UnitZoneRow>, ids: Seq<Seq<char>>) -> nat
    decreases ids.len(),
{
    if ids.len() == 0 {
        0
    } else {
        population_in_zones(rows, ids.drop_last()) + sum_of(
            rows,
            row_population_in_zone(ids.last()),
        )
    }
}

/// Dropping the last row takes its share away from each zone it lies in:
/// one zone, when the zones are distinct and hold it, and none otherwise.
proof fn lemma_zones_last_row(rows: Seq<UnitZoneRow>, ids: Seq<Seq<char>>)
    requires
        rows.len() > 0,
        ids.no_duplicates(),
    ensures
        rows_in_zones(rows, ids) == rows_in_zones(rows.drop_last(), ids) + if ids.contains(
            rows.last().zone_id@,
        ) {
            1nat
        } else {
            0nat
        },
        population_in_zones(rows, ids) == population_in_zones(rows.drop_last(), ids) + if ids.contains(
            rows.last().zone_id@,
        ) {
            rows.last().population as nat
        } else {
            0nat
        },
    decreases ids.len(),
{
    if ids.len() > 0 {
        let rest = ids.drop_last();
        let x = rows.last().zone_id@;
        assert(rest.no_duplicates());
        lemma_zones_last_row(rows, rest);
        if ids.last() == x {
            assert(!rest.contains(x)) by {
                if rest.contains(x) {
                    let k = choose|k: int| 0 <= k < rest.len() && rest[k] == x;
                    assert(ids[k] == ids[ids.len() - 1]);
                }
            }
        }
        assert(ids.contains(x) <==> (rest.contains(x) || ids.last() == x)) by {
            if ids.contains(x) && ids.last() != x {
                let k = choose|k: int| 0 <= k < ids.len() && ids[k] == x;
                assert(rest[k] == x);
            }
            if rest.contains(x) {
                let k = choose|k: int| 0 <= k < rest.len() && rest[k] == x;
                assert(ids[k] == x);
            }
        }
    }
}

/// When every row lies in one of a list of distinct zones, the zones hold
/// all the rows and all their population between them.
proof fn lemma_zones_cover_rows(rows: Seq<UnitZoneRow>, ids: Seq<Seq<char>>)
    requires
        ids.no_duplicates(),
        forall|j: int| 0 <= j < rows.len() ==> ids.contains(#[trigger] rows[j].zone_id@),
    ensures
        rows_in_zones(rows, ids) == rows.len(),
        population_in_zones(rows, ids) == sum_of(rows, row_population()),
    decreases rows.len(),
{
    if rows.len() == 0 {
        lemma_zones_empty_rows(rows, ids);
    } else {
        let rest = rows.drop_last();
        assert forall|j: int| 0 <= j < rest.len() implies ids.contains(#[trigger] rest[j].zone_id@) by {
            assert(rest[j] == rows[j]);
        }
        lemma_zones_cover_rows(rest, ids);
        lemma_zones_last_row(rows, ids);
        assert(ids.contains(rows[rows.len() - 1].zone_id@));
    }
}

/// No rows lie in any zone.
proof fn lemma_zones_empty_rows(rows: Seq<UnitZoneRow>, ids: Seq<Seq<char>>)
    requires
        rows.len() == 0,
    ensures
        rows_in_zones(rows, ids) == 0,
        population_in_zones(rows, ids) == 0,
    decreases ids.len(),
{
    if ids.len() > 0 {
        lemma_zones_empty_rows(rows, ids.drop_last());
    }
}

/// Summing over tallies is summing their zones' counts over the rows.
proof fn lemma_tally_sums(rows: Seq<UnitZoneRow>, tallies: Seq<ZoneTally>)
    requires
        forall|k: int| 0 <= k < tallies.len() ==> zone_tally_spec(rows, #[trigger] tallies[k]),
    ensures
        sum_of(tallies, tally_unit_count()) == rows_in_zones(rows, tally_ids(tallies)),
        sum_of(tallies, tally_population()) == population_in_zones(rows, tally_ids(tallies)),
    decreases tallies.len(),
{
    if tallies.len() > 0 {
        let rest = tallies.drop_last();
        assert forall|k: int| 0 <= k < rest.len() implies zone_tally_spec(rows, #[trigger] rest[k]) by {
            assert(rest[k] == tallies[k]);
        }
        lemma_tally_sums(rows, rest);
        assert(tally_ids(tallies).drop_last() =~= tally_ids(rest));
        assert(zone_tally_spec(rows, tallies[tallies.len() - 1]));
    }
}

/// Zone tallies partition the units: over the tallies of a list of unit
/// rows, the unit counts add up to the number of rows and the populations
/// to the rows' total population.
pub proof fn lemma_tallies_partition_rows(rows: Seq<UnitZoneRow>, tallies: Seq<ZoneTally>)
    requires
        strictly_increasing(tally_ids(tallies)),
        forall|x: Seq<char>|
            #[trigger] tally_ids(tallies).contains(x) <==> zone_among_rows(rows, rows.len() as int, x),
        forall|k: int| 0 <= k < tallies.len() ==> zone_tally_spec(rows, #[trigger] tallies[k]),
    ensures
        sum_of(tallies, tally_unit_count()) == rows.len(),
        sum_of(tallies, tally_population()) == sum_of(rows, row_population()),
{
    let ids = tally_ids(tallies);
    lemma_increasing_len(ids, ids.to_set());
    assert forall|j: int| 0 <= j < rows.len() implies ids.contains(#[trigger] rows[j].zone_id@) by {
        assert(zone_among_rows(rows, rows.len() as int, rows[j].zone_id@));
    }
    lemma_zones_cover_rows(rows, ids);
    lemma_tally_sums(rows, tallies);
}

} // verus!

verus! {

/// A geometry join hands each feature to at most one unit: two units that
/// both take a feature take different ones.
pub proof fn lemma_join_uses_each_feature_once(
    features: Seq<GeoFeature>,
    unit_ids: Seq<String>,
    plan: GeometryJoinPlan,
)
    requires
        join_spec(features, unit_ids, plan),
    ensures
        forall|i: int, j: int|
            0 <= i < j < unit_ids.len() && #[trigger] plan.feature_for_unit@[i] is Some
                && #[trigger] plan.feature_for_unit@[j] is Some ==> plan.feature_for_unit@[i]
                != plan.feature_for_unit@[j],
{
    assert forall|i: int, j: int|
        0 <= i < j < unit_ids.len() && #[trigger] plan.feature_for_unit@[i] is Some
            && #[trigger] plan.feature_for_unit@[j] is Some implies plan.feature_for_unit@[i]
        != plan.feature_for_unit@[j] by {
        assert(plan.unit_statuses@[i].unit_id == unit_ids[i]);
        assert(plan.unit_statuses@[j].unit_id == unit_ids[j]);
        if plan.feature_for_unit@[i] == plan.feature_for_unit@[j] {
            assert(unit_ids[i]@ == unit_ids[j]@);
            assert(unit_joins(features, unit_ids, j));
            assert(views(unit_ids.take(j))[i] == unit_ids[i]@);
            assert(views(unit_ids.take(j)).contains(unit_ids[j]@));
        }
    }
}

} // verus!

verus! {

proof fn lemma_gate_entries_partition(e: Seq<SourceGateEntry>)
    ensures
        count_where(e, entry_with_mode(SourceAcquisitionMode::ManualReference)) + count_where(
            e,
            entry_with_mode(SourceAcquisitionMode::FletchCandidate),
        ) + count_where(e, entry_with_mode(SourceAcquisitionMode::LocalDerived)) + count_where(
            e,
            entry_with_mode(SourceAcquisitionMode::SyntheticFixture),
        ) + count_where(e, entry_with_mode(SourceAcquisitionMode::Imported)) == e.len(),
        count_where(e, entry_with_cache(SourceCachePolicy::ReferenceOnly)) + count_where(
            e,
            entry_with_cache(SourceCachePolicy::IgnoredLocalCache),
        ) + count_where(e, entry_with_cache(SourceCachePolicy::DerivedMetadataOnly)) + count_where(
            e,
            entry_with_cache(SourceCachePolicy::CommittedFixture),
        ) == e.len(),
    decreases e.len(),
{
    if e.len() > 0 {
        lemma_gate_entries_partition(e.drop_last());
    }
}

/// Every gate entry has exactly one acquisition mode and one cache policy:
/// the report's mode counts, and its cache-policy counts, each add up to
/// the number of entries.
pub proof fn lemma_gate_report_counts_partition(
    policy: SourceGatePolicy,
    manifest: SourceManifest,
    report: SourceGateReport,
)
    requires
        policy.report_matches(manifest, report),
    ensures
        report.manual_reference_count + report.fletch_candidate_count + report.local_derived_count
            + report.synthetic_fixture_count + report.imported_count == report.policy_entry_count,
        report.reference_only_count + report.ignored_local_cache_count
            + report.derived_metadata_only_count + report.committed_fixture_count
            == report.policy_entry_count,
{
    lemma_gate_entries_partition(policy.entries@);
}

/// A gate whose entries gate exactly the manifest's sources, one entry per
/// source, under the manifest's id and with at least one hash requirement,
/// is ready: it covers every source and misses or adds none.
pub proof fn lemma_matching_gate_is_ready(
    policy: SourceGatePolicy,
    manifest: SourceManifest,
    report: SourceGateReport,
)
    requires
        manifest.check() is Ok,
        policy.report_matches(manifest, report),
        policy.id_set() == manifest.id_set(),
        policy.entries@.len() == manifest.sources@.len(),
        policy.source_manifest_id@ == manifest.manifest_id@,
        exists|k: int| 0 <= k < policy.entries@.len() && (#[trigger] policy.entries@[k]).hash_required,
    ensures
        report.source_gate_ready,
        report.covered_source_count == report.source_count,
        report.missing_source_ids@.len() == 0,
        report.extra_entry_source_ids@.len() == 0,
{
    lemma_valid_manifest_id_count(manifest);
    let m = manifest.id_set();
    assert(m.intersect(m) =~= m);
    assert(m.difference(m) =~= Set::<Seq<char>>::empty());
    let k = choose|k: int| 0 <= k < policy.entries@.len() && (#[trigger] policy.entries@[k]).hash_required;
    lemma_count_positive(policy.entries@, entry_requires_hash(), k);
    let missing = views(report.missing_source_ids@);
    let extra = views(report.extra_entry_source_ids@);
    if missing.len() > 0 {
        assert(missing.to_set().contains(missing[0]));
    }
    if extra.len() > 0 {
        assert(extra.to_set().contains(extra[0]));
    }
}

proof fn lemma_count_positive<T>(s: Seq<T>, p: spec_fn(T) -> bool, k: int)
    requires
        0 <= k < s.len(),
        p(s[k]),
    ensures
        count_where(s, p) > 0,
    decreases s.len(),
{
    if k < s.len() - 1 {
        lemma_count_positive(s.drop_last(), p, k);
    }
}

proof fn lemma_assessments_partition(a: Seq<SourceClaimAssessment>)
    ensures
        count_where(a, assessment_with_support(SourceSupportLevel::Supports)) + count_where(
            a,
            assessment_with_support(SourceSupportLevel::Partial),
        ) + count_where(a, assessment_with_support(SourceSupportLevel::NotSupported))
            + count_where(a, assessment_with_support(SourceSupportLevel::Unknown)) == a.len(),
    decreases a.len(),
{
    if a.len() > 0 {
        lemma_assessments_partition(a.drop_last());
    }
}

proof fn lemma_entries_support_partition(e: Seq<SourceLimitationEntry>)
    ensures
        sum_of(e, entry_support_count(SourceSupportLevel::Supports)) + sum_of(
            e,
            entry_support_count(SourceSupportLevel::Partial),
        ) + sum_of(e, entry_support_count(SourceSupportLevel::NotSupported)) + sum_of(
            e,
            entry_support_count(SourceSupportLevel::Unknown),
        ) == sum_of(e, entry_assessment_count()),
    decreases e.len(),
{
    if e.len() > 0 {
        lemma_entries_support_partition(e.drop_last());
        lemma_assessments_partition(e.last().assessments@);
    }
}

/// Every claim assessment has exactly one support level: the matrix
/// report's support counts add up to its assessment count.
pub proof fn lemma_limitation_support_partition(matrix: SourceLimitationMatrix)
    requires
        sum_of(matrix.entries@, entry_assessment_count()) <= usize::MAX,
    ensures
        matrix.summary().supports_count + matrix.summary().partial_count
            + matrix.summary().not_supported_count + matrix.summary().unknown_count
            == matrix.summary().assessment_count,
{
    lemma_entries_support_partition(matrix.entries@);
}

proof fn lemma_assignment_status_partition(a: Seq<CountyTimeZoneAssignment>)
    ensures
        count_where(a, assignment_with_status(CountyAssignmentStatus::Placeholder)) + count_where(
            a,
            assignment_with_status(CountyAssignmentStatus::Reconciled),
        ) + count_where(a, assignment_with_status(CountyAssignmentStatus::SplitCounty))
            + count_where(a, assignment_with_status(CountyAssignmentStatus::Uncertain)) == a.len(),
    decreases a.len(),
{
    if a.len() > 0 {
        lemma_assignment_status_partition(a.drop_last());
    }
}

/// Every county assignment has exactly one status: the report's
/// placeholder, reconciled, split-county, and uncertain counts add up to
/// its assignment count.
pub proof fn lemma_assignment_status_counts(set: CountyTimeZoneAssignmentSet)
    ensures
        set.summary().placeholder_count + set.summary().reconciled_count
            + set.summary().split_county_count + set.summary().uncertain_count
            == set.summary().assignment_count,
{
    let a = set.assignments@;
    lemma_assignment_status_partition(a);
    assert(a.len() <= usize::MAX) by {
        vstd::std_specs::vec::axiom_spec_len(&set.assignments);
    }
}

/// A manifest validates exactly when its id and date are non-empty, each
/// citation validates, and no two citations share an id.
pub proof fn lemma_manifest_valid_iff(manifest: SourceManifest)
    ensures
        manifest.check() is Ok <==> {
            &&& manifest.manifest_id@.len() > 0
            &&& manifest.generated_on@.len() > 0
            &&& forall|j: int|
                0 <= j < manifest.sources@.len() ==> (#[trigger] manifest.sources@[j]).check() is Ok
            &&& forall|i: int, j: int|
                0 <= i < j < manifest.sources@.len() ==> (#[trigger] manifest.sources@[i]).source_id@
                    != (#[trigger] manifest.sources@[j]).source_id@
        },
{
    let s = manifest.sources@;
    let outcomes = manifest.source_outcomes();
    lemma_first_error_ok(outcomes);
    if manifest.check() is Ok {
        assert forall|i: int, j: int| 0 <= i < j < s.len() implies (#[trigger] s[i]).source_id@
            != (#[trigger] s[j]).source_id@ by {
            assert(outcomes[j] is None);
            if s[i].source_id@ == s[j].source_id@ {
                assert(id_among_sources(s, j, s[j].source_id@));
            }
        }
        assert forall|j: int| 0 <= j < s.len() implies (#[trigger] s[j]).check() is Ok by {
            assert(outcomes[j] is None);
        }
    }
}

} // verus!

verus! {

/// A plan fits its units, and passes the plan checks, when it has zones,
/// all within fourteen hours of UTC, one zone index per unit naming one of
/// its zones, one adjacency list per unit, only edges between units, and
/// no unit with an invalid map coordinate.
pub proof fn lemma_plan_fitting_units_is_valid(
    unit_count: nat,
    adjacency: Seq<Vec<usize>>,
    plan: ZonePlan,
)
    requires
        plan.zones@.len() > 0,
        forall|k: int|
            0 <= k < plan.zones@.len() ==> offset_in_range(#[trigger] plan.zones@[k].utc_offset_minutes),
        plan.assignment@.len() == unit_count,
        adjacency.len() == unit_count,
        forall|j: int| 0 <= j < unit_count ==> #[trigger] plan.assignment@[j] < plan.zones@.len(),
        forall|from: int, k: int|
            0 <= from < adjacency.len() && 0 <= k < adjacency[from]@.len() ==> #[trigger] adjacency[from]@[k]
                < unit_count,
    ensures
        plan_inputs_check(unit_count, adjacency, plan, None) is Ok,
{
    let zones = plan.zones@;
    let zone_outcomes = Seq::new(zones.len(), |j: int| zone_outcome(zones[j]));
    assert forall|j: int| 0 <= j < zones.len() implies #[trigger] zone_outcomes[j] is None by {
        assert(offset_in_range(zones[j].utc_offset_minutes));
    }
    lemma_first_error_ok(zone_outcomes);
    let assigned = Seq::new(
        plan.assignment@.len(),
        |j: int| assignment_outcome(plan.assignment@, zones.len(), j),
    );
    assert forall|j: int| 0 <= j < assigned.len() implies #[trigger] assigned[j] is None by {
        assert(plan.assignment@[j] < zones.len());
    }
    lemma_first_error_ok(assigned);
    let rows = edge_outcomes(adjacency, unit_count);
    assert forall|from: int| 0 <= from < rows.len() implies #[trigger] rows[from] is None by {
        let row = Seq::new(
            adjacency[from]@.len(),
            |m: int|
                if adjacency[from]@[m] >= unit_count {
                    Some(
                        ZonePlanError::EdgeOutOfBounds {
                            from: from as usize,
                            to: adjacency[from]@[m],
                            unit_count: unit_count as usize,
                        },
                    )
                } else {
                    None
                },
        );
        assert forall|m: int| 0 <= m < row.len() implies #[trigger] row[m] is None by {
            assert(adjacency[from]@[m] < unit_count);
        }
        lemma_first_error_ok(row);
        assert(edge_row_check(adjacency, from, unit_count) == crate::checks::first_error(row));
    }
    lemma_first_error_ok(rows);
}

} // verus!

verus! {

/// A count reaches the length of what it counts over exactly when every
/// element is counted.
proof fn lemma_count_all<T>(s: Seq<T>, p: spec_fn(T) -> bool)
    ensures
        count_where(s, p) <= s.len(),
        count_where(s, p) == s.len() <==> forall|j: int| 0 <= j < s.len() ==> p(#[trigger] s[j]),
    decreases s.len(),
{
    if s.len() > 0 {
        let rest = s.drop_last();
        lemma_count_all(rest, p);
        if forall|j: int| 0 <= j < s.len() ==> p(#[trigger] s[j]) {
            assert forall|j: int| 0 <= j < rest.len() implies p(#[trigger] rest[j]) by {
                assert(rest[j] == s[j]);
            }
            assert(p(s[s.len() - 1]));
        }
        if count_where(s, p) == s.len() {
            assert forall|j: int| 0 <= j < s.len() implies p(#[trigger] s[j]) by {
                if j < s.len() - 1 {
                    assert(rest[j] == s[j]);
                }
            }
        }
    }
}

/// Every unit is counted once for each reference: the units with and
/// without references, and with and without each of the five sources (and
/// caveats), add up to the unit count; and coverage is publishable exactly
/// when every unit names all five sources and carries caveats.
pub proof fn lemma_source_ref_counts_partition(input: PlanInput, manifest: SourceManifest)
    ensures
        ({
            let r = source_ref_summary(input, manifest);
            &&& r.unit_count == input.units@.len()
            &&& r.units_with_source_refs + r.units_missing_source_refs == r.unit_count
            &&& r.boundary_source_ref_count + r.missing_boundary_source_ref_count == r.unit_count
            &&& r.representative_point_source_ref_count
                + r.missing_representative_point_source_ref_count == r.unit_count
            &&& r.population_source_ref_count + r.missing_population_source_ref_count
                == r.unit_count
            &&& r.time_zone_assignment_source_ref_count
                + r.missing_time_zone_assignment_source_ref_count == r.unit_count
            &&& r.time_zone_geometry_source_ref_count
                + r.missing_time_zone_geometry_source_ref_count == r.unit_count
            &&& r.units_with_source_caveats + r.units_missing_source_caveats == r.unit_count
            &&& r.publishable_source_ref_coverage <==> forall|j: int|
                0 <= j < input.units@.len() ==> unit_cites_all()(#[trigger] input.units@[j])
                    && unit_has_source_caveats()(input.units@[j])
        }),
{
    let u = input.units@;
    assert(u.len() <= usize::MAX) by {
        vstd::std_specs::vec::axiom_spec_len(&input.units);
    }
    lemma_count_all(u, unit_has_refs());
    lemma_count_all(u, unit_cites_boundary());
    lemma_count_all(u, unit_cites_point());
    lemma_count_all(u, unit_cites_population());
    lemma_count_all(u, unit_cites_assignment());
    lemma_count_all(u, unit_cites_geometry());
    lemma_count_all(u, unit_cites_all());
    lemma_count_all(u, unit_has_source_caveats());
}

} // verus!

verus! {

/// A current-law or historical-law scenario that has an id and a label but
/// cites no authority source is refused, and the refusal names the
/// scenario; a scenario that cites one, or that is a proposal or an
/// analytic counterfactual, passes. The same holds of a whole plan input
/// whose ids are present.
pub proof fn lemma_law_scenarios_need_authority(input: PlanInput, coordinate_error: Option<ZonePlanError>)
    requires
        input.scenario.scenario_id@.len() > 0,
        input.scenario.label@.len() > 0,
    ensures
        ((input.scenario.kind == ZoneScenarioKind::CurrentLaw || input.scenario.kind
            == ZoneScenarioKind::HistoricalLaw) && input.scenario.authority_source_id is None)
            ==> scenario_shape_check(input.scenario) == Err::<(), ZonePlanError>(
            ZonePlanError::ScenarioAuthorityRequired { scenario_id: input.scenario.scenario_id },
        ),
        (input.scenario.authority_source_id is Some || input.scenario.kind
            == ZoneScenarioKind::ProposedScenario || input.scenario.kind
            == ZoneScenarioKind::AnalyticCounterfactual) ==> scenario_shape_check(input.scenario) is Ok,
        (input.input_id@.len() > 0 && input.source_manifest_id@.len() > 0 && (input.scenario.kind
            == ZoneScenarioKind::CurrentLaw || input.scenario.kind == ZoneScenarioKind::HistoricalLaw)
            && input.scenario.authority_source_id is None) ==> plan_input_check(
            input,
            coordinate_error,
        ) == Err::<(), ZonePlanError>(
            ZonePlanError::ScenarioAuthorityRequired { scenario_id: input.scenario.scenario_id },
        ),
{
}

/// A ready gate requires a content hash of at least one source.
pub proof fn lemma_ready_gate_requires_a_hash(
    policy: SourceGatePolicy,
    manifest: SourceManifest,
    report: SourceGateReport,
)
    requires
        policy.report_matches(manifest, report),
        report.source_gate_ready,
    ensures
        report.hash_required_count > 0,
        exists|k: int| 0 <= k < policy.entries@.len() && (#[trigger] policy.entries@[k]).hash_required,
{
    lemma_count_exists(policy.entries@, entry_requires_hash());
}

/// A positive count has a witness.
proof fn lemma_count_exists<T>(s: Seq<T>, p: spec_fn(T) -> bool)
    requires
        count_where(s, p) > 0,
    ensures
        exists|k: int| 0 <= k < s.len() && p(#[trigger] s[k]),
    decreases s.len(),
{
    let rest = s.drop_last();
    if p(s.last()) {
        assert(p(s[s.len() - 1]));
    } else {
        lemma_count_exists(rest, p);
        let k = choose|k: int| 0 <= k < rest.len() && p(#[trigger] rest[k]);
        assert(s[k] == rest[k]);
    }
}

/// Counting a stronger property never gives more.
proof fn lemma_count_weaker<T>(s: Seq<T>, p: spec_fn(T) -> bool, q: spec_fn(T) -> bool)
    requires
        forall|j: int| 0 <= j < s.len() && p(#[trigger] s[j]) ==> q(s[j]),
    ensures
        count_where(s, p) <= count_where(s, q),
    decreases s.len(),
{
    if s.len() > 0 {
        let rest = s.drop_last();
        assert forall|j: int| 0 <= j < rest.len() && p(#[trigger] rest[j]) implies q(rest[j]) by {
            assert(rest[j] == s[j]);
        }
        lemma_count_weaker(rest, p, q);
        assert(p(s.last()) ==> q(s[s.len() - 1]));
    }
}

/// A unit with complete source references names every one of the five
/// sources: the complete count never exceeds the count of units naming
/// any one of them, nor the count of units with references; so publishable
/// coverage means every unit names each of the five sources.
pub proof fn lemma_complete_refs_name_every_source(input: PlanInput, manifest: SourceManifest)
    ensures
        ({
            let r = source_ref_summary(input, manifest);
            &&& r.units_with_complete_source_refs <= r.units_with_source_refs
            &&& r.units_with_complete_source_refs <= r.boundary_source_ref_count
            &&& r.units_with_complete_source_refs <= r.representative_point_source_ref_count
            &&& r.units_with_complete_source_refs <= r.population_source_ref_count
            &&& r.units_with_complete_source_refs <= r.time_zone_assignment_source_ref_count
            &&& r.units_with_complete_source_refs <= r.time_zone_geometry_source_ref_count
            &&& r.publishable_source_ref_coverage ==> {
                &&& r.boundary_source_ref_count == r.unit_count
                &&& r.representative_point_source_ref_count == r.unit_count
                &&& r.population_source_ref_count == r.unit_count
                &&& r.time_zone_assignment_source_ref_count == r.unit_count
                &&& r.time_zone_geometry_source_ref_count == r.unit_count
                &&& r.units_with_source_caveats == r.unit_count
            }
        }),
{
    let u = input.units@;
    assert(u.len() <= usize::MAX) by {
        vstd::std_specs::vec::axiom_spec_len(&input.units);
    }
    let all = unit_cites_all();
    assert forall|j: int| 0 <= j < u.len() && all(#[trigger] u[j]) implies unit_has_refs()(u[j]) && unit_cites_boundary()(u[j])
        && unit_cites_point()(u[j]) && unit_cites_population()(u[j]) && unit_cites_assignment()(
        u[j],
    ) && unit_cites_geometry()(u[j]) by {
        let x = u[j];
        assert(x.source_refs matches Some(r) && r.boundary_source_id is Some);
        assert(x.source_refs matches Some(r) && r.representative_point_source_id is Some);
        assert(x.source_refs matches Some(r) && r.population_source_id is Some);
        assert(x.source_refs matches Some(r) && r.time_zone_assignment_source_id is Some);
        assert(x.source_refs matches Some(r) && r.time_zone_geometry_source_id is Some);
    }
    lemma_count_weaker(u, all, unit_has_refs());
    lemma_count_weaker(u, all, unit_cites_boundary());
    lemma_count_weaker(u, all, unit_cites_point());
    lemma_count_weaker(u, all, unit_cites_population());
    lemma_count_weaker(u, all, unit_cites_assignment());
    lemma_count_weaker(u, all, unit_cites_geometry());
    lemma_count_all(u, unit_has_refs());
    lemma_count_all(u, unit_cites_boundary());
    lemma_count_all(u, unit_cites_point());
    lemma_count_all(u, unit_cites_population());
    lemma_count_all(u, unit_cites_assignment());
    lemma_count_all(u, unit_cites_geometry());
    lemma_count_all(u, all);
    lemma_count_all(u, unit_has_source_caveats());
}

/// An assignment set is evidence-ready only when it has assignments, all of
/// them cite a geometry source, and none is a placeholder or uncertain.
pub proof fn lemma_ready_assignments_are_settled(set: CountyTimeZoneAssignmentSet)
    ensures
        set.summary().assignment_evidence_ready ==> {
            &&& set.summary().assignment_count > 0
            &&& set.summary().geometry_source_ref_count == set.summary().assignment_count
            &&& set.summary().placeholder_count == 0
            &&& set.summary().uncertain_count == 0
            &&& forall|j: int|
                0 <= j < set.assignments@.len() ==> {
                    &&& (#[trigger] set.assignments@[j]).status != CountyAssignmentStatus::Placeholder
                    &&& set.assignments@[j].status != CountyAssignmentStatus::Uncertain
                }
        },
{
    let a = set.assignments@;
    assert(a.len() <= usize::MAX) by {
        vstd::std_specs::vec::axiom_spec_len(&set.assignments);
    }
    let placeholder = assignment_with_status(CountyAssignmentStatus::Placeholder);
    let uncertain = assignment_with_status(CountyAssignmentStatus::Uncertain);
    lemma_count_bound(a, placeholder);
    lemma_count_bound(a, uncertain);
    lemma_count_bound(a, assignment_has_geometry());
    if set.summary().assignment_evidence_ready {
        assert forall|j: int| 0 <= j < a.len() implies {
            &&& (#[trigger] a[j]).status != CountyAssignmentStatus::Placeholder
            &&& a[j].status != CountyAssignmentStatus::Uncertain
        } by {
            if placeholder(a[j]) {
                lemma_count_positive(a, placeholder, j);
            }
            if uncertain(a[j]) {
                lemma_count_positive(a, uncertain, j);
            }
        }
    }
}

proof fn lemma_offset_extremes(z: Seq<ZoneSpec>)
    requires
        z.len() > 0,
    ensures
        exists|k: int| 0 <= k < z.len() && (#[trigger] z[k]).utc_offset_minutes == min_offset(z),
        exists|k: int| 0 <= k < z.len() && (#[trigger] z[k]).utc_offset_minutes == max_offset(z),
        forall|k: int|
            0 <= k < z.len() ==> min_offset(z) <= (#[trigger] z[k]).utc_offset_minutes <= max_offset(z),
    decreases z.len(),
{
    let rest = z.drop_last();
    if rest.len() > 0 {
        lemma_offset_extremes(rest);
        let a = choose|k: int| 0 <= k < rest.len() && (#[trigger] rest[k]).utc_offset_minutes == min_offset(rest);
        let b = choose|k: int| 0 <= k < rest.len() && (#[trigger] rest[k]).utc_offset_minutes == max_offset(rest);
        assert(z[a] == rest[a]);
        assert(z[b] == rest[b]);
        let last = z.len() - 1;
        if (z.last().utc_offset_minutes as int) < min_offset(rest) {
            assert(z[last].utc_offset_minutes == min_offset(z));
        } else {
            assert(z[a].utc_offset_minutes == min_offset(z));
        }
        if (z.last().utc_offset_minutes as int) > max_offset(rest) {
            assert(z[last].utc_offset_minutes == max_offset(z));
        } else {
            assert(z[b].utc_offset_minutes == max_offset(z));
        }
        assert forall|k: int| 0 <= k < z.len() implies min_offset(z) <= (#[trigger] z[k]).utc_offset_minutes
            <= max_offset(z) by {
            if k < rest.len() {
                assert(z[k] == rest[k]);
            }
        }
    } else {
        assert(z[0] == z.last());
        assert(min_offset(rest) == i32::MAX as int);
        assert(max_offset(rest) == i32::MIN as int);
        assert(z[0].utc_offset_minutes == min_offset(z));
        assert(z[0].utc_offset_minutes == max_offset(z));
    }
}

/// A valid catalog's report gives as its least and greatest offsets the
/// offsets of some of its zones, with every zone's offset between them.
pub proof fn lemma_catalog_offset_range(catalog: ZoneCatalog)
    requires
        catalog.check() is Ok,
    ensures
        exists|k: int|
            0 <= k < catalog.zones@.len() && (#[trigger] catalog.zones@[k]).utc_offset_minutes
                == catalog.summary().min_utc_offset_minutes,
        exists|k: int|
            0 <= k < catalog.zones@.len() && (#[trigger] catalog.zones@[k]).utc_offset_minutes
                == catalog.summary().max_utc_offset_minutes,
        forall|k: int|
            0 <= k < catalog.zones@.len() ==> catalog.summary().min_utc_offset_minutes
                <= (#[trigger] catalog.zones@[k]).utc_offset_minutes
                <= catalog.summary().max_utc_offset_minutes,
        catalog.summary().min_utc_offset_minutes <= catalog.summary().max_utc_offset_minutes,
{
    let z = catalog.zones@;
    assert(z.len() > 0);
    lemma_offset_extremes(z);
    let a = choose|k: int| 0 <= k < z.len() && (#[trigger] z[k]).utc_offset_minutes == min_offset(z);
    let b = choose|k: int| 0 <= k < z.len() && (#[trigger] z[k]).utc_offset_minutes == max_offset(z);
    assert(catalog.summary().min_utc_offset_minutes == z[a].utc_offset_minutes);
    assert(catalog.summary().max_utc_offset_minutes == z[b].utc_offset_minutes);
}

} // verus!
