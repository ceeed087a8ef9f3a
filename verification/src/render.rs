use vstd::prelude::*;

use crate::format::{decimal, decimal_text};
use crate::zones::OffsetMapView;

verus! {

/// The XML/HTML escape of one character.
pub open spec fn xml_escape_char(c: char) -> Seq<char> {
    if c == '&' {
        "&amp;"@
    } else if c == '<' {
        "&lt;"@
    } else if c == '>' {
        "&gt;"@
    } else if c == '"' {
        "&quot;"@
    } else {
        seq![c]
    }
}

/// The JSON string escape of one character.
pub open spec fn json_escape_char(c: char) -> Seq<char> {
    if c == '\\' {
        "\\\\"@
    } else if c == '"' {
        "\\\""@
    } else if c == '\n' {
        "\\n"@
    } else if c == '\r' {
        "\\r"@
    } else {
        seq![c]
    }
}

/// Text with each character replaced by its XML/HTML escape.
pub open spec fn xml_escaped(s: Seq<char>) -> Seq<char>
    decreases s.len(),
{
    if s.len() == 0 {
        seq![]
    } else {
        xml_escaped(s.drop_last()) + xml_escape_char(s.last())
    }
}

/// Text with each character replaced by its JSON string escape.
pub open spec fn json_escaped(s: Seq<char>) -> Seq<char>
    decreases s.len(),
{
    if s.len() == 0 {
        seq![]
    } else {
        json_escaped(s.drop_last()) + json_escape_char(s.last())
    }
}

/// Text with each double quote doubled.
pub open spec fn quotes_doubled(s: Seq<char>) -> Seq<char>
    decreases s.len(),
{
    if s.len() == 0 {
        seq![]
    } else {
        quotes_doubled(s.drop_last()) + if s.last() == '"' {
            seq!['"', '"']
        } else {
            seq![s.last()]
        }
    }
}

/// Whether a CSV cell must be quoted: it holds a comma, quote, or line break.
pub open spec fn csv_needs_quotes(s: Seq<char>) -> bool {
    exists|i: int|
        0 <= i < s.len() && (#[trigger] s[i] == ',' || s[i] == '"' || s[i] == '\n' || s[i]
            == '\r')
}

/// A CSV cell: the text itself, or the text quoted with its quotes doubled.
pub open spec fn csv_cell_text(s: Seq<char>) -> Seq<char> {
    if csv_needs_quotes(s) {
        seq!['"'] + quotes_doubled(s) + seq!['"']
    } else {
        s
    }
}

fn xml_escape_piece(c: char) -> (s: &'static str)
    requires
        c == '&' || c == '<' || c == '>' || c == '"',
    ensures
        s@ == xml_escape_char(c),
{
    if c == '&' {
        "&amp;"
    } else if c == '<' {
        "&lt;"
    } else if c == '>' {
        "&gt;"
    } else {
        "&quot;"
    }
}

fn json_escape_piece(c: char) -> (s: &'static str)
    requires
        c == '\\' || c == '"' || c == '\n' || c == '\r',
    ensures
        s@ == json_escape_char(c),
{
    if c == '\\' {
        "\\\\"
    } else if c == '"' {
        "\\\""
    } else if c == '\n' {
        "\\n"
    } else {
        "\\r"
    }
}

proof fn lemma_take_step(s: Seq<char>, i: int)
    requires
        0 <= i < s.len(),
    ensures
        s.take(i + 1).drop_last() == s.take(i),
        s.take(i + 1).last() == s[i],
{
    assert(s.take(i + 1).drop_last() =~= s.take(i));
}

/// Escapes `&`, `<`, `>`, and `"` for XML and HTML text.
pub fn escape_xml(value: &str) -> (escaped: String)
    ensures
        escaped@ == xml_escaped(value@),
{
    let n = value.unicode_len();
    let mut out = String::new();
    let mut i: usize = 0;
    while i < n
        invariant
            n == value@.len(),
            i <= n,
            out@ == xml_escaped(value@.take(i as int)),
        decreases n - i,
    {
        let c = value.get_char(i);
        proof {
            lemma_take_step(value@, i as int);
        }
        if c == '&' || c == '<' || c == '>' || c == '"' {
            out.append(xml_escape_piece(c));
        } else {
            let piece = value.substring_char(i, i + 1);
            assert(piece@ =~= seq![c]);
            out.append(piece);
        }
        i = i + 1;
    }
    assert(value@.take(n as int) =~= value@);
    out
}

/// Escapes `&`, `<`, `>`, and `"` for HTML text.
pub fn html_escape(value: &str) -> (escaped: String)
    ensures
        escaped@ == xml_escaped(value@),
{
    escape_xml(value)
}

/// Escapes backslashes, double quotes, and line breaks for a JSON string.
pub fn escape_json(value: &str) -> (escaped: String)
    ensures
        escaped@ == json_escaped(value@),
{
    let n = value.unicode_len();
    let mut out = String::new();
    let mut i: usize = 0;
    while i < n
        invariant
            n == value@.len(),
            i <= n,
            out@ == json_escaped(value@.take(i as int)),
        decreases n - i,
    {
        let c = value.get_char(i);
        proof {
            lemma_take_step(value@, i as int);
        }
        if c == '\\' || c == '"' || c == '\n' || c == '\r' {
            out.append(json_escape_piece(c));
        } else {
            let piece = value.substring_char(i, i + 1);
            assert(piece@ =~= seq![c]);
            out.append(piece);
        }
        i = i + 1;
    }
    assert(value@.take(n as int) =~= value@);
    out
}

/// Writes a CSV cell: the value itself, or, when it holds a comma, a
/// double quote, or a line break, the value quoted with its quotes doubled.
pub fn csv_cell(value: &str) -> (cell: String)
    ensures
        cell@ == csv_cell_text(value@),
{
    let n = value.unicode_len();
    let mut needs = false;
    let mut k: usize = 0;
    while k < n
        invariant
            n == value@.len(),
            k <= n,
            needs == exists|i: int|
                0 <= i < k && (#[trigger] value@[i] == ',' || value@[i] == '"' || value@[i]
                    == '\n' || value@[i] == '\r'),
        decreases n - k,
    {
        let c = value.get_char(k);
        if c == ',' || c == '"' || c == '\n' || c == '\r' {
            needs = true;
        }
        k = k + 1;
    }
    if !needs {
        return String::from_str(value);
    }
    let mut out = String::from_str("\"");
    proof {
        reveal_strlit("\"");
        reveal_strlit("\"\"");
    }
    let mut i: usize = 0;
    while i < n
        invariant
            n == value@.len(),
            i <= n,
            out@ == seq!['"'] + quotes_doubled(value@.take(i as int)),
        decreases n - i,
    {
        let c = value.get_char(i);
        proof {
            lemma_take_step(value@, i as int);
        }
        if c == '"' {
            proof {
                reveal_strlit("\"\"");
            }
            out.append("\"\"");
        } else {
            let piece = value.substring_char(i, i + 1);
            assert(piece@ =~= seq![c]);
            out.append(piece);
        }
        proof {
            assert(quotes_doubled(value@.take(i + 1)) == quotes_doubled(value@.take(i as int)) + (
            if c == '"' {
                seq!['"', '"']
            } else {
                seq![c]
            }));
            assert(out@ =~= seq!['"'] + quotes_doubled(value@.take(i + 1)));
        }
        i = i + 1;
    }
    proof {
        reveal_strlit("\"");
    }
    out.append("\"");
    assert(value@.take(n as int) =~= value@);
    out
}

/// The five offset map views, in display order.
pub fn offset_map_views() -> (views: [OffsetMapView; 5])
    ensures
        views@ == seq![
            OffsetMapView::CurrentStandard,
            OffsetMapView::CurrentDst,
            OffsetMapView::BestWholeHour,
            OffsetMapView::BestHalfHour,
            OffsetMapView::BestQuarterHour,
        ],
{
    let views = [
        OffsetMapView::CurrentStandard,
        OffsetMapView::CurrentDst,
        OffsetMapView::BestWholeHour,
        OffsetMapView::BestHalfHour,
        OffsetMapView::BestQuarterHour,
    ];
    assert(views@ =~= seq![
        OffsetMapView::CurrentStandard,
        OffsetMapView::CurrentDst,
        OffsetMapView::BestWholeHour,
        OffsetMapView::BestHalfHour,
        OffsetMapView::BestQuarterHour,
    ]);
    views
}

/// Text fragments of the offset atlas page and the candidate map packet page.
pub const ATLAS_HEAD: &'static str = "<!doctype html>\n<html lang=\"en\">\n<head>\n<meta charset=\"utf-8\">\n<meta name=\"viewport\" content=\"width=device-width, initial-scale=1\">\n<title>ZONES Offset Atlas</title>\n<style>\n:root {\n  color-scheme: light;\n  font-family: system-ui, -apple-system, BlinkMacSystemFont, \"Segoe UI\", sans-serif;\n  background: #f8fafc;\n  color: #0f172a;\n}\nbody {\n  margin: 0;\n}\nheader {\n  padding: 28px 32px 20px;\n  border-bottom: 1px solid #cbd5e1;\n  background: #ffffff;\n}\nh1 {\n  margin: 0 0 8px;\n  font-size: 28px;\n  line-height: 1.15;\n}\n.summary {\n  display: flex;\n  flex-wrap: wrap;\n  gap: 10px;\n  margin-top: 18px;\n}\n.metric {\n  border: 1px solid #cbd5e1;\n  border-radius: 6px;\n  padding: 8px 10px;\n  background: #f8fafc;\n}\n.metric strong {\n  display: block;\n  font-size: 18px;\n}\n.metric span {\n  color: #475569;\n  font-size: 12px;\n}\nmain {\n  display: grid;\n  grid-template-columns: repeat(auto-fit, minmax(420px, 1fr));\n  gap: 18px;\n  padding: 20px;\n}\n.map-card {\n  border: 1px solid #cbd5e1;\n  border-radius: 8px;\n  background: #ffffff;\n  overflow: hidden;\n}\n.map-card h2 {\n  margin: 0;\n  padding: 14px 16px;\n  font-size: 16px;\n  border-bottom: 1px solid #e2e8f0;\n}\nobject {\n  width: 100%;\n  min-height: 320px;\n  display: block;\n}\n</style>\n</head>\n<body>\n<header>\n<h1>ZONES Offset Atlas</h1>\n<div>Input <code>";

pub const ATLAS_METRICS_OPEN: &'static str = "</code>. Schematic maps compare current assigned offsets with candidate offset grids.</div>\n<div class=\"summary\">\n<div class=\"metric\"><strong>";

pub const ATLAS_STANDARD_CLOSE: &'static str = "</strong><span>current standard mean error</span></div>\n<div class=\"metric\"><strong>";

pub const ATLAS_DST_CLOSE: &'static str = "</strong><span>DST-period mean error</span></div>\n<div class=\"metric\"><strong>";

pub const ATLAS_WHOLE_CLOSE: &'static str = "</strong><span>best whole-hour mean error</span></div>\n<div class=\"metric\"><strong>";

pub const ATLAS_HALF_CLOSE: &'static str = "</strong><span>best half-hour mean error</span></div>\n<div class=\"metric\"><strong>";

pub const ATLAS_QUARTER_CLOSE: &'static str = "</strong><span>best quarter-hour mean error</span></div>\n</div>\n</header>\n<main>\n";

pub const PAGE_END_MAIN: &'static str = "\n</main>\n</body>\n</html>\n";

pub const PACKET_HEAD: &'static str = "<!doctype html>\n<html lang=\"en\">\n<head>\n<meta charset=\"utf-8\">\n<meta name=\"viewport\" content=\"width=device-width, initial-scale=1\">\n<title>ZONES Candidate Map Packet</title>\n<style>\n:root {\n  color-scheme: light;\n  font-family: system-ui, -apple-system, BlinkMacSystemFont, \"Segoe UI\", sans-serif;\n  background: #f8fafc;\n  color: #0f172a;\n}\nbody {\n  margin: 0;\n  padding: 32px;\n}\nmain {\n  max-width: 900px;\n  margin: 0 auto;\n  border: 1px solid #cbd5e1;\n  border-radius: 10px;\n  background: #ffffff;\n  padding: 24px 28px;\n}\n.gate {\n  border-left: 4px solid #b45309;\n  background: #fffbeb;\n  padding: 12px 14px;\n  margin: 18px 0;\n}\nli {\n  margin: 10px 0;\n}\n</style>\n</head>\n<body>\n<main>\n<h1>ZONES Candidate Map Packet</h1>\n<p>Input <code>";

pub const PACKET_MIDDLE: &'static str = "</code>. These maps compare current-law and generated offset-grid counterfactuals for internal measurement.</p>\n<div class=\"gate\"><strong>Recommendation gate closed.</strong> Candidate maps are not preferred maps, enactment advice, or publication-ready national claims.</div>\n<p><a href=\"candidate-comparison.json\">Candidate comparison JSON</a></p>\n<ul>\n";

pub const PACKET_LINKS_END: &'static str = "\n</ul>\n";

pub const SUMMARY_HEAD: &'static str = "<h2>Comparison summary</h2>\n<p>Lower error deltas are measurements, not recommendations.</p>\n<table>\n<thead><tr><th>Option</th><th>Weighted mean error (minutes)</th><th>Weighted error delta (minutes)</th><th>Moved units</th><th>Moved population</th></tr></thead>\n<tbody>\n";

pub const SUMMARY_END: &'static str = "</tbody>\n</table>\n";

pub const PACKET_END: &'static str = "<p>Each packet includes <code>plan-input.json</code>, <code>offset-fit.json</code>, <code>offset-fit.geojson</code>, SVG maps, and a local atlas page.</p>\n</main>\n</body>\n</html>\n";

/// One map card of the offset atlas page.
pub open spec fn atlas_card(view: OffsetMapView, file_name: Seq<char>) -> Seq<char> {
    "<section class=\"map-card\"><h2>"@ + xml_escaped(view.title_text())
        + "</h2><object data=\""@ + xml_escaped(file_name)
        + "\" type=\"image/svg+xml\"></object></section>\n"@
}

/// The map cards of the offset atlas page, one per map file in order.
pub open spec fn atlas_cards(map_files: Seq<(OffsetMapView, String)>) -> Seq<char>
    decreases map_files.len(),
{
    if map_files.len() == 0 {
        seq![]
    } else {
        atlas_cards(map_files.drop_last()) + atlas_card(
            map_files.last().0,
            map_files.last().1@,
        )
    }
}

/// The offset atlas page for an input, given the five mean errors as
/// display text (current standard, DST period, best whole hour, best half
/// hour, best quarter hour) and the map files to show.
pub open spec fn atlas_page(
    input_id: Seq<char>,
    metrics: Seq<Seq<char>>,
    map_files: Seq<(OffsetMapView, String)>,
) -> Seq<char> {
    ATLAS_HEAD@ + xml_escaped(input_id) + ATLAS_METRICS_OPEN@ + metrics[0] + ATLAS_STANDARD_CLOSE@
        + metrics[1] + ATLAS_DST_CLOSE@ + metrics[2] + ATLAS_WHOLE_CLOSE@ + metrics[3]
        + ATLAS_HALF_CLOSE@ + metrics[4] + ATLAS_QUARTER_CLOSE@ + atlas_cards(map_files)
        + PAGE_END_MAIN@
}

/// One line of the comparison summary of a candidate map packet: the
/// option's label, its weighted mean error and its change from the
/// baseline as display text, and how many units and people it moves.
#[derive(Debug, Clone, PartialEq, Eq)]
pub struct ComparisonSummaryRow {
    pub label: String,
    pub weighted_error: String,
    pub weighted_error_delta: String,
    pub moved_unit_count: u64,
    pub moved_population: u64,
}

/// The table row of one comparison summary line.
pub open spec fn summary_row(row: ComparisonSummaryRow) -> Seq<char> {
    "<tr><td>"@ + xml_escaped(row.label@) + "</td><td>"@ + xml_escaped(row.weighted_error@)
        + "</td><td>"@ + xml_escaped(row.weighted_error_delta@) + "</td><td>"@ + decimal(
        row.moved_unit_count as nat,
    ) + "</td><td>"@ + decimal(row.moved_population as nat) + "</td></tr>\n"@
}

/// The table rows of the comparison summary, in order.
pub open spec fn summary_rows_text(rows: Seq<ComparisonSummaryRow>) -> Seq<char>
    decreases rows.len(),
{
    if rows.len() == 0 {
        seq![]
    } else {
        summary_rows_text(rows.drop_last()) + summary_row(rows.last())
    }
}

/// The index page of a candidate map packet: the input id, one link line
/// per packet, then the comparison summary table.
pub open spec fn packet_index_page(
    input_id: Seq<char>,
    links: Seq<(String, String, String)>,
    rows: Seq<ComparisonSummaryRow>,
) -> Seq<char> {
    PACKET_HEAD@ + xml_escaped(input_id) + PACKET_MIDDLE@ + packet_links_text(links)
        + PACKET_LINKS_END@ + SUMMARY_HEAD@ + summary_rows_text(rows) + SUMMARY_END@ + PACKET_END@
}

/// One packet link of the candidate map packet page.
pub open spec fn packet_link(label: Seq<char>, atlas_path: Seq<char>, geojson_path: Seq<char>) -> Seq<
    char,
> {
    "<li><strong>"@ + xml_escaped(label) + "</strong>: <a href=\""@ + xml_escaped(atlas_path)
        + "\">atlas</a> | <a href=\""@ + xml_escaped(geojson_path) + "\">GeoJSON</a></li>\n"@
}

/// The packet links of the candidate map packet page, in order.
pub open spec fn packet_links_text(links: Seq<(String, String, String)>) -> Seq<char>
    decreases links.len(),
{
    if links.len() == 0 {
        seq![]
    } else {
        packet_links_text(links.drop_last()) + packet_link(
            links.last().0@,
            links.last().1@,
            links.last().2@,
        )
    }
}

fn atlas_card_text(view: OffsetMapView, file_name: &String) -> (card: String)
    ensures
        card@ == atlas_card(view, file_name@),
{
    let mut card = String::from_str("<section class=\"map-card\"><h2>");
    let title = html_escape(view.title());
    card.append(title.as_str());
    card.append("</h2><object data=\"");
    let file = html_escape(file_name.as_str());
    card.append(file.as_str());
    card.append("\" type=\"image/svg+xml\"></object></section>\n");
    card
}

/// Renders the offset atlas page: the input id, the five mean errors as
/// already formatted for display, and one card per map file.
pub fn render_offset_atlas_html(
    input_id: &String,
    current_standard: &String,
    current_dst: &String,
    best_whole_hour: &String,
    best_half_hour: &String,
    best_quarter_hour: &String,
    map_files: &Vec<(OffsetMapView, String)>,
) -> (page: String)
    ensures
        page@ == atlas_page(
            input_id@,
            seq![
                current_standard@,
                current_dst@,
                best_whole_hour@,
                best_half_hour@,
                best_quarter_hour@,
            ],
            map_files@,
        ),
{
    let mut cards = String::new();
    let mut i: usize = 0;
    while i < map_files.len()
        invariant
            i <= map_files@.len(),
            cards@ == atlas_cards(map_files@.take(i as int)),
        decreases map_files@.len() - i,
    {
        let card = atlas_card_text(map_files[i].0, &map_files[i].1);
        cards.append(card.as_str());
        proof {
            assert(map_files@.take(i + 1).drop_last() =~= map_files@.take(i as int));
        }
        i = i + 1;
    }
    assert(map_files@.take(map_files@.len() as int) =~= map_files@);
    let mut page = String::from_str(ATLAS_HEAD);
    let id = html_escape(input_id.as_str());
    page.append(id.as_str());
    page.append(ATLAS_METRICS_OPEN);
    page.append(current_standard.as_str());
    page.append(ATLAS_STANDARD_CLOSE);
    page.append(current_dst.as_str());
    page.append(ATLAS_DST_CLOSE);
    page.append(best_whole_hour.as_str());
    page.append(ATLAS_WHOLE_CLOSE);
    page.append(best_half_hour.as_str());
    page.append(ATLAS_HALF_CLOSE);
    page.append(best_quarter_hour.as_str());
    page.append(ATLAS_QUARTER_CLOSE);
    page.append(cards.as_str());
    page.append(PAGE_END_MAIN);
    page
}

fn packet_link_text(label: &String, atlas_path: &String, geojson_path: &String) -> (link: String)
    ensures
        link@ == packet_link(label@, atlas_path@, geojson_path@),
{
    let mut link = String::from_str("<li><strong>");
    let l = html_escape(label.as_str());
    link.append(l.as_str());
    link.append("</strong>: <a href=\"");
    let a = html_escape(atlas_path.as_str());
    link.append(a.as_str());
    link.append("\">atlas</a> | <a href=\"");
    let g = html_escape(geojson_path.as_str());
    link.append(g.as_str());
    link.append("\">GeoJSON</a></li>\n");
    link
}

fn summary_row_text(row: &ComparisonSummaryRow) -> (text: String)
    ensures
        text@ == summary_row(*row),
{
    let mut text = String::from_str("<tr><td>");
    let label = html_escape(row.label.as_str());
    text.append(label.as_str());
    text.append("</td><td>");
    let error = html_escape(row.weighted_error.as_str());
    text.append(error.as_str());
    text.append("</td><td>");
    let delta = html_escape(row.weighted_error_delta.as_str());
    text.append(delta.as_str());
    text.append("</td><td>");
    let units = decimal_text(row.moved_unit_count);
    text.append(units.as_str());
    text.append("</td><td>");
    let people = decimal_text(row.moved_population);
    text.append(people.as_str());
    text.append("</td></tr>\n");
    text
}

/// Renders the index page of a candidate map packet: the input id, one
/// link line (label, atlas path, GeoJSON path) per packet, and a table
/// summarising each option's error and movement against the baseline.
pub fn render_offset_candidate_maps_index_html(
    input_id: &String,
    packet_links: &Vec<(String, String, String)>,
    summary: &Vec<ComparisonSummaryRow>,
) -> (page: String)
    ensures
        page@ == packet_index_page(input_id@, packet_links@, summary@),
{
    let mut cards = String::new();
    let mut i: usize = 0;
    while i < packet_links.len()
        invariant
            i <= packet_links@.len(),
            cards@ == packet_links_text(packet_links@.take(i as int)),
        decreases packet_links@.len() - i,
    {
        let link = packet_link_text(&packet_links[i].0, &packet_links[i].1, &packet_links[i].2);
        cards.append(link.as_str());
        proof {
            assert(packet_links@.take(i + 1).drop_last() =~= packet_links@.take(i as int));
        }
        i = i + 1;
    }
    assert(packet_links@.take(packet_links@.len() as int) =~= packet_links@);
    let mut rows = String::new();
    let mut k: usize = 0;
    while k < summary.len()
        invariant
            k <= summary@.len(),
            rows@ == summary_rows_text(summary@.take(k as int)),
        decreases summary@.len() - k,
    {
        let row = summary_row_text(&summary[k]);
        rows.append(row.as_str());
        proof {
            assert(summary@.take(k + 1).drop_last() =~= summary@.take(k as int));
        }
        k = k + 1;
    }
    assert(summary@.take(summary@.len() as int) =~= summary@);
    let mut page = String::from_str(PACKET_HEAD);
    let id = html_escape(input_id.as_str());
    page.append(id.as_str());
    page.append(PACKET_MIDDLE);
    page.append(cards.as_str());
    page.append(PACKET_LINKS_END);
    page.append(SUMMARY_HEAD);
    page.append(rows.as_str());
    page.append(SUMMARY_END);
    page.append(PACKET_END);
    page
}

} // verus!
