//! Markdown reports of benchmark results, and the names of raw result files.

use crate::text::{decimal, decimal_string};
use vstd::prelude::*;

verus! {

/// A benchmark result as the reports show it; every field is text that was
/// already rendered.
pub struct ReportEntry {
    pub target_id: String,
    /// The metrics as compact JSON.
    pub metrics_json: String,
    /// The metrics as indented JSON.
    pub metrics_pretty: String,
    /// When the benchmark ran.
    pub timestamp: String,
    /// The metrics' `duration_ms` entry as JSON, where there is one.
    pub duration_ms: Option<String>,
}

pub ghost struct ReportEntryView {
    pub target_id: Seq<char>,
    pub metrics_json: Seq<char>,
    pub metrics_pretty: Seq<char>,
    pub timestamp: Seq<char>,
    pub duration_ms: Option<Seq<char>>,
}

impl View for ReportEntry {
    type V = ReportEntryView;

    open spec fn view(&self) -> ReportEntryView {
        ReportEntryView {
            target_id: self.target_id@,
            metrics_json: self.metrics_json@,
            metrics_pretty: self.metrics_pretty@,
            timestamp: self.timestamp@,
            duration_ms: match self.duration_ms {
                Some(d) => Some(d@),
                None => None,
            },
        }
    }
}

pub open spec fn entry_views(entries: Seq<ReportEntry>) -> Seq<ReportEntryView> {
    entries.map_values(|e: ReportEntry| e@)
}

/// `s` with every `|` written as `\|`, so that it can stand in a table cell.
pub open spec fn escape_pipes(s: Seq<char>) -> Seq<char>
    decreases s.len(),
{
    if s.len() == 0 {
        Seq::empty()
    } else {
        escape_pipes(s.drop_last()) + if s.last() == '|' {
            "\\|"@
        } else {
            seq![s.last()]
        }
    }
}

pub open spec fn table_header() -> Seq<char> {
    "| Target ID | Metrics | Timestamp |\n|-----------|---------|----------|\n"@
}

pub open spec fn table_line(e: ReportEntryView) -> Seq<char> {
    "| "@ + e.target_id + " | `"@ + escape_pipes(e.metrics_json) + "` | "@ + e.timestamp + " |\n"@
}

pub open spec fn table_lines(entries: Seq<ReportEntryView>) -> Seq<char>
    decreases entries.len(),
{
    if entries.len() == 0 {
        Seq::empty()
    } else {
        table_lines(entries.drop_last()) + table_line(entries.last())
    }
}

/// The results table, or a note where there are no results.
pub open spec fn table_text(entries: Seq<ReportEntryView>) -> Seq<char> {
    if entries.len() == 0 {
        "No benchmark results available.\n"@
    } else {
        table_header() + table_lines(entries)
    }
}

pub open spec fn detail_section(e: ReportEntryView) -> Seq<char> {
    "### "@ + e.target_id + "\n\n"@ + "**Timestamp:** "@ + e.timestamp + "\n\n"@ + "**Metrics:**\n\n"@
        + "```json\n"@ + e.metrics_pretty + "\n```\n\n"@
}

pub open spec fn detail_sections(entries: Seq<ReportEntryView>) -> Seq<char>
    decreases entries.len(),
{
    if entries.len() == 0 {
        Seq::empty()
    } else {
        detail_sections(entries.drop_last()) + detail_section(entries.last())
    }
}

/// The full summary report, generated at `generated`.
pub open spec fn summary_text(entries: Seq<ReportEntryView>, generated: Seq<char>) -> Seq<char> {
    "# Schema Registry Benchmark Summary\n\n"@ + "**Generated:** "@ + generated + "\n\n"@
        + "**Total Benchmarks:** "@ + decimal(entries.len()) + "\n\n"@ + "## Benchmark Results\n\n"@
        + table_text(entries) + "\n## Detailed Metrics\n\n"@ + detail_sections(entries)
}

pub open spec fn compact_line(e: ReportEntryView) -> Seq<char> {
    "- **"@ + e.target_id + "**: "@ + match e.duration_ms {
        Some(d) => d + "ms"@,
        None => "see details"@,
    } + "\n"@
}

pub open spec fn compact_lines(entries: Seq<ReportEntryView>) -> Seq<char>
    decreases entries.len(),
{
    if entries.len() == 0 {
        Seq::empty()
    } else {
        compact_lines(entries.drop_last()) + compact_line(entries.last())
    }
}

/// The compact summary, generated at `generated`.
pub open spec fn compact_text(entries: Seq<ReportEntryView>, generated: Seq<char>) -> Seq<char> {
    "# Benchmark Summary\n\n"@ + "Total: "@ + decimal(entries.len()) + " | "@ + "Generated: "@
        + generated + "\n\n"@ + compact_lines(entries)
}

proof fn lemma_entry_views_take(entries: Seq<ReportEntry>, i: int)
    requires
        0 <= i < entries.len(),
    ensures
        entry_views(entries.take(i + 1)).drop_last() == entry_views(entries.take(i)),
        entry_views(entries.take(i + 1)).last() == entries[i]@,
        entry_views(entries.take(i + 1)).len() == i + 1,
{
    assert(entry_views(entries.take(i + 1)).drop_last() =~= entry_views(entries.take(i)));
}

proof fn lemma_entry_views_all(entries: Seq<ReportEntry>)
    ensures
        entry_views(entries.take(entries.len() as int)) == entry_views(entries),
{
    assert(entries.take(entries.len() as int) =~= entries);
}

/// Writes `|` in `s` as `\|`.
pub fn escape_table_cell(s: &str) -> (r: String)
    ensures
        r@ == escape_pipes(s@),
{
    let n = s.unicode_len();
    let mut out = String::new();
    let mut i: usize = 0;
    while i < n
        invariant
            n == s@.len(),
            i <= n,
            out@ == escape_pipes(s@.take(i as int)),
        decreases n - i,
    {
        assert(s@.take(i + 1).drop_last() =~= s@.take(i as int));
        let c = s.get_char(i);
        if c == '|' {
            out.append("\\|");
        } else {
            let one = s.substring_char(i, i + 1);
            assert(one@ =~= seq![c]);
            out.append(one);
        }
        i = i + 1;
    }
    assert(s@.take(n as int) =~= s@);
    out
}

/// The results table in Markdown: a header and one line per result, with
/// pipes in the metrics escaped; a note where there are no results.
pub fn generate_table(entries: &Vec<ReportEntry>) -> (r: String)
    ensures
        r@ == table_text(entry_views(entries@)),
{
    if entries.len() == 0 {
        return String::from_str("No benchmark results available.\n");
    }
    let mut out = String::from_str("| Target ID | Metrics | Timestamp |\n");
    out.append("|-----------|---------|----------|\n");
    let ghost header = out@;
    proof {
        reveal_strlit("| Target ID | Metrics | Timestamp |\n");
        reveal_strlit("|-----------|---------|----------|\n");
        reveal_strlit("| Target ID | Metrics | Timestamp |\n|-----------|---------|----------|\n");
        assert(header =~= table_header());
    }
    let mut i: usize = 0;
    while i < entries.len()
        invariant
            i <= entries.len(),
            header == table_header(),
            out@ == header + table_lines(entry_views(entries@.take(i as int))),
        decreases entries.len() - i,
    {
        proof {
            lemma_entry_views_take(entries@, i as int);
        }
        let e = &entries[i];
        out.append("| ");
        out.append(e.target_id.as_str());
        out.append(" | `");
        let metrics = escape_table_cell(e.metrics_json.as_str());
        out.append(metrics.as_str());
        out.append("` | ");
        out.append(e.timestamp.as_str());
        out.append(" |\n");
        assert(out@ =~= header + table_lines(entry_views(entries@.take(i + 1))));
        i = i + 1;
    }
    proof {
        lemma_entry_views_all(entries@);
    }
    out
}

/// The full summary report in Markdown, generated at `generated`.
pub fn generate_summary(entries: &Vec<ReportEntry>, generated: &str) -> (r: String)
    ensures
        r@ == summary_text(entry_views(entries@), generated@),
{
    let mut out = String::from_str("# Schema Registry Benchmark Summary\n\n");
    out.append("**Generated:** ");
    out.append(generated);
    out.append("\n\n");
    out.append("**Total Benchmarks:** ");
    let count = decimal_string(entries.len());
    out.append(count.as_str());
    out.append("\n\n");
    out.append("## Benchmark Results\n\n");
    let table = generate_table(entries);
    out.append(table.as_str());
    out.append("\n## Detailed Metrics\n\n");
    let ghost head = out@;
    let mut i: usize = 0;
    while i < entries.len()
        invariant
            i <= entries.len(),
            out@ == head + detail_sections(entry_views(entries@.take(i as int))),
        decreases entries.len() - i,
    {
        proof {
            lemma_entry_views_take(entries@, i as int);
        }
        let e = &entries[i];
        out.append("### ");
        out.append(e.target_id.as_str());
        out.append("\n\n");
        out.append("**Timestamp:** ");
        out.append(e.timestamp.as_str());
        out.append("\n\n");
        out.append("**Metrics:**\n\n");
        out.append("```json\n");
        out.append(e.metrics_pretty.as_str());
        out.append("\n```\n\n");
        assert(out@ =~= head + detail_sections(entry_views(entries@.take(i + 1))));
        i = i + 1;
    }
    proof {
        lemma_entry_views_all(entries@);
        assert(entry_views(entries@).len() == entries@.len());
    }
    assert(out@ =~= summary_text(entry_views(entries@), generated@));
    out
}

/// The compact summary in Markdown, generated at `generated`: one line per
/// result with its duration where the metrics give one.
pub fn generate_compact_summary(entries: &Vec<ReportEntry>, generated: &str) -> (r: String)
    ensures
        r@ == compact_text(entry_views(entries@), generated@),
{
    let mut out = String::from_str("# Benchmark Summary\n\n");
    out.append("Total: ");
    let count = decimal_string(entries.len());
    out.append(count.as_str());
    out.append(" | ");
    out.append("Generated: ");
    out.append(generated);
    out.append("\n\n");
    let ghost head = out@;
    let mut i: usize = 0;
    while i < entries.len()
        invariant
            i <= entries.len(),
            out@ == head + compact_lines(entry_views(entries@.take(i as int))),
        decreases entries.len() - i,
    {
        proof {
            lemma_entry_views_take(entries@, i as int);
        }
        let e = &entries[i];
        out.append("- **");
        out.append(e.target_id.as_str());
        out.append("**: ");
        match &e.duration_ms {
            Some(d) => {
                out.append(d.as_str());
                out.append("ms");
            },
            None => {
                out.append("see details");
            },
        }
        out.append("\n");
        assert(out@ =~= head + compact_lines(entry_views(entries@.take(i + 1))));
        i = i + 1;
    }
    proof {
        lemma_entry_views_all(entries@);
        assert(entry_views(entries@).len() == entries@.len());
    }
    assert(out@ =~= compact_text(entry_views(entries@), generated@));
    out
}

/// The name of a raw result file: `prefix_stamp.extension`.
pub fn timestamped_name(prefix: &str, stamp: &str, extension: &str) -> (r: String)
    ensures
        r@ == prefix@ + "_"@ + stamp@ + "."@ + extension@,
{
    let mut out = String::from_str(prefix);
    out.append("_");
    out.append(stamp);
    out.append(".");
    out.append(extension);
    out
}

} // verus!
