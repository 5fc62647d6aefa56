//! Rendering of the collected entries as one pretty-printed JSON array,
//! the report document the dashboard ingests.
//!
//! The whole document shape is fixed — an array of objects with the fields
//! `description`, `check_name`, `fingerprint`, `severity` and a nested
//! `location` — so the renderer is a plain composition of literal pieces,
//! escaped strings and decimal numbers, and an empty run renders as the
//! empty array, never as an error.

use vstd::prelude::*;

use crate::gitlab::CodeQualityReportEntry;
use crate::gitlab::EntryModel;
use crate::gitlab::Severity;
use crate::text::dec_digits;
use crate::text::digit_char;
use crate::text::digit_str;
use crate::text::usize_to_dec;

verus! {

/// How one character appears inside a JSON string literal: quote and
/// backslash escaped, the common control characters by their short
/// escapes, any other control character as a `\u00..` escape, and
/// everything else as itself.
pub open spec fn escaped_char(c: char) -> Seq<char> {
    if c == '"' {
        "\\\""@
    } else if c == '\\' {
        "\\\\"@
    } else if c == '\n' {
        "\\n"@
    } else if c == '\r' {
        "\\r"@
    } else if c == '\t' {
        "\\t"@
    } else if (c as u32) < 0x20 {
        "\\u00"@ + seq![digit_char((c as u32 / 16) as int)] + seq![digit_char((c as u32 % 16) as int)]
    } else {
        seq![c]
    }
}

/// A whole text with each character escaped.
pub open spec fn escaped(s: Seq<char>) -> Seq<char>
    decreases s.len(),
{
    if s.len() == 0 {
        Seq::empty()
    } else {
        escaped(s.drop_last()) + escaped_char(s.last())
    }
}

/// A JSON string literal: the escaped text between double quotes.
pub open spec fn json_string(s: Seq<char>) -> Seq<char> {
    "\""@ + escaped(s) + "\""@
}

/// The lowercase name a severity serializes as.
pub open spec fn severity_name(s: Severity) -> Seq<char> {
    match s {
        Severity::Info => "info"@,
        Severity::Minor => "minor"@,
        Severity::Major => "major"@,
        Severity::Critical => "critical"@,
        Severity::Blocker => "blocker"@,
    }
}

/// The lowercase name a severity serializes as.
pub fn severity_str(s: Severity) -> (r: &'static str)
    ensures
        r@ == severity_name(s),
{
    match s {
        Severity::Info => "info",
        Severity::Minor => "minor",
        Severity::Major => "major",
        Severity::Critical => "critical",
        Severity::Blocker => "blocker",
    }
}

fn append_escaped(out: &mut String, s: &str)
    ensures
        final(out)@ == old(out)@ + escaped(s@),
{
    let n: usize = s.unicode_len();
    let mut i: usize = 0;
    while i < n
        invariant
            i <= n,
            n == s@.len(),
            out@ == old(out)@ + escaped(s@.take(i as int)),
        decreases n - i,
    {
        let c: char = s.get_char(i);
        if c == '"' {
            out.append("\\\"");
        } else if c == '\\' {
            out.append("\\\\");
        } else if c == '\n' {
            out.append("\\n");
        } else if c == '\r' {
            out.append("\\r");
        } else if c == '\t' {
            out.append("\\t");
        } else if (c as u32) < 0x20 {
            out.append("\\u00");
            out.append(digit_str((c as u32 / 16) as u64));
            out.append(digit_str((c as u32 % 16) as u64));
        } else {
            proof {
                assert(s@.subrange(i as int, i as int + 1) =~= seq![s@[i as int]]);
            }
            out.append(s.substring_char(i, i + 1));
        }
        i = i + 1;
        proof {
            assert(s@.take(i as int).drop_last() =~= s@.take(i - 1));
            assert(s@.take(i as int).last() == s@[i - 1]);
            assert(out@ =~= old(out)@ + escaped(s@.take(i as int)));
        }
    }
    proof {
        assert(s@.take(n as int) =~= s@);
    }
}

fn append_json_string(out: &mut String, s: &str)
    ensures
        final(out)@ == old(out)@ + json_string(s@),
{
    out.append("\"");
    append_escaped(out, s);
    out.append("\"");
    proof {
        assert(out@ =~= old(out)@ + json_string(s@));
    }
}

/// One entry as a pretty-printed JSON object, indented as an array
/// element, fields in their fixed order.
pub open spec fn entry_json(e: EntryModel) -> Seq<char> {
    "  {\n    \"description\": "@ + json_string(e.description) + ",\n    \"check_name\": "@
        + json_string(e.check_name) + ",\n    \"fingerprint\": "@ + json_string(e.fingerprint)
        + ",\n    \"severity\": "@ + json_string(severity_name(e.severity))
        + ",\n    \"location\": {\n      \"path\": "@ + json_string(e.location.path)
        + ",\n      \"lines\": {\n        \"begin\": "@ + dec_digits(e.location.begin as nat)
        + "\n      }\n    }\n  }"@
}

#[verifier::rlimit(50)]
fn append_entry(out: &mut String, e: &CodeQualityReportEntry)
    ensures
        final(out)@ == old(out)@ + entry_json(e.deep_view()),
{
    out.append("  {\n    \"description\": ");
    append_json_string(out, e.description.as_str());
    out.append(",\n    \"check_name\": ");
    append_json_string(out, e.check_name.as_str());
    out.append(",\n    \"fingerprint\": ");
    append_json_string(out, e.fingerprint.as_str());
    out.append(",\n    \"severity\": ");
    append_json_string(out, severity_str(e.severity));
    out.append(",\n    \"location\": {\n      \"path\": ");
    append_json_string(out, e.location.path.as_str());
    out.append(",\n      \"lines\": {\n        \"begin\": ");
    let num: String = usize_to_dec(e.location.lines.begin);
    out.append(num.as_str());
    out.append("\n      }\n    }\n  }");
    proof {
        assert(out@ =~= old(out)@ + entry_json(e.deep_view()));
    }
}

/// The array elements joined by a comma and a line break.
pub open spec fn entries_joined(es: Seq<EntryModel>) -> Seq<char>
    decreases es.len(),
{
    if es.len() == 0 {
        Seq::empty()
    } else if es.len() == 1 {
        entry_json(es[0])
    } else {
        entries_joined(es.drop_last()) + ",\n"@ + entry_json(es.last())
    }
}

/// The whole report document: the empty array for an empty run, otherwise
/// the entries as a pretty-printed JSON array.
pub open spec fn report_json(es: Seq<EntryModel>) -> Seq<char> {
    if es.len() == 0 {
        "[]"@
    } else {
        "[\n"@ + entries_joined(es) + "\n]"@
    }
}

/// Renders the collected entries as the report document.
pub fn render_report(entries: &Vec<CodeQualityReportEntry>) -> (r: String)
    ensures
        r@ == report_json(entries.deep_view()),
{
    if entries.len() == 0 {
        proof {
            assert(entries.deep_view().len() == 0);
        }
        return String::from_str("[]");
    }
    let ghost dv = entries.deep_view();
    let mut out: String = String::from_str("[\n");
    let mut i: usize = 0;
    while i < entries.len()
        invariant
            i <= entries.len(),
            entries.len() > 0,
            dv == entries.deep_view(),
            i == 0 ==> out@ == "[\n"@,
            i > 0 ==> out@ == "[\n"@ + entries_joined(dv.take(i as int)),
        decreases entries.len() - i,
    {
        let ghost prev = out@;
        if i > 0 {
            out.append(",\n");
        }
        append_entry(&mut out, &entries[i]);
        i = i + 1;
        proof {
            assert(dv[i - 1] == entries@[i - 1].deep_view());
            assert(dv.take(i as int).drop_last() =~= dv.take(i - 1));
            assert(dv.take(i as int).last() == dv[i - 1]);
            assert(out@ =~= "[\n"@ + entries_joined(dv.take(i as int)));
        }
    }
    proof {
        assert(dv.take(entries@.len() as int) =~= dv);
    }
    out.append("\n]");
    out
}

/// An empty run renders as the empty JSON array, not as an error and not
/// as anything else.
pub proof fn lemma_empty_report_renders_empty_array()
    ensures
        report_json(Seq::<EntryModel>::empty()) == "[]"@,
{
}

} // verus!
