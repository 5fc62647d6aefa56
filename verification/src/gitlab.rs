//! The canonical report entry and the diagnostic normalizer.
//!
//! A [`CodeQualityReportEntry`] is the one output record of the crate, the
//! unit the downstream code-quality dashboard consumes. The normalizer maps
//! each decoded compiler diagnostic to at most one entry: it keeps the
//! levels the report format knows, requires a source span for the location,
//! and builds the description from the message and the trimmed source
//! lines of the first span.

use vstd::prelude::*;

use crate::diagnostic::Diagnostic;
use crate::diagnostic::DiagnosticLevel;
use crate::diagnostic::DiagnosticModel;
use crate::diagnostic::Message;
use crate::diagnostic::MessageModel;
use crate::fingerprint::fingerprint;
use crate::fingerprint::spec_fingerprint;
use crate::text::trim_str;
use crate::text::trimmed;

verus! {

/// The fixed, ordered severity scale of the report format.
#[derive(Clone, Copy, Debug, PartialEq, Eq, Structural)]
pub enum Severity {
    Info,
    Minor,
    Major,
    Critical,
    Blocker,
}

/// The 1-based line a finding starts on.
#[derive(Clone, Debug)]
pub struct Lines {
    pub begin: usize,
}

/// Where a finding sits: a file path and a starting line.
#[derive(Clone, Debug)]
pub struct Location {
    pub path: String,
    pub lines: Lines,
}

/// One finding in the report: a description, the name of the check that
/// raised it, a deterministic fingerprint for deduplication, a severity and
/// a location. Entries are never mutated after construction.
#[derive(Clone, Debug)]
pub struct CodeQualityReportEntry {
    pub description: String,
    pub check_name: String,
    pub fingerprint: String,
    pub severity: Severity,
    pub location: Location,
}

/// The mathematical value of a [`Location`].
#[verifier::ext_equal]
pub struct LocationModel {
    pub path: Seq<char>,
    pub begin: usize,
}

/// The mathematical value of a [`CodeQualityReportEntry`].
#[verifier::ext_equal]
pub struct EntryModel {
    pub description: Seq<char>,
    pub check_name: Seq<char>,
    pub fingerprint: Seq<char>,
    pub severity: Severity,
    pub location: LocationModel,
}

impl DeepView for CodeQualityReportEntry {
    type V = EntryModel;

    open spec fn deep_view(&self) -> EntryModel {
        EntryModel {
            description: self.description@,
            check_name: self.check_name@,
            fingerprint: self.fingerprint@,
            severity: self.severity,
            location: LocationModel {
                path: self.location.path@,
                begin: self.location.lines.begin,
            },
        }
    }
}

/// The entry that a constructor call with these values yields: every field
/// as given, and the fingerprint computed from the path and description.
pub open spec fn entry_model(
    check_name: Seq<char>,
    severity: Severity,
    description: Seq<char>,
    path: Seq<char>,
    begin: usize,
) -> EntryModel {
    EntryModel {
        description,
        check_name,
        fingerprint: spec_fingerprint(path, description),
        severity,
        location: LocationModel { path, begin },
    }
}

impl CodeQualityReportEntry {
    /// Builds an entry, computing its fingerprint from the file path and
    /// the description. Total: every input yields an entry.
    pub fn new(
        check_name: String,
        severity: Severity,
        description: String,
        filename: String,
        line_number: usize,
    ) -> (r: Self)
        ensures
            r.deep_view() == entry_model(
                check_name@,
                severity,
                description@,
                filename@,
                line_number,
            ),
    {
        let fp: String = fingerprint(filename.as_str(), description.as_str());
        let r = CodeQualityReportEntry {
            description,
            check_name,
            fingerprint: fp,
            severity,
            location: Location { path: filename, lines: Lines { begin: line_number } },
        };
        proof {
            assert(r.deep_view() =~= entry_model(
                r.check_name@,
                severity,
                r.description@,
                r.location.path@,
                line_number,
            ));
        }
        r
    }
}

/// The severity mapping policy, exhaustive over the source levels: notes
/// and help are informational, warnings minor, errors major; levels that
/// signal tool failure rather than a finding, and levels this crate does
/// not recognise, map to nothing and yield no entry.
pub open spec fn severity_of_level(level: DiagnosticLevel) -> Option<Severity> {
    match level {
        DiagnosticLevel::Note => Some(Severity::Info),
        DiagnosticLevel::Help => Some(Severity::Info),
        DiagnosticLevel::Warning => Some(Severity::Minor),
        DiagnosticLevel::Error => Some(Severity::Major),
        DiagnosticLevel::Ice => None,
        DiagnosticLevel::FailureNote => None,
        DiagnosticLevel::Unrecognized => None,
    }
}

impl Severity {
    /// Maps a diagnostic level to the severity it reports as, or to
    /// nothing exactly when the level is not reported.
    pub fn try_from_level(level: DiagnosticLevel) -> (r: Option<Severity>)
        ensures
            r == severity_of_level(level),
    {
        match level {
            DiagnosticLevel::Note => Some(Severity::Info),
            DiagnosticLevel::Help => Some(Severity::Info),
            DiagnosticLevel::Warning => Some(Severity::Minor),
            DiagnosticLevel::Error => Some(Severity::Major),
            DiagnosticLevel::Ice => None,
            DiagnosticLevel::FailureNote => None,
            DiagnosticLevel::Unrecognized => None,
        }
    }
}

/// The span lines, each trimmed of leading and trailing whitespace, joined
/// with no separator.
pub open spec fn joined_trimmed(lines: Seq<Seq<char>>) -> Seq<char>
    decreases lines.len(),
{
    if lines.len() == 0 {
        Seq::empty()
    } else {
        joined_trimmed(lines.drop_last()) + trimmed(lines.last())
    }
}

/// The description of a diagnostic's entry: the message, a period and a
/// space, then the first span's trimmed source lines.
pub open spec fn diagnostic_description(d: DiagnosticModel) -> Seq<char>
    recommends
        d.spans.len() > 0,
{
    d.message + ". "@ + joined_trimmed(d.spans[0].text)
}

/// The check name of a diagnostic's entry: its code when it has one, and
/// the fixed name `unknown` otherwise.
pub open spec fn diagnostic_check_name(code: Option<Seq<char>>) -> Seq<char> {
    match code {
        Some(c) => c,
        None => "unknown"@,
    }
}

/// What the normalizer makes of one diagnostic: no entry when the level is
/// not reported or no span gives a location; otherwise one entry built
/// from the first span.
pub open spec fn diagnostic_entry(d: DiagnosticModel) -> Option<EntryModel> {
    match severity_of_level(d.level) {
        None => None,
        Some(sev) => if d.spans.len() == 0 {
            None
        } else {
            Some(entry_model(
                diagnostic_check_name(d.code),
                sev,
                diagnostic_description(d),
                d.spans[0].file_name,
                d.spans[0].line_start,
            ))
        },
    }
}

impl CodeQualityReportEntry {
    /// The diagnostic normalizer: maps one decoded diagnostic to its
    /// entry, and to nothing exactly when the diagnostic's level is
    /// suppressed or it carries no span.
    pub fn try_from_diagnostic(d: &Diagnostic) -> (r: Option<Self>)
        ensures
            r.deep_view() == diagnostic_entry(d.deep_view()),
    {
        let sev: Severity = match Severity::try_from_level(d.level) {
            Some(s) => s,
            None => {
                return None;
            },
        };
        if d.spans.len() == 0 {
            return None;
        }
        let span = &d.spans[0];
        let mut span_text: String = String::new();
        let mut k: usize = 0;
        while k < span.text.len()
            invariant
                k <= span.text.len(),
                span_text@ == joined_trimmed(span.text.deep_view().take(k as int)),
            decreases span.text.len() - k,
        {
            span_text.append(trim_str(span.text[k].as_str()));
            k = k + 1;
            proof {
                let tv = span.text.deep_view();
                assert(tv.take(k as int).drop_last() =~= tv.take(k - 1));
                assert(tv.take(k as int).last() == span.text@[k - 1]@);
            }
        }
        let mut description: String = d.message.clone();
        description.append(". ");
        description.append(span_text.as_str());
        let check_name: String = match &d.code {
            Some(c) => c.clone(),
            None => String::from_str("unknown"),
        };
        let e = CodeQualityReportEntry::new(
            check_name,
            sev,
            description,
            span.file_name.clone(),
            span.line_start,
        );
        proof {
            let dv = d.deep_view();
            assert(span.text.deep_view().take(span.text.len() as int) =~= span.text.deep_view());
            assert(dv.spans[0] == span.deep_view());
            assert(e.deep_view() =~= diagnostic_entry(dv)->0);
        }
        Some(e)
    }
}

/// What the lint path makes of one line of the message stream: an entry
/// only for a decoded diagnostic that the normalizer keeps.
pub open spec fn message_entry(m: MessageModel) -> Option<EntryModel> {
    match m {
        MessageModel::CompilerMessage(d) => diagnostic_entry(d),
        MessageModel::Other => None,
    }
}

/// A maybe-entry as a sequence of zero or one entries.
pub open spec fn opt_entry_seq(o: Option<EntryModel>) -> Seq<EntryModel> {
    match o {
        Some(e) => seq![e],
        None => Seq::empty(),
    }
}

/// The entries of a whole lint run, in input order: the kept diagnostics'
/// entries, with every other line contributing nothing.
pub open spec fn lint_entries(ms: Seq<MessageModel>) -> Seq<EntryModel>
    decreases ms.len(),
{
    if ms.len() == 0 {
        Seq::empty()
    } else {
        lint_entries(ms.drop_last()) + opt_entry_seq(message_entry(ms.last()))
    }
}

/// Maps a decoded lint message stream to its report entries, in input
/// order.
pub fn lints_report(msgs: &Vec<Message>) -> (r: Vec<CodeQualityReportEntry>)
    ensures
        r.deep_view() == lint_entries(msgs.deep_view()),
{
    let mut r: Vec<CodeQualityReportEntry> = Vec::new();
    let mut i: usize = 0;
    while i < msgs.len()
        invariant
            i <= msgs.len(),
            r.deep_view() == lint_entries(msgs.deep_view().take(i as int)),
        decreases msgs.len() - i,
    {
        let ghost prev = r.deep_view();
        match &msgs[i] {
            Message::CompilerMessage(d) => {
                if let Some(e) = CodeQualityReportEntry::try_from_diagnostic(d) {
                    r.push(e);
                }
            },
            Message::Other => {},
        }
        i = i + 1;
        proof {
            let ms = msgs.deep_view();
            assert(ms.take(i as int).drop_last() =~= ms.take(i - 1));
            assert(ms.take(i as int).last() == msgs@[i - 1].deep_view());
            assert(r.deep_view() =~= prev + opt_entry_seq(message_entry(msgs@[i - 1].deep_view())));
        }
    }
    proof {
        assert(msgs.deep_view().take(msgs.len() as int) =~= msgs.deep_view());
    }
    r
}

/// Entries come from each part of the stream independently and in order:
/// the entries of a concatenation are the concatenated entries.
pub proof fn lemma_lint_entries_concat(a: Seq<MessageModel>, b: Seq<MessageModel>)
    ensures
        lint_entries(a + b) == lint_entries(a) + lint_entries(b),
    decreases b.len(),
{
    if b.len() == 0 {
        assert(a + b =~= a);
        assert(lint_entries(a) + lint_entries(b) =~= lint_entries(a));
    } else {
        lemma_lint_entries_concat(a, b.drop_last());
        assert((a + b).drop_last() =~= a + b.drop_last());
        assert(lint_entries(a) + lint_entries(b) =~= lint_entries(a) + lint_entries(b.drop_last())
            + opt_entry_seq(message_entry(b.last())));
    }
}

/// A line that decodes to nothing, wherever it stands in the stream, does
/// not affect the entries produced from the lines around it.
#[verifier::rlimit(50)]
pub proof fn lemma_other_lines_isolated(a: Seq<MessageModel>, b: Seq<MessageModel>)
    ensures
        lint_entries(a + seq![MessageModel::Other] + b) == lint_entries(a + b),
{
    let o = seq![MessageModel::Other];
    let none: Seq<EntryModel> = Seq::empty();
    assert(o.drop_last() =~= Seq::<MessageModel>::empty());
    assert(lint_entries(Seq::<MessageModel>::empty()) == none);
    assert(o.last() == MessageModel::Other);
    assert(opt_entry_seq(message_entry(o.last())) == none);
    assert(lint_entries(o) == none + none);
    assert(none + none =~= none);
    lemma_lint_entries_concat(a, o);
    assert(lint_entries(a) + none =~= lint_entries(a));
    assert(lint_entries(a + o) == lint_entries(a));
    lemma_lint_entries_concat(a + o, b);
    assert(lint_entries(a + o + b) == lint_entries(a) + lint_entries(b));
    lemma_lint_entries_concat(a, b);
}

/// A diagnostic that carries a location maps by its level alone: a warning
/// is always a minor finding, an error major, a note or help note
/// informational; an internal compiler error, a failure note or an
/// unrecognized level never yields an entry.
pub proof fn lemma_severity_mapping(d: DiagnosticModel)
    requires
        d.spans.len() > 0,
    ensures
        d.level == DiagnosticLevel::Warning ==> diagnostic_entry(d) is Some && diagnostic_entry(
            d,
        )->0.severity == Severity::Minor,
        d.level == DiagnosticLevel::Error ==> diagnostic_entry(d) is Some && diagnostic_entry(
            d,
        )->0.severity == Severity::Major,
        d.level == DiagnosticLevel::Note || d.level == DiagnosticLevel::Help ==> diagnostic_entry(
            d,
        ) is Some && diagnostic_entry(d)->0.severity == Severity::Info,
        d.level == DiagnosticLevel::Ice || d.level == DiagnosticLevel::FailureNote || d.level
            == DiagnosticLevel::Unrecognized ==> diagnostic_entry(d) is None,
{
}

/// A diagnostic with no span never yields an entry, whatever its level: a
/// finding needs a location.
pub proof fn lemma_no_span_no_entry(d: DiagnosticModel)
    requires
        d.spans.len() == 0,
    ensures
        diagnostic_entry(d) is None,
{
}

/// Only the first span matters: two diagnostics that agree on message,
/// code, level and first span yield the same entry, however their
/// remaining spans differ.
pub proof fn lemma_extra_spans_ignored(d1: DiagnosticModel, d2: DiagnosticModel)
    requires
        d1.message == d2.message,
        d1.code == d2.code,
        d1.level == d2.level,
        d1.spans.len() > 0,
        d2.spans.len() > 0,
        d1.spans[0] == d2.spans[0],
    ensures
        diagnostic_entry(d1) == diagnostic_entry(d2),
{
}

/// The entry's location is the first span's: its path and starting line.
pub proof fn lemma_first_span_location(d: DiagnosticModel)
    requires
        diagnostic_entry(d) is Some,
    ensures
        d.spans.len() > 0,
        diagnostic_entry(d)->0.location.path == d.spans[0].file_name,
        diagnostic_entry(d)->0.location.begin == d.spans[0].line_start,
{
}

} // verus!
