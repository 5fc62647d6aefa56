use lint_lab::diagnostic::Diagnostic;
use lint_lab::diagnostic::DiagnosticLevel;
use lint_lab::diagnostic::DiagnosticSpan;
use lint_lab::diagnostic::Message;
use lint_lab::gitlab::lints_report;
use lint_lab::gitlab::CodeQualityReportEntry;
use lint_lab::gitlab::Severity;

fn span(file: &str, line: usize, text: &[&str]) -> DiagnosticSpan {
    DiagnosticSpan {
        file_name: file.to_string(),
        line_start: line,
        text: text.iter().map(|t| t.to_string()).collect(),
    }
}

fn diag(
    level: DiagnosticLevel,
    message: &str,
    code: Option<&str>,
    spans: Vec<DiagnosticSpan>,
) -> Diagnostic {
    Diagnostic {
        message: message.to_string(),
        code: code.map(|c| c.to_string()),
        level,
        spans,
    }
}

#[test]
fn fingerprint_deterministic() {
    let a = CodeQualityReportEntry::new(
        "check".to_string(),
        Severity::Minor,
        "desc".to_string(),
        "path.rs".to_string(),
        1,
    );
    let b = CodeQualityReportEntry::new(
        "other-check".to_string(),
        Severity::Major,
        "desc".to_string(),
        "path.rs".to_string(),
        99,
    );
    assert_eq!(a.fingerprint, b.fingerprint);
}

#[test]
fn fingerprint_differs_for_distinct_inputs() {
    let a = CodeQualityReportEntry::new(
        "c".to_string(),
        Severity::Minor,
        "d".to_string(),
        "p".to_string(),
        1,
    );
    let b = CodeQualityReportEntry::new(
        "c".to_string(),
        Severity::Minor,
        "d2".to_string(),
        "p".to_string(),
        1,
    );
    assert_ne!(a.fingerprint, b.fingerprint);
}

#[test]
fn fingerprint_exact_value() {
    let e = CodeQualityReportEntry::new(
        "c".to_string(),
        Severity::Minor,
        "d".to_string(),
        "p".to_string(),
        1,
    );
    assert_eq!(e.fingerprint, "a0f24967a86e6a3c");
}

#[test]
fn severity_mapping_by_level() {
    assert_eq!(Severity::try_from_level(DiagnosticLevel::Note), Some(Severity::Info));
    assert_eq!(Severity::try_from_level(DiagnosticLevel::Help), Some(Severity::Info));
    assert_eq!(Severity::try_from_level(DiagnosticLevel::Warning), Some(Severity::Minor));
    assert_eq!(Severity::try_from_level(DiagnosticLevel::Error), Some(Severity::Major));
    assert_eq!(Severity::try_from_level(DiagnosticLevel::Ice), None);
    assert_eq!(Severity::try_from_level(DiagnosticLevel::FailureNote), None);
    assert_eq!(Severity::try_from_level(DiagnosticLevel::Unrecognized), None);
}

#[test]
fn warning_with_one_span_is_minor() {
    let d = diag(DiagnosticLevel::Warning, "m", None, vec![span("f.rs", 2, &["x"])]);
    let e = CodeQualityReportEntry::try_from_diagnostic(&d).unwrap();
    assert_eq!(e.severity, Severity::Minor);
}

#[test]
fn error_with_one_span_is_major() {
    let d = diag(DiagnosticLevel::Error, "m", None, vec![span("f.rs", 2, &["x"])]);
    let e = CodeQualityReportEntry::try_from_diagnostic(&d).unwrap();
    assert_eq!(e.severity, Severity::Major);
}

#[test]
fn note_and_help_are_info() {
    let n = diag(DiagnosticLevel::Note, "m", None, vec![span("f.rs", 2, &["x"])]);
    let h = diag(DiagnosticLevel::Help, "m", None, vec![span("f.rs", 2, &["x"])]);
    assert_eq!(CodeQualityReportEntry::try_from_diagnostic(&n).unwrap().severity, Severity::Info);
    assert_eq!(CodeQualityReportEntry::try_from_diagnostic(&h).unwrap().severity, Severity::Info);
}

#[test]
fn suppressed_levels_emit_nothing() {
    for level in [
        DiagnosticLevel::Ice,
        DiagnosticLevel::FailureNote,
        DiagnosticLevel::Unrecognized,
    ] {
        let d = diag(level, "m", None, vec![span("f.rs", 2, &["x"])]);
        assert!(CodeQualityReportEntry::try_from_diagnostic(&d).is_none());
    }
}

#[test]
fn zero_spans_emit_nothing_regardless_of_level() {
    for level in [
        DiagnosticLevel::Note,
        DiagnosticLevel::Help,
        DiagnosticLevel::Warning,
        DiagnosticLevel::Error,
        DiagnosticLevel::Ice,
    ] {
        let d = diag(level, "m", None, vec![]);
        assert!(CodeQualityReportEntry::try_from_diagnostic(&d).is_none());
    }
}

#[test]
fn second_span_is_ignored() {
    let d = diag(
        DiagnosticLevel::Warning,
        "m",
        None,
        vec![span("first.rs", 3, &["a"]), span("second.rs", 44, &["b"])],
    );
    let e = CodeQualityReportEntry::try_from_diagnostic(&d).unwrap();
    assert_eq!(e.location.path, "first.rs");
    assert_eq!(e.location.lines.begin, 3);
    assert_eq!(e.description, "m. a");
}

#[test]
fn description_joins_trimmed_span_lines() {
    let d = diag(
        DiagnosticLevel::Warning,
        "unused variable: `x`",
        None,
        vec![span("src/main.rs", 7, &["    let x = 1;  ", "\tlet y = 2;\n"])],
    );
    let e = CodeQualityReportEntry::try_from_diagnostic(&d).unwrap();
    assert_eq!(e.description, "unused variable: `x`. let x = 1;let y = 2;");
}

#[test]
fn check_name_uses_code_when_present() {
    let d = diag(
        DiagnosticLevel::Warning,
        "m",
        Some("clippy::needless_return"),
        vec![span("f.rs", 1, &["x"])],
    );
    let e = CodeQualityReportEntry::try_from_diagnostic(&d).unwrap();
    assert_eq!(e.check_name, "clippy::needless_return");
}

#[test]
fn check_name_defaults_to_unknown() {
    let d = diag(DiagnosticLevel::Warning, "m", None, vec![span("f.rs", 1, &["x"])]);
    let e = CodeQualityReportEntry::try_from_diagnostic(&d).unwrap();
    assert_eq!(e.check_name, "unknown");
}

#[test]
fn other_lines_do_not_affect_diagnostic_entries() {
    let d1 = diag(DiagnosticLevel::Warning, "one", None, vec![span("a.rs", 1, &["x"])]);
    let d2 = diag(DiagnosticLevel::Error, "two", None, vec![span("b.rs", 2, &["y"])]);
    let with_noise = vec![
        Message::Other,
        Message::CompilerMessage(d1.clone()),
        Message::Other,
        Message::Other,
        Message::CompilerMessage(d2.clone()),
        Message::Other,
    ];
    let clean = vec![Message::CompilerMessage(d1), Message::CompilerMessage(d2)];
    let a = lints_report(&with_noise);
    let b = lints_report(&clean);
    assert_eq!(a.len(), 2);
    assert_eq!(a.len(), b.len());
    for (x, y) in a.iter().zip(b.iter()) {
        assert_eq!(x.description, y.description);
        assert_eq!(x.check_name, y.check_name);
        assert_eq!(x.fingerprint, y.fingerprint);
        assert_eq!(x.severity, y.severity);
        assert_eq!(x.location.path, y.location.path);
        assert_eq!(x.location.lines.begin, y.location.lines.begin);
    }
    assert_eq!(a[0].description, "one. x");
    assert_eq!(a[1].description, "two. y");
}

#[test]
fn lints_report_keeps_input_order_and_filters() {
    let msgs = vec![
        Message::CompilerMessage(diag(
            DiagnosticLevel::Ice,
            "broken",
            None,
            vec![span("a.rs", 1, &["x"])],
        )),
        Message::CompilerMessage(diag(
            DiagnosticLevel::Warning,
            "w",
            None,
            vec![span("w.rs", 5, &["x"])],
        )),
        Message::CompilerMessage(diag(DiagnosticLevel::Error, "no-span", None, vec![])),
        Message::CompilerMessage(diag(
            DiagnosticLevel::Error,
            "e",
            None,
            vec![span("e.rs", 9, &["y"])],
        )),
    ];
    let entries = lints_report(&msgs);
    assert_eq!(entries.len(), 2);
    assert_eq!(entries[0].location.path, "w.rs");
    assert_eq!(entries[1].location.path, "e.rs");
}
