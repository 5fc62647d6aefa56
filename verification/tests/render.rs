use lint_lab::diagnostic::Diagnostic;
use lint_lab::diagnostic::DiagnosticLevel;
use lint_lab::diagnostic::DiagnosticSpan;
use lint_lab::diagnostic::Message;
use lint_lab::gitlab::CodeQualityReportEntry;
use lint_lab::gitlab::Severity;
use lint_lab::lints_report_json;
use lint_lab::render::render_report;
use lint_lab::rustfmt_report_json;
use lint_lab::rustfmt::Mismatch;
use lint_lab::rustfmt::RustfmtJsonEntry;

#[test]
fn empty_run_renders_empty_array() {
    assert_eq!(render_report(&vec![]), "[]");
}

#[test]
fn empty_lint_stream_renders_empty_array() {
    assert_eq!(lints_report_json(&vec![]), "[]");
    assert_eq!(lints_report_json(&vec![Message::Other, Message::Other]), "[]");
}

#[test]
fn empty_formatter_stream_renders_empty_array() {
    assert_eq!(rustfmt_report_json(&vec![]), "[]");
}

#[test]
fn single_entry_renders_exact_document() {
    let e = CodeQualityReportEntry::new(
        "c".to_string(),
        Severity::Minor,
        "d".to_string(),
        "p".to_string(),
        3,
    );
    let fp = e.fingerprint.clone();
    let rendered = render_report(&vec![e]);
    let expected = format!(
        "[\n  {{\n    \"description\": \"d\",\n    \"check_name\": \"c\",\n    \"fingerprint\": \"{fp}\",\n    \"severity\": \"minor\",\n    \"location\": {{\n      \"path\": \"p\",\n      \"lines\": {{\n        \"begin\": 3\n      }}\n    }}\n  }}\n]"
    );
    assert_eq!(rendered, expected);
}

#[test]
fn rendered_document_is_valid_json_with_the_entry_fields() {
    let d = Diagnostic {
        message: "odd \"quotes\" and\nnewlines\tplus \\slashes".to_string(),
        code: Some("clippy::style".to_string()),
        level: DiagnosticLevel::Error,
        spans: vec![DiagnosticSpan {
            file_name: "src/a.rs".to_string(),
            line_start: 17,
            text: vec!["  let z = 3;  ".to_string()],
        }],
    };
    let rendered = lints_report_json(&vec![Message::CompilerMessage(d)]);
    let value: serde_json::Value = serde_json::from_str(&rendered).unwrap();
    let arr = value.as_array().unwrap();
    assert_eq!(arr.len(), 1);
    let obj = &arr[0];
    assert_eq!(
        obj["description"].as_str().unwrap(),
        "odd \"quotes\" and\nnewlines\tplus \\slashes. let z = 3;"
    );
    assert_eq!(obj["check_name"].as_str().unwrap(), "clippy::style");
    assert_eq!(obj["severity"].as_str().unwrap(), "major");
    assert_eq!(obj["location"]["path"].as_str().unwrap(), "src/a.rs");
    assert_eq!(obj["location"]["lines"]["begin"].as_u64().unwrap(), 17);
    let fp = obj["fingerprint"].as_str().unwrap();
    assert!(!fp.is_empty());
    assert!(fp.chars().all(|c| c.is_ascii_hexdigit() && !c.is_ascii_uppercase()));
}

#[test]
fn control_characters_escape_as_unicode() {
    let e = CodeQualityReportEntry::new(
        "c".to_string(),
        Severity::Info,
        "a\u{1}b".to_string(),
        "p".to_string(),
        1,
    );
    let rendered = render_report(&vec![e]);
    assert!(rendered.contains("a\\u0001b"));
    let value: serde_json::Value = serde_json::from_str(&rendered).unwrap();
    assert_eq!(value[0]["description"].as_str().unwrap(), "a\u{1}b");
}

#[test]
fn largest_line_number_renders_in_full() {
    let e = CodeQualityReportEntry::new(
        "c".to_string(),
        Severity::Minor,
        "d".to_string(),
        "p".to_string(),
        usize::MAX,
    );
    let rendered = render_report(&vec![e]);
    assert!(rendered.contains("\"begin\": 18446744073709551615\n"));
}

#[test]
fn empty_path_and_description_fingerprint() {
    let e = CodeQualityReportEntry::new(
        String::new(),
        Severity::Info,
        String::new(),
        String::new(),
        1,
    );
    assert_eq!(e.fingerprint, "6b1d723e79fe466e");
    assert_eq!(e.description, "");
}

#[test]
fn two_entries_render_as_two_element_array() {
    let batches = vec![RustfmtJsonEntry {
        name: "f.rs".to_string(),
        mismatches: vec![
            Mismatch {
                original_begin_line: 1,
                original: Some("a".to_string()),
                expected: Some("b".to_string()),
            },
            Mismatch {
                original_begin_line: 2,
                original: Some("c".to_string()),
                expected: Some("d".to_string()),
            },
        ],
    }];
    let rendered = rustfmt_report_json(&batches);
    let value: serde_json::Value = serde_json::from_str(&rendered).unwrap();
    let arr = value.as_array().unwrap();
    assert_eq!(arr.len(), 2);
    assert_eq!(arr[0]["location"]["lines"]["begin"].as_u64().unwrap(), 1);
    assert_eq!(arr[1]["location"]["lines"]["begin"].as_u64().unwrap(), 2);
}
