//! The plain data model of a compiler diagnostic.
//!
//! One diagnostic carries a severity level, a message, an optional
//! diagnostic code and zero or more source spans. Values of these types
//! arrive already decoded from the compiler's line-oriented message stream;
//! the normalizer in [`crate::gitlab`] maps them to report entries.

use vstd::prelude::*;

verus! {

/// The level a compiler or lint tool gave its diagnostic. Levels this crate
/// does not recognise arrive as [`DiagnosticLevel::Unrecognized`].
#[derive(Clone, Copy, Debug, PartialEq, Eq, Structural)]
pub enum DiagnosticLevel {
    Ice,
    Error,
    Warning,
    FailureNote,
    Note,
    Help,
    Unrecognized,
}

/// A source location attached to a diagnostic: a file, the 1-based line the
/// diagnostic starts on, and the literal text of the affected lines.
#[derive(Clone, Debug)]
pub struct DiagnosticSpan {
    pub file_name: String,
    pub line_start: usize,
    pub text: Vec<String>,
}

/// One decoded compiler diagnostic.
#[derive(Clone, Debug)]
pub struct Diagnostic {
    pub message: String,
    pub code: Option<String>,
    pub level: DiagnosticLevel,
    pub spans: Vec<DiagnosticSpan>,
}

/// One line of the compiler's message stream, as far as the lint path
/// cares: either a decoded diagnostic, or anything else. Lines that fail to
/// decode and lines carrying other kinds of message both arrive as
/// [`Message::Other`].
#[derive(Clone, Debug)]
pub enum Message {
    CompilerMessage(Diagnostic),
    Other,
}

/// The mathematical value of a [`DiagnosticSpan`].
#[verifier::ext_equal]
pub struct SpanModel {
    pub file_name: Seq<char>,
    pub line_start: usize,
    pub text: Seq<Seq<char>>,
}

/// The mathematical value of a [`Diagnostic`].
#[verifier::ext_equal]
pub struct DiagnosticModel {
    pub message: Seq<char>,
    pub code: Option<Seq<char>>,
    pub level: DiagnosticLevel,
    pub spans: Seq<SpanModel>,
}

/// The mathematical value of a [`Message`].
pub enum MessageModel {
    CompilerMessage(DiagnosticModel),
    Other,
}

impl DeepView for DiagnosticSpan {
    type V = SpanModel;

    open spec fn deep_view(&self) -> SpanModel {
        SpanModel {
            file_name: self.file_name@,
            line_start: self.line_start,
            text: self.text.deep_view(),
        }
    }
}

impl DeepView for Diagnostic {
    type V = DiagnosticModel;

    open spec fn deep_view(&self) -> DiagnosticModel {
        DiagnosticModel {
            message: self.message@,
            code: self.code.deep_view(),
            level: self.level,
            spans: self.spans.deep_view(),
        }
    }
}

impl DeepView for Message {
    type V = MessageModel;

    open spec fn deep_view(&self) -> MessageModel {
        match self {
            Message::CompilerMessage(d) => MessageModel::CompilerMessage(d.deep_view()),
            Message::Other => MessageModel::Other,
        }
    }
}

} // verus!
