//! Conversion of compiler and formatter diagnostics into the code-quality
//! report format that CI dashboards consume.
//!
//! The crate is organised around one output record,
//! [`gitlab::CodeQualityReportEntry`], and two normalizers that produce it:
//! one for compiler diagnostics ([`gitlab`]) and one for formatter mismatch
//! batches ([`rustfmt`]). The collected entries are rendered as a JSON report
//! by [`render`]. All input records arrive already decoded into the plain
//! data types of [`diagnostic`] and [`rustfmt`]; reading, decoding and
//! writing streams is the caller's business.

pub mod diagnostic;
pub mod fingerprint;
pub mod gitlab;
pub mod render;
pub mod rustfmt;
pub mod text;

use vstd::prelude::*;

use crate::diagnostic::Message;
use crate::gitlab::lint_entries;
use crate::gitlab::lints_report;
use crate::render::render_report;
use crate::render::report_json;
use crate::rustfmt::fmt_entries;
use crate::rustfmt::rustfmt_report;
use crate::rustfmt::RustfmtJsonEntry;

verus! {

/// The whole lint conversion: the report document for a decoded compiler
/// message stream.
pub fn lints_report_json(msgs: &Vec<Message>) -> (r: String)
    ensures
        r@ == report_json(lint_entries(msgs.deep_view())),
{
    let entries = lints_report(msgs);
    render_report(&entries)
}

/// The whole formatter conversion: the report document for the decoded
/// batches of a formatter run.
pub fn rustfmt_report_json(batches: &Vec<RustfmtJsonEntry>) -> (r: String)
    ensures
        r@ == report_json(fmt_entries(batches.deep_view())),
{
    let entries = rustfmt_report(batches);
    render_report(&entries)
}

} // verus!
