//! The formatter-mismatch normalizer.
//!
//! A formatter batch names one file and lists the line-level mismatches the
//! formatter found in it. A rich mismatch also carries the literal original
//! and expected text, and maps to one entry describing the first position
//! where the two differ; a mismatch whose texts never differ within their
//! common length would make that description a fabrication, so it is
//! skipped rather than reported. A batch in which some mismatch carries no
//! text falls back to a single entry per batch, located at the first
//! mismatch's line.

use vstd::prelude::*;

use crate::gitlab::entry_model;
use crate::gitlab::opt_entry_seq;
use crate::gitlab::CodeQualityReportEntry;
use crate::gitlab::EntryModel;
use crate::gitlab::Severity;
use crate::text::dec_digits;
use crate::text::usize_to_dec;

verus! {

/// One formatting discrepancy: the 1-based line it starts on in the
/// original source, and, when available, the literal original and expected
/// text.
#[derive(Clone, Debug)]
pub struct Mismatch {
    pub original_begin_line: usize,
    pub original: Option<String>,
    pub expected: Option<String>,
}

/// One formatter batch: all mismatches found in a single file.
#[derive(Clone, Debug)]
pub struct RustfmtJsonEntry {
    pub name: String,
    pub mismatches: Vec<Mismatch>,
}

/// The mathematical value of a [`Mismatch`].
#[verifier::ext_equal]
pub struct MismatchModel {
    pub original_begin_line: usize,
    pub original: Option<Seq<char>>,
    pub expected: Option<Seq<char>>,
}

/// The mathematical value of a [`RustfmtJsonEntry`].
#[verifier::ext_equal]
pub struct BatchModel {
    pub name: Seq<char>,
    pub mismatches: Seq<MismatchModel>,
}

impl DeepView for Mismatch {
    type V = MismatchModel;

    open spec fn deep_view(&self) -> MismatchModel {
        MismatchModel {
            original_begin_line: self.original_begin_line,
            original: self.original.deep_view(),
            expected: self.expected.deep_view(),
        }
    }
}

impl DeepView for RustfmtJsonEntry {
    type V = BatchModel;

    open spec fn deep_view(&self) -> BatchModel {
        BatchModel { name: self.name@, mismatches: self.mismatches.deep_view() }
    }
}

/// The first position at or after `i` where the two texts differ, or
/// nothing when they agree on their whole common length.
pub open spec fn first_diff_from(a: Seq<char>, b: Seq<char>, i: int) -> Option<int>
    decreases a.len() - i,
{
    if i < 0 || i >= a.len() || i >= b.len() {
        None
    } else if a[i] != b[i] {
        Some(i)
    } else {
        first_diff_from(a, b, i + 1)
    }
}

/// The first position where the two texts differ.
pub open spec fn first_diff_idx(a: Seq<char>, b: Seq<char>) -> Option<int> {
    first_diff_from(a, b, 0)
}

/// Finds the first differing character position of two texts, or nothing
/// when neither text differs from the other within their common length.
pub fn first_diff(a: &str, b: &str) -> (r: Option<usize>)
    ensures
        match r {
            Some(i) => first_diff_idx(a@, b@) == Some(i as int),
            None => first_diff_idx(a@, b@) is None,
        },
{
    let na: usize = a.unicode_len();
    let nb: usize = b.unicode_len();
    let n: usize = if na < nb {
        na
    } else {
        nb
    };
    let mut i: usize = 0;
    while i < n
        invariant
            i <= n,
            na == a@.len(),
            nb == b@.len(),
            n <= na,
            n <= nb,
            na <= n || nb <= n,
            first_diff_from(a@, b@, 0) == first_diff_from(a@, b@, i as int),
        decreases n - i,
    {
        let ca: char = a.get_char(i);
        let cb: char = b.get_char(i);
        if ca != cb {
            return Some(i);
        }
        i = i + 1;
    }
    None
}

/// The description of a rich mismatch's entry: the first differing
/// position, then the original and the expected text.
pub open spec fn diff_description(idx: int, orig: Seq<char>, exp: Seq<char>) -> Seq<char> {
    "Difference at byte: "@ + dec_digits(idx as nat) + ".\noriginal: "@ + orig + ". expected: "@
        + exp
}

/// Whether a mismatch carries both its original and its expected text.
pub open spec fn mismatch_is_rich(m: MismatchModel) -> bool {
    m.original is Some && m.expected is Some
}

/// Whether every mismatch of a batch carries its texts.
pub open spec fn batch_is_rich(ms: Seq<MismatchModel>) -> bool {
    forall|i: int| 0 <= i < ms.len() ==> mismatch_is_rich(#[trigger] ms[i])
}

/// What one rich mismatch maps to: an entry describing the first differing
/// position, or nothing when no position differs.
pub open spec fn rich_mismatch_entry(name: Seq<char>, m: MismatchModel) -> Option<EntryModel>
    recommends
        mismatch_is_rich(m),
{
    match first_diff_idx(m.original->0, m.expected->0) {
        None => None,
        Some(idx) => Some(
            entry_model(
                "rustfmt"@,
                Severity::Minor,
                diff_description(idx, m.original->0, m.expected->0),
                name,
                m.original_begin_line,
            ),
        ),
    }
}

/// The entries of a rich batch, one per mismatch with a differing
/// position, in input order.
pub open spec fn rich_entries(name: Seq<char>, ms: Seq<MismatchModel>) -> Seq<EntryModel>
    decreases ms.len(),
{
    if ms.len() == 0 {
        Seq::empty()
    } else {
        rich_entries(name, ms.drop_last()) + opt_entry_seq(rich_mismatch_entry(name, ms.last()))
    }
}

/// What the normalizer makes of one batch: nothing for an empty mismatch
/// list; one entry per differing rich mismatch when every mismatch carries
/// its texts; otherwise the single fallback entry at the first mismatch's
/// line, with an empty description.
pub open spec fn batch_entries(b: BatchModel) -> Seq<EntryModel> {
    if b.mismatches.len() == 0 {
        Seq::empty()
    } else if batch_is_rich(b.mismatches) {
        rich_entries(b.name, b.mismatches)
    } else {
        seq![
            entry_model(
                "rustfmt"@,
                Severity::Minor,
                Seq::empty(),
                b.name,
                b.mismatches[0].original_begin_line,
            ),
        ]
    }
}

impl RustfmtJsonEntry {
    /// The formatter-mismatch normalizer: maps this batch to its report
    /// entries.
    pub fn to_entries(&self) -> (r: Vec<CodeQualityReportEntry>)
        ensures
            r.deep_view() == batch_entries(self.deep_view()),
    {
        let ghost dv = self.mismatches.deep_view();
        let mut r: Vec<CodeQualityReportEntry> = Vec::new();
        if self.mismatches.len() == 0 {
            proof {
                assert(r.deep_view() =~= batch_entries(self.deep_view()));
            }
            return r;
        }
        let mut all_rich: bool = true;
        let mut i: usize = 0;
        while i < self.mismatches.len()
            invariant
                i <= self.mismatches.len(),
                dv == self.mismatches.deep_view(),
                all_rich <==> (forall|k: int|
                    0 <= k < i ==> mismatch_is_rich(#[trigger] dv[k])),
            decreases self.mismatches.len() - i,
        {
            let rich: bool = match (&self.mismatches[i].original, &self.mismatches[i].expected) {
                (Some(_), Some(_)) => true,
                _ => false,
            };
            proof {
                assert(dv[i as int] == self.mismatches@[i as int].deep_view());
                assert(rich == mismatch_is_rich(dv[i as int]));
            }
            if !rich {
                all_rich = false;
            }
            i = i + 1;
        }
        if all_rich {
            let mut k: usize = 0;
            while k < self.mismatches.len()
                invariant
                    k <= self.mismatches.len(),
                    dv == self.mismatches.deep_view(),
                    batch_is_rich(dv),
                    r.deep_view() == rich_entries(self.name@, dv.take(k as int)),
                decreases self.mismatches.len() - k,
            {
                let ghost prev = r.deep_view();
                let m = &self.mismatches[k];
                match (&m.original, &m.expected) {
                    (Some(orig), Some(exp)) => {
                        if let Some(idx) = first_diff(orig.as_str(), exp.as_str()) {
                            let mut desc: String = String::from_str("Difference at byte: ");
                            let num: String = usize_to_dec(idx);
                            desc.append(num.as_str());
                            desc.append(".\noriginal: ");
                            desc.append(orig.as_str());
                            desc.append(". expected: ");
                            desc.append(exp.as_str());
                            let e = CodeQualityReportEntry::new(
                                String::from_str("rustfmt"),
                                Severity::Minor,
                                desc,
                                self.name.clone(),
                                m.original_begin_line,
                            );
                            r.push(e);
                        }
                    },
                    _ => {
                        proof {
                            assert(mismatch_is_rich(dv[k as int]));
                            assert(false);
                        }
                    },
                }
                k = k + 1;
                proof {
                    assert(dv.take(k as int).drop_last() =~= dv.take(k - 1));
                    assert(dv.take(k as int).last() == dv[k - 1]);
                    assert(r.deep_view() =~= prev + opt_entry_seq(
                        rich_mismatch_entry(self.name@, dv[k - 1]),
                    ));
                }
            }
            proof {
                assert(dv.take(self.mismatches@.len() as int) =~= dv);
            }
        } else {
            let m = &self.mismatches[0];
            let e = CodeQualityReportEntry::new(
                String::from_str("rustfmt"),
                Severity::Minor,
                String::new(),
                self.name.clone(),
                m.original_begin_line,
            );
            r.push(e);
            proof {
                assert(!batch_is_rich(dv));
                assert(r.deep_view() =~= batch_entries(self.deep_view()));
            }
        }
        r
    }
}

/// The entries of a whole formatter run, batch by batch, in input order.
pub open spec fn fmt_entries(bs: Seq<BatchModel>) -> Seq<EntryModel>
    decreases bs.len(),
{
    if bs.len() == 0 {
        Seq::empty()
    } else {
        fmt_entries(bs.drop_last()) + batch_entries(bs.last())
    }
}

/// Maps the decoded batches of a formatter run to its report entries, in
/// input order.
pub fn rustfmt_report(batches: &Vec<RustfmtJsonEntry>) -> (r: Vec<CodeQualityReportEntry>)
    ensures
        r.deep_view() == fmt_entries(batches.deep_view()),
{
    let mut r: Vec<CodeQualityReportEntry> = Vec::new();
    let mut i: usize = 0;
    while i < batches.len()
        invariant
            i <= batches.len(),
            r.deep_view() == fmt_entries(batches.deep_view().take(i as int)),
        decreases batches.len() - i,
    {
        let ghost prev = r.deep_view();
        let mut es: Vec<CodeQualityReportEntry> = batches[i].to_entries();
        let ghost esdv = es.deep_view();
        r.append(&mut es);
        i = i + 1;
        proof {
            let bs = batches.deep_view();
            assert(bs.take(i as int).drop_last() =~= bs.take(i - 1));
            assert(bs.take(i as int).last() == batches@[i - 1].deep_view());
            assert(r.deep_view() =~= prev + esdv);
        }
    }
    proof {
        assert(batches.deep_view().take(batches.len() as int) =~= batches.deep_view());
    }
    r
}

/// An empty batch yields no entries.
pub proof fn lemma_empty_batch_no_entries(b: BatchModel)
    requires
        b.mismatches.len() == 0,
    ensures
        batch_entries(b) == Seq::<EntryModel>::empty(),
{
}

/// Batches contribute their entries independently and in order: the
/// entries of a concatenation are the concatenated entries. A stream line
/// that decodes to no batches therefore leaves the other lines' entries
/// untouched.
pub proof fn lemma_fmt_entries_concat(a: Seq<BatchModel>, b: Seq<BatchModel>)
    ensures
        fmt_entries(a + b) == fmt_entries(a) + fmt_entries(b),
    decreases b.len(),
{
    if b.len() == 0 {
        assert(a + b =~= a);
        assert(fmt_entries(a) + fmt_entries(b) =~= fmt_entries(a));
    } else {
        lemma_fmt_entries_concat(a, b.drop_last());
        assert((a + b).drop_last() =~= a + b.drop_last());
        assert(fmt_entries(a) + fmt_entries(b) =~= fmt_entries(a) + fmt_entries(b.drop_last())
            + batch_entries(b.last()));
    }
}

/// A rich batch with a differing position in every mismatch yields exactly
/// one entry per mismatch, in input order.
pub proof fn lemma_rich_batch_entry_per_mismatch(name: Seq<char>, ms: Seq<MismatchModel>)
    requires
        batch_is_rich(ms),
        forall|i: int|
            0 <= i < ms.len() ==> first_diff_idx(
                #[trigger] ms[i].original->0,
                ms[i].expected->0,
            ) is Some,
    ensures
        rich_entries(name, ms).len() == ms.len(),
        forall|i: int|
            0 <= i < ms.len() ==> rich_entries(name, ms)[i] == rich_mismatch_entry(
                name,
                #[trigger] ms[i],
            )->0,
    decreases ms.len(),
{
    if ms.len() > 0 {
        let head = ms.drop_last();
        assert(forall|i: int| 0 <= i < head.len() ==> head[i] == #[trigger] ms[i]);
        lemma_rich_batch_entry_per_mismatch(name, head);
    }
}

} // verus!
