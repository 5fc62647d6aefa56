//! The deterministic fingerprint of a report entry.
//!
//! The fingerprint identifies a finding for deduplication across runs, so it
//! must depend on nothing but the file path and the description. It is the
//! FNV-1a fold over the path's characters, a separator unit that no character
//! can equal, and the description's characters, rendered as lowercase
//! hexadecimal. It is a hash, not a perfect key: distinct inputs are expected
//! to collide only with negligible probability, but nothing rules a
//! collision out.

use vstd::prelude::*;

use crate::text::hex_digits;
use crate::text::u64_to_hex;

verus! {

/// One FNV-1a step: fold a single unit into the running hash, with the
/// multiplication taken modulo two to the sixty-fourth.
pub open spec fn fnv_step(h: u64, unit: u64) -> u64 {
    ((((h ^ unit) as nat) * 0x100000001b3) % 0x10000000000000000) as u64
}

/// The FNV-1a fold of a whole sequence of units, starting from `h`.
pub open spec fn fnv_fold(h: u64, units: Seq<u64>) -> u64
    decreases units.len(),
{
    if units.len() == 0 {
        h
    } else {
        fnv_step(fnv_fold(h, units.drop_last()), units.last())
    }
}

/// Each character as its code point. Code points stay below 0x110000, so
/// the separator unit 0xffffffff can never collide with one.
pub open spec fn char_units(s: Seq<char>) -> Seq<u64> {
    Seq::new(s.len(), |i: int| s[i] as u64)
}

/// The fingerprint hash of a path and a description: the fold over the
/// path, then the separator, then the description.
pub open spec fn fingerprint_hash(path: Seq<char>, desc: Seq<char>) -> u64 {
    fnv_fold(fnv_step(fnv_fold(0xcbf29ce484222325, char_units(path)), 0xffffffff), char_units(desc))
}

/// The rendered fingerprint: the hash in lowercase hexadecimal.
pub open spec fn spec_fingerprint(path: Seq<char>, desc: Seq<char>) -> Seq<char> {
    hex_digits(fingerprint_hash(path, desc) as nat)
}

fn fnv_mix(h: u64, unit: u64) -> (r: u64)
    ensures
        r == fnv_step(h, unit),
{
    let x: u128 = (h ^ unit) as u128;
    let m: u128 = x * 0x100000001b3;
    (m % 0x10000000000000000) as u64
}

fn fnv_fold_str(h0: u64, s: &str) -> (r: u64)
    ensures
        r == fnv_fold(h0, char_units(s@)),
{
    let n: usize = s.unicode_len();
    let mut h: u64 = h0;
    let mut i: usize = 0;
    while i < n
        invariant
            i <= n,
            n == s@.len(),
            h == fnv_fold(h0, char_units(s@).take(i as int)),
        decreases n - i,
    {
        let c: char = s.get_char(i);
        h = fnv_mix(h, c as u64);
        i = i + 1;
        proof {
            let units = char_units(s@);
            assert(units.take(i as int).drop_last() =~= units.take(i - 1));
            assert(units.take(i as int).last() == c as u64);
        }
    }
    proof {
        assert(char_units(s@).take(n as int) =~= char_units(s@));
    }
    h
}

/// Computes the fingerprint of a path and a description. Equal inputs give
/// equal fingerprints, in this run and in every other.
pub fn fingerprint(path: &str, desc: &str) -> (r: String)
    ensures
        r@ == spec_fingerprint(path@, desc@),
{
    let h_path: u64 = fnv_fold_str(0xcbf29ce484222325, path);
    let h_sep: u64 = fnv_mix(h_path, 0xffffffff);
    let h_all: u64 = fnv_fold_str(h_sep, desc);
    u64_to_hex(h_all)
}

/// The fingerprint is a function of the path and the description alone:
/// whenever two findings carry the same pair, they carry the same
/// fingerprint, across runs and machines.
pub proof fn lemma_fingerprint_deterministic(
    path1: Seq<char>,
    desc1: Seq<char>,
    path2: Seq<char>,
    desc2: Seq<char>,
)
    requires
        path1 == path2,
        desc1 == desc2,
    ensures
        spec_fingerprint(path1, desc1) == spec_fingerprint(path2, desc2),
{
}

} // verus!
