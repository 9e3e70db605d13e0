use vstd::prelude::*;
use crate::counts::{
    count_bases, flip_case_all, gc_count, lemma_counts_case_invariant, lemma_counts_split,
    lemma_gc_within_valid, valid_count, BaseCounts,
};

verus! {

/// The GC content of a sequence as an exact fraction. The denominator is
/// never zero, so dividing the two in floating point gives the ratio; a
/// sequence without recognised nucleotides gives `0 / 1`.
#[derive(Clone, Copy, Debug, PartialEq, Eq, Structural)]
pub struct GcFraction {
    pub numerator: usize,
    pub denominator: usize,
}

impl GcFraction {
    /// A ratio in `[0, 1]` with a non-zero denominator.
    pub open spec fn wf(self) -> bool {
        self.numerator <= self.denominator && self.denominator > 0
    }
}

/// The fraction that stands for the counters `(gc, valid)`: `gc / valid`, or
/// the zero sentinel `0 / 1` when no valid symbol was seen.
pub open spec fn fraction_of(gc: nat, valid: nat) -> (nat, nat) {
    if valid == 0 {
        (0, 1)
    } else {
        (gc, valid)
    }
}

/// The GC fraction of a whole sequence.
pub open spec fn gc_fraction(s: Seq<u8>) -> (nat, nat) {
    fraction_of(gc_count(s), valid_count(s))
}

impl BaseCounts {
    /// The fraction these counters stand for.
    pub fn fraction(self) -> (r: GcFraction)
        requires
            self.wf(),
        ensures
            (r.numerator as nat, r.denominator as nat) == fraction_of(
                self.gc as nat,
                self.valid as nat,
            ),
            r.wf(),
    {
        if self.valid == 0 {
            GcFraction { numerator: 0, denominator: 1 }
        } else {
            GcFraction { numerator: self.gc, denominator: self.valid }
        }
    }
}

/// GC content of `sequence`: the `G`/`C` symbols over the `A`/`C`/`G`/`T`
/// symbols, case-insensitively, with every other symbol left out of both.
/// An empty sequence, or one with no recognised symbol, gives `0 / 1`.
pub fn calculate_gc_content(sequence: &[u8]) -> (r: GcFraction)
    ensures
        (r.numerator as nat, r.denominator as nat) == gc_fraction(sequence@),
        r.wf(),
{
    if sequence.len() == 0 {
        return GcFraction { numerator: 0, denominator: 1 };
    }
    count_bases(sequence).fraction()
}

/// The GC content of every sequence lies in `[0, 1]`: the fraction's
/// numerator never exceeds its denominator, which is never zero.
pub proof fn lemma_gc_fraction_in_unit_interval(s: Seq<u8>)
    ensures
        gc_fraction(s).0 <= gc_fraction(s).1,
        gc_fraction(s).1 > 0,
{
    lemma_gc_within_valid(s);
}

/// The GC content does not change when the case of every letter is switched.
pub proof fn lemma_gc_fraction_case_invariant(s: Seq<u8>)
    ensures
        gc_fraction(flip_case_all(s)) == gc_fraction(s),
{
    lemma_counts_case_invariant(s);
}

/// Splitting a sequence into two contiguous parts, adding their counters and
/// only then dividing gives the GC content of the whole sequence.
pub proof fn lemma_gc_fraction_split(s: Seq<u8>, k: int)
    requires
        0 <= k <= s.len(),
    ensures
        gc_fraction(s) == fraction_of(
            gc_count(s.subrange(0, k)) + gc_count(s.subrange(k, s.len() as int)),
            valid_count(s.subrange(0, k)) + valid_count(s.subrange(k, s.len() as int)),
        ),
{
    lemma_counts_split(s, k);
}

} // verus!
