use vstd::prelude::*;
use crate::base::{classify_base, class_of, BaseClass};

verus! {

/// Number of `G`/`C` symbols (either case) in `s`.
pub open spec fn gc_count(s: Seq<u8>) -> nat
    decreases s.len(),
{
    if s.len() == 0 {
        0
    } else {
        gc_count(s.drop_last()) + if class_of(s.last()) == BaseClass::Strong {
            1nat
        } else {
            0nat
        }
    }
}

/// Number of `A`/`C`/`G`/`T` symbols (either case) in `s`.
pub open spec fn valid_count(s: Seq<u8>) -> nat
    decreases s.len(),
{
    if s.len() == 0 {
        0
    } else {
        valid_count(s.drop_last()) + if class_of(s.last()) != BaseClass::Other {
            1nat
        } else {
            0nat
        }
    }
}

/// The pair of counters accumulated over a sequence: the `G`/`C` symbols and
/// all recognised nucleotide symbols.
#[derive(Clone, Copy, Debug, PartialEq, Eq, Structural)]
pub struct BaseCounts {
    pub gc: usize,
    pub valid: usize,
}

impl BaseCounts {
    /// Every `G`/`C` symbol is also a valid one.
    pub open spec fn wf(self) -> bool {
        self.gc <= self.valid
    }

    /// Adds the counters of two sequences, giving those of their concatenation.
    pub fn combine(self, other: BaseCounts) -> (r: BaseCounts)
        requires
            self.valid + other.valid <= usize::MAX,
            self.wf(),
            other.wf(),
        ensures
            r.gc == self.gc + other.gc,
            r.valid == self.valid + other.valid,
            r.wf(),
    {
        BaseCounts { gc: self.gc + other.gc, valid: self.valid + other.valid }
    }
}

/// Scans `sequence` once, in order, and counts its `G`/`C` symbols and its
/// recognised nucleotide symbols.
pub fn count_bases(sequence: &[u8]) -> (r: BaseCounts)
    ensures
        r.gc == gc_count(sequence@),
        r.valid == valid_count(sequence@),
        r.wf(),
{
    let mut gc: usize = 0;
    let mut valid: usize = 0;
    let mut i: usize = 0;
    while i < sequence.len()
        invariant
            i <= sequence@.len(),
            gc == gc_count(sequence@.subrange(0, i as int)),
            valid == valid_count(sequence@.subrange(0, i as int)),
            gc <= valid <= i,
        decreases sequence@.len() - i,
    {
        proof {
            let prefix = sequence@.subrange(0, i as int + 1);
            assert(prefix.drop_last() =~= sequence@.subrange(0, i as int));
            assert(prefix.last() == sequence@[i as int]);
        }
        match classify_base(sequence[i]) {
            BaseClass::Strong => {
                gc = gc + 1;
                valid = valid + 1;
            },
            BaseClass::Weak => {
                valid = valid + 1;
            },
            BaseClass::Other => {},
        }
        i = i + 1;
    }
    assert(sequence@.subrange(0, i as int) =~= sequence@);
    BaseCounts { gc, valid }
}

/// Every `G`/`C` symbol is a valid symbol, so a sequence never has more of the
/// first than of the second.
pub proof fn lemma_gc_within_valid(s: Seq<u8>)
    ensures
        gc_count(s) <= valid_count(s) <= s.len(),
    decreases s.len(),
{
    if s.len() > 0 {
        lemma_gc_within_valid(s.drop_last());
    }
}

/// The counters of a concatenation are the sums of the counters of its parts.
pub proof fn lemma_counts_concat(a: Seq<u8>, b: Seq<u8>)
    ensures
        gc_count(a + b) == gc_count(a) + gc_count(b),
        valid_count(a + b) == valid_count(a) + valid_count(b),
    decreases b.len(),
{
    if b.len() == 0 {
        assert(a + b =~= a);
    } else {
        lemma_counts_concat(a, b.drop_last());
        assert((a + b).drop_last() =~= a + b.drop_last());
        assert((a + b).last() == b.last());
    }
}

/// Splitting a sequence at any point into two contiguous parts and adding the
/// parts' counters gives the counters of the whole sequence.
pub proof fn lemma_counts_split(s: Seq<u8>, k: int)
    requires
        0 <= k <= s.len(),
    ensures
        gc_count(s) == gc_count(s.subrange(0, k)) + gc_count(s.subrange(k, s.len() as int)),
        valid_count(s) == valid_count(s.subrange(0, k)) + valid_count(
            s.subrange(k, s.len() as int),
        ),
{
    lemma_counts_concat(s.subrange(0, k), s.subrange(k, s.len() as int));
    assert(s.subrange(0, k) + s.subrange(k, s.len() as int) =~= s);
}

/// `b` with an ASCII letter switched to the other case; any other byte is kept.
pub open spec fn flip_case(b: u8) -> u8 {
    if 65 <= b <= 90 {
        (b + 32) as u8
    } else if 97 <= b <= 122 {
        (b - 32) as u8
    } else {
        b
    }
}

/// `s` with the case of every ASCII letter switched.
pub open spec fn flip_case_all(s: Seq<u8>) -> Seq<u8> {
    s.map_values(|b: u8| flip_case(b))
}

/// Switching the case of letters never moves a symbol to another class.
pub proof fn lemma_flip_case_class(b: u8)
    ensures
        class_of(flip_case(b)) == class_of(b),
{
}

/// Counting is case-insensitive: switching the case of every letter of a
/// sequence leaves both counters unchanged.
pub proof fn lemma_counts_case_invariant(s: Seq<u8>)
    ensures
        gc_count(flip_case_all(s)) == gc_count(s),
        valid_count(flip_case_all(s)) == valid_count(s),
    decreases s.len(),
{
    if s.len() > 0 {
        lemma_counts_case_invariant(s.drop_last());
        assert(flip_case_all(s).drop_last() =~= flip_case_all(s.drop_last()));
        lemma_flip_case_class(s.last());
    }
}

} // verus!
