use vstd::prelude::*;

verus! {

// ASCII codes of the recognised nucleotide letters.
pub const UPPER_A: u8 = 65;
pub const UPPER_C: u8 = 67;
pub const UPPER_G: u8 = 71;
pub const UPPER_T: u8 = 84;
pub const LOWER_A: u8 = 97;
pub const LOWER_C: u8 = 99;
pub const LOWER_G: u8 = 103;
pub const LOWER_T: u8 = 116;

/// The three disjoint classes a sequence symbol can fall into.
#[derive(Clone, Copy, Debug, PartialEq, Eq, Structural)]
pub enum BaseClass {
    /// `G` or `C`, in either case.
    Strong,
    /// `A` or `T`, in either case.
    Weak,
    /// Anything else: ambiguity codes, gaps, unknown bytes.
    Other,
}

/// `G` or `C`, upper or lower case.
pub open spec fn is_strong(b: u8) -> bool {
    b == UPPER_G || b == UPPER_C || b == LOWER_G || b == LOWER_C
}

/// `A` or `T`, upper or lower case.
pub open spec fn is_weak(b: u8) -> bool {
    b == UPPER_A || b == UPPER_T || b == LOWER_A || b == LOWER_T
}

/// The class of one symbol.
pub open spec fn class_of(b: u8) -> BaseClass {
    if is_strong(b) {
        BaseClass::Strong
    } else if is_weak(b) {
        BaseClass::Weak
    } else {
        BaseClass::Other
    }
}

/// Classifies one symbol by explicit comparison against the four recognised
/// letters in both cases; no case folding is involved.
pub fn classify_base(b: u8) -> (r: BaseClass)
    ensures
        r == class_of(b),
{
    match b {
        UPPER_G | UPPER_C | LOWER_G | LOWER_C => BaseClass::Strong,
        UPPER_A | UPPER_T | LOWER_A | LOWER_T => BaseClass::Weak,
        _ => BaseClass::Other,
    }
}

} // verus!
