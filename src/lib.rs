//! GC content of DNA sequences: classification of nucleotide symbols,
//! single-pass counting, and the GC ratio expressed as an exact fraction.

pub mod base;
pub mod counts;
pub mod fraction;

pub use base::{classify_base, BaseClass};
pub use counts::{count_bases, BaseCounts};
pub use fraction::{calculate_gc_content, GcFraction};
