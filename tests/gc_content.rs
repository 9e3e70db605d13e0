use gc_content::{calculate_gc_content, classify_base, count_bases, BaseClass, BaseCounts, GcFraction};

fn ratio(sequence: &[u8]) -> f64 {
    let f = calculate_gc_content(sequence);
    f.numerator as f64 / f.denominator as f64
}

#[test]
fn test_calculate_gc_content_basic() {
    let sequence = b"ATCGATCG";
    let result = ratio(sequence);
    assert!((result - 0.5).abs() < 0.001, "Expected ~0.5, got {}", result);
}

#[test]
fn test_calculate_gc_content_empty_sequence() {
    let sequence = b"";
    let result = ratio(sequence);
    assert_eq!(result, 0.0, "Empty sequence should return 0.0");
}

#[test]
fn test_calculate_gc_content_all_gc() {
    let sequence = b"GCGCGC";
    let result = ratio(sequence);
    assert!(
        (result - 1.0).abs() < 0.001,
        "All GC sequence should return ~1.0, got {}",
        result
    );
}

#[test]
fn test_calculate_gc_content_all_at() {
    let sequence = b"ATATAT";
    let result = ratio(sequence);
    assert!(
        (result - 0.0).abs() < 0.001,
        "All AT sequence should return ~0.0, got {}",
        result
    );
}

#[test]
fn test_calculate_gc_content_case_insensitive() {
    let sequence = b"atcgatcg";
    let result = ratio(sequence);
    assert!(
        (result - 0.5).abs() < 0.001,
        "Lowercase sequence should work, got {}",
        result
    );
}

#[test]
fn test_calculate_gc_content_mixed_case() {
    let sequence = b"AtCgAtCg";
    let result = ratio(sequence);
    assert!(
        (result - 0.5).abs() < 0.001,
        "Mixed case sequence should work, got {}",
        result
    );
}

#[test]
fn test_calculate_gc_content_with_ambiguous_bases() {
    // The two `N` symbols are skipped: 4 GC out of 8 valid bases.
    let sequence = b"ATCGNNATCG";
    let result = ratio(sequence);
    assert!(
        (result - 0.5).abs() < 0.001,
        "Ambiguous bases should be skipped, got {}",
        result
    );
}

#[test]
fn test_calculate_gc_content_only_ambiguous_bases() {
    let sequence = b"NNNXXX";
    let result = ratio(sequence);
    assert_eq!(result, 0.0, "Only ambiguous bases should return 0.0");
}

#[test]
fn exact_fractions() {
    assert_eq!(calculate_gc_content(b""), GcFraction { numerator: 0, denominator: 1 });
    assert_eq!(calculate_gc_content(b"GCGCGC"), GcFraction { numerator: 6, denominator: 6 });
    assert_eq!(calculate_gc_content(b"ATATAT"), GcFraction { numerator: 0, denominator: 6 });
    assert_eq!(calculate_gc_content(b"ATCGNNATCG"), GcFraction { numerator: 4, denominator: 8 });
    assert_eq!(calculate_gc_content(b"NNNXXX"), GcFraction { numerator: 0, denominator: 1 });
    assert_eq!(calculate_gc_content(b"gAt-c"), GcFraction { numerator: 2, denominator: 4 });
}

#[test]
fn division_matches_float_ratio() {
    let result = ratio(b"GGA");
    assert_eq!(result, 2.0 / 3.0);
}

#[test]
fn classification_is_explicit() {
    for b in [b'G', b'C', b'g', b'c'] {
        assert_eq!(classify_base(b), BaseClass::Strong);
    }
    for b in [b'A', b'T', b'a', b't'] {
        assert_eq!(classify_base(b), BaseClass::Weak);
    }
    for b in [b'N', b'n', b'U', b'u', b'-', b'.', b'X', 0u8, 255u8] {
        assert_eq!(classify_base(b), BaseClass::Other);
    }
}

#[test]
fn counts_of_a_sequence() {
    assert_eq!(count_bases(b""), BaseCounts { gc: 0, valid: 0 });
    assert_eq!(count_bases(b"ACGTNacgtn-"), BaseCounts { gc: 4, valid: 8 });
    assert_eq!(count_bases(b"NNNXXX"), BaseCounts { gc: 0, valid: 0 });
}

#[test]
fn ratio_lies_in_unit_interval() {
    for s in [&b""[..], b"G", b"A", b"N", b"GATTACA", b"ccccT", b"xyz"] {
        let f = calculate_gc_content(s);
        assert!(f.denominator > 0);
        assert!(f.numerator <= f.denominator);
        let r = ratio(s);
        assert!((0.0..=1.0).contains(&r));
    }
}

#[test]
fn flipping_case_keeps_ratio() {
    let s = b"AtCgGGcaTn-x";
    let flipped: Vec<u8> = s
        .iter()
        .map(|b| if b.is_ascii_uppercase() { b.to_ascii_lowercase() } else { b.to_ascii_uppercase() })
        .collect();
    assert_eq!(flipped, b"aTcGggCAtN-X".to_vec());
    assert_eq!(calculate_gc_content(s), calculate_gc_content(&flipped));
    assert_eq!(count_bases(s), count_bases(&flipped));
}

#[test]
fn split_counts_add_up() {
    let s = b"ATCGNNATCGggc";
    let whole = calculate_gc_content(s);
    for k in 0..=s.len() {
        let left = count_bases(&s[..k]);
        let right = count_bases(&s[k..]);
        let sum = left.combine(right);
        assert_eq!(sum, count_bases(s));
        assert_eq!(sum.fraction(), whole);
    }
}

#[test]
fn empty_counters() {
    let c = BaseCounts { gc: 0, valid: 0 };
    assert_eq!(c, BaseCounts { gc: 0, valid: 0 });
    assert_eq!(c.fraction(), GcFraction { numerator: 0, denominator: 1 });
    let d = BaseCounts { gc: 1, valid: 3 };
    assert_eq!(d.fraction(), GcFraction { numerator: 1, denominator: 3 });
}
