//! Tests of the block boundaries, the run splitter's guarantees, the bulk
//! decomposer, and the compatibility mapping.

use hangul::{
    decompose_all_hangul_syllables, decompose_hangul_syllable_to_jamos, hangul_jamo_to_compat,
    hangul_jamo_to_compat_with_fallback, hangul_syllable_to_jamos, HangulCharClass,
};

#[test]
fn test_class_block_boundaries() {
    assert_eq!(HangulCharClass::from('\u{ac00}'), HangulCharClass::Syllables);
    assert_eq!(HangulCharClass::from('\u{d7af}'), HangulCharClass::Syllables);
    assert_eq!(HangulCharClass::from('\u{1100}'), HangulCharClass::Jamo);
    assert_eq!(HangulCharClass::from('\u{11ff}'), HangulCharClass::Jamo);
    assert_eq!(
        HangulCharClass::from('\u{3130}'),
        HangulCharClass::CompatibilityJamo
    );
    assert_eq!(
        HangulCharClass::from('\u{318f}'),
        HangulCharClass::CompatibilityJamo
    );
    assert_eq!(
        HangulCharClass::from('\u{a960}'),
        HangulCharClass::JamoExtendedA
    );
    assert_eq!(
        HangulCharClass::from('\u{a97f}'),
        HangulCharClass::JamoExtendedA
    );
    assert_eq!(
        HangulCharClass::from('\u{d7b0}'),
        HangulCharClass::JamoExtendedB
    );
    assert_eq!(
        HangulCharClass::from('\u{d7ff}'),
        HangulCharClass::JamoExtendedB
    );
}

#[test]
fn test_class_outside_all_blocks() {
    assert_eq!(HangulCharClass::from('a'), HangulCharClass::NotHangul);
    assert_eq!(HangulCharClass::from('\u{10ff}'), HangulCharClass::NotHangul);
    assert_eq!(HangulCharClass::from('\u{1200}'), HangulCharClass::NotHangul);
    assert_eq!(HangulCharClass::from('\u{312f}'), HangulCharClass::NotHangul);
    assert_eq!(HangulCharClass::from('\u{3190}'), HangulCharClass::NotHangul);
    assert_eq!(HangulCharClass::from('\u{a95f}'), HangulCharClass::NotHangul);
    assert_eq!(HangulCharClass::from('\u{a980}'), HangulCharClass::NotHangul);
    assert_eq!(HangulCharClass::from('\u{abff}'), HangulCharClass::NotHangul);
    assert_eq!(HangulCharClass::from('\u{e000}'), HangulCharClass::NotHangul);
    assert_eq!(
        HangulCharClass::from('\u{10ffff}'),
        HangulCharClass::NotHangul
    );
}

#[test]
fn test_split_round_trip_and_maximality() {
    let input = "ab\u{ac00}\u{b294}\u{1100}\u{3131}cd \u{a960}\u{d7b0}";
    let runs = HangulCharClass::split(input);
    let rebuilt: String = runs.iter().map(|r| r.1).collect::<Vec<_>>().concat();
    assert_eq!(rebuilt, input);
    for run in &runs {
        assert!(!run.1.is_empty());
        for ch in run.1.chars() {
            assert_eq!(HangulCharClass::from(ch), run.0);
        }
    }
    for pair in runs.windows(2) {
        assert_ne!(pair[0].0, pair[1].0);
    }
    assert_eq!(runs.len(), 7);
}

#[test]
fn test_split_single_class_is_one_run() {
    let runs = HangulCharClass::split("\u{1100}\u{11ff}\u{1161}");
    assert_eq!(
        runs,
        vec![(HangulCharClass::Jamo, "\u{1100}\u{11ff}\u{1161}")]
    );
}

#[test]
fn test_decompose_gating() {
    assert_eq!(decompose_hangul_syllable_to_jamos('\u{1100}'), None);
    assert_eq!(decompose_hangul_syllable_to_jamos('\u{3131}'), None);
    assert_eq!(decompose_hangul_syllable_to_jamos('\u{a960}'), None);
    assert_eq!(decompose_hangul_syllable_to_jamos('\u{d7b0}'), None);
    assert_eq!(decompose_hangul_syllable_to_jamos(' '), None);
    assert!(decompose_hangul_syllable_to_jamos('\u{ac00}').is_some());
    assert!(decompose_hangul_syllable_to_jamos('\u{d7af}').is_some());
}

#[test]
fn test_decompose_first_syllable() {
    // The very first syllable of the block decomposes to the first lead and
    // the first vowel, with no trailing consonant.
    assert_eq!(
        decompose_hangul_syllable_to_jamos('\u{ac00}'),
        Some(('\u{1100}', '\u{1161}', None))
    );
}

#[test]
fn test_decompose_past_last_true_syllable() {
    // Characters after the last true syllable still sit in the Syllables
    // range and decompose by the same arithmetic, with the lead index past
    // the nineteen standard leads.
    assert_eq!(
        decompose_hangul_syllable_to_jamos('\u{d7a4}'),
        Some(('\u{1113}', '\u{1161}', None))
    );
}

#[test]
fn test_syllable_to_jamos_strings() {
    assert_eq!(hangul_syllable_to_jamos('h'), None);
    assert_eq!(hangul_syllable_to_jamos('\u{1100}'), None);
    assert_eq!(
        hangul_syllable_to_jamos('\u{c774}'),
        Some("\u{110b}\u{1175}".to_owned())
    );
    assert_eq!(
        hangul_syllable_to_jamos('\u{b294}'),
        Some("\u{1102}\u{1173}\u{11ab}".to_owned())
    );
}

#[test]
fn test_decompose_all_no_syllables_keeps_length() {
    assert_eq!(decompose_all_hangul_syllables(""), "");
    assert_eq!(decompose_all_hangul_syllables("hi there"), "hi there");
    assert_eq!(
        decompose_all_hangul_syllables("\u{1100}\u{3131}"),
        "\u{1100}\u{3131}"
    );
}

#[test]
fn test_decompose_all_mixed_text() {
    let result = decompose_all_hangul_syllables("hi \u{b294}!");
    assert_eq!(result, "hi \u{1102}\u{1173}\u{11ab}!");
    assert!(result.chars().count() > "hi \u{b294}!".chars().count());
}

#[test]
fn test_compat_consonants_and_vowels() {
    // A leading and a trailing form of the same consonant share one
    // compatibility character.
    assert_eq!(hangul_jamo_to_compat('\u{1100}'), Some('\u{3131}'));
    assert_eq!(hangul_jamo_to_compat('\u{11a8}'), Some('\u{3131}'));
    assert_eq!(hangul_jamo_to_compat('\u{11b8}'), Some('\u{3142}'));
    // A trailing-only consonant cluster.
    assert_eq!(hangul_jamo_to_compat('\u{11aa}'), Some('\u{3133}'));
    // Vowels.
    assert_eq!(hangul_jamo_to_compat('\u{1161}'), Some('\u{314f}'));
    assert_eq!(hangul_jamo_to_compat('\u{1175}'), Some('\u{3163}'));
}

#[test]
fn test_compat_unmapped() {
    assert_eq!(hangul_jamo_to_compat('h'), None);
    assert_eq!(hangul_jamo_to_compat('\u{3131}'), None);
    assert_eq!(hangul_jamo_to_compat('\u{ac00}'), None);
    // A rare trailing cluster without a table entry.
    assert_eq!(hangul_jamo_to_compat('\u{11c3}'), None);
}

#[test]
fn test_compat_fallback_idempotent() {
    let once = hangul_jamo_to_compat_with_fallback('\u{1100}');
    assert_eq!(once, '\u{3131}');
    assert_eq!(hangul_jamo_to_compat_with_fallback(once), '\u{3131}');
    // Unmapped characters come back unchanged, again and again.
    assert_eq!(hangul_jamo_to_compat_with_fallback('x'), 'x');
    assert_eq!(hangul_jamo_to_compat_with_fallback('\u{ac00}'), '\u{ac00}');
}
