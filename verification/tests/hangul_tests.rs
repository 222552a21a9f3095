//! Example-based tests of classification, decomposition, and splitting.

use hangul::{
    decompose_all_hangul_syllables, decompose_hangul_syllable_to_jamos, HangulCharClass,
};

#[test]
fn test_char_class_works() {
    assert_eq!(HangulCharClass::from('\u{c774}'), HangulCharClass::Syllables);
    assert_eq!(HangulCharClass::from('\u{11b8}'), HangulCharClass::Jamo);
    assert_eq!(
        HangulCharClass::from('\u{3131}'),
        HangulCharClass::CompatibilityJamo
    );
}

#[test]
fn test_decompose_works() {
    assert_eq!(decompose_hangul_syllable_to_jamos('h'), None);
    assert_eq!(
        decompose_hangul_syllable_to_jamos('\u{c774}'),
        Some(('\u{110b}', '\u{1175}', None))
    );
    assert_eq!(
        decompose_hangul_syllable_to_jamos('\u{b294}'),
        Some(('\u{1102}', '\u{1173}', Some('\u{11ab}')))
    );
}

#[test]
fn test_decompose_all_works() {
    let orig = "\u{c774}";
    assert_eq!(orig.chars().count(), 1);
    let decomposed = "\u{110b}\u{1175}";
    assert_eq!(decomposed.chars().count(), 2);
    assert_eq!(decompose_all_hangul_syllables(&orig), decomposed.to_owned());
}

#[test]
fn test_split_works() {
    assert_eq!(HangulCharClass::split(""), vec![]);
    assert_eq!(
        HangulCharClass::split("\u{c774}"),
        vec![(HangulCharClass::Syllables, "\u{c774}")]
    );

    assert_eq!(
        HangulCharClass::split("hi \u{c774} there"),
        vec![
            (HangulCharClass::NotHangul, "hi "),
            (HangulCharClass::Syllables, "\u{c774}"),
            (HangulCharClass::NotHangul, " there")
        ]
    );
}
