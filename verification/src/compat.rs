//! Mapping positional Hangul jamo to Compatibility Jamo for isolated display.

use vstd::prelude::*;

use crate::class::char_class_of;
use crate::class::HangulCharClass;

verus! {

/// The static table behind the compatibility mapping: the leading-position
/// and trailing-position forms of each consonant, and the vowels, map to the
/// one Compatibility Jamo character that displays the same letter standing
/// alone; every character without an entry has no compatibility equivalent.
pub open spec fn compat_of(c: char) -> Option<char> {
    match c {
        // Consonants
        'ᄀ' | 'ᆨ' => Some('ㄱ'),
        'ᄁ' | 'ᆩ' => Some('ㄲ'),
        'ᆪ' => Some('ㄳ'),
        'ᄂ' | 'ᆫ' => Some('ㄴ'),
        'ᆬ' => Some('ㄵ'),
        'ᆭ' => Some('ㄶ'),
        'ᄃ' | 'ᆮ' => Some('ㄷ'),
        'ᄄ' => Some('ㄸ'),
        'ᄅ' | 'ᆯ' => Some('ㄹ'),
        'ᆰ' => Some('ㄺ'),
        'ᆱ' => Some('ㄻ'),
        'ᆲ' => Some('ㄼ'),
        'ᆳ' => Some('ㄽ'),
        'ᆴ' => Some('ㄾ'),
        'ᆵ' => Some('ㄿ'),
        'ᆶ' => Some('ㅀ'),
        'ᄆ' | 'ᆷ' => Some('ㅁ'),
        'ᄇ' | 'ᆸ' => Some('ㅂ'),
        'ᄈ' => Some('ㅃ'),
        'ᆹ' => Some('ㅄ'),
        'ᄉ' | 'ᆺ' => Some('ㅅ'),
        'ᄊ' | 'ᆻ' => Some('ㅆ'),
        'ᄋ' | 'ᆼ' => Some('ㅇ'),
        'ᄌ' | 'ᆽ' => Some('ㅈ'),
        'ᄍ' => Some('ㅉ'),
        'ᄎ' | 'ᆾ' => Some('ㅊ'),
        'ᄏ' | 'ᆿ' => Some('ㅋ'),
        'ᄐ' | 'ᇀ' => Some('ㅌ'),
        'ᄑ' | 'ᇁ' => Some('ㅍ'),
        'ᄒ' | 'ᇂ' => Some('ㅎ'),
        // Vowels
        'ᅡ' => Some('ㅏ'),
        'ᅢ' => Some('ㅐ'),
        'ᅣ' => Some('ㅑ'),
        'ᅤ' => Some('ㅒ'),
        'ᅥ' => Some('ㅓ'),
        'ᅦ' => Some('ㅔ'),
        'ᅧ' => Some('ㅕ'),
        'ᅨ' => Some('ㅖ'),
        'ᅩ' => Some('ㅗ'),
        'ᅪ' => Some('ㅘ'),
        'ᅫ' => Some('ㅙ'),
        'ᅬ' => Some('ㅚ'),
        'ᅭ' => Some('ㅛ'),
        'ᅮ' => Some('ㅜ'),
        'ᅯ' => Some('ㅝ'),
        'ᅰ' => Some('ㅞ'),
        'ᅱ' => Some('ㅟ'),
        'ᅲ' => Some('ㅠ'),
        'ᅳ' => Some('ㅡ'),
        'ᅴ' => Some('ㅢ'),
        'ᅵ' => Some('ㅣ'),
        _ => None,
    }
}

/// The fallback form of the mapping: a character without a table entry
/// stands for itself.
pub open spec fn compat_or_self(c: char) -> char {
    match compat_of(c) {
        Some(k) => k,
        None => c,
    }
}

/// Converts a positional Hangul jamo to its Compatibility Jamo equivalent,
/// or nothing for a character without a table entry.
pub fn hangul_jamo_to_compat(ch: char) -> (r: Option<char>)
    ensures
        r == compat_of(ch),
{
    match ch {
        // Consonants
        'ᄀ' | 'ᆨ' => Some('ㄱ'),
        'ᄁ' | 'ᆩ' => Some('ㄲ'),
        'ᆪ' => Some('ㄳ'),
        'ᄂ' | 'ᆫ' => Some('ㄴ'),
        'ᆬ' => Some('ㄵ'),
        'ᆭ' => Some('ㄶ'),
        'ᄃ' | 'ᆮ' => Some('ㄷ'),
        'ᄄ' => Some('ㄸ'),
        'ᄅ' | 'ᆯ' => Some('ㄹ'),
        'ᆰ' => Some('ㄺ'),
        'ᆱ' => Some('ㄻ'),
        'ᆲ' => Some('ㄼ'),
        'ᆳ' => Some('ㄽ'),
        'ᆴ' => Some('ㄾ'),
        'ᆵ' => Some('ㄿ'),
        'ᆶ' => Some('ㅀ'),
        'ᄆ' | 'ᆷ' => Some('ㅁ'),
        'ᄇ' | 'ᆸ' => Some('ㅂ'),
        'ᄈ' => Some('ㅃ'),
        'ᆹ' => Some('ㅄ'),
        'ᄉ' | 'ᆺ' => Some('ㅅ'),
        'ᄊ' | 'ᆻ' => Some('ㅆ'),
        'ᄋ' | 'ᆼ' => Some('ㅇ'),
        'ᄌ' | 'ᆽ' => Some('ㅈ'),
        'ᄍ' => Some('ㅉ'),
        'ᄎ' | 'ᆾ' => Some('ㅊ'),
        'ᄏ' | 'ᆿ' => Some('ㅋ'),
        'ᄐ' | 'ᇀ' => Some('ㅌ'),
        'ᄑ' | 'ᇁ' => Some('ㅍ'),
        'ᄒ' | 'ᇂ' => Some('ㅎ'),
        // Vowels
        'ᅡ' => Some('ㅏ'),
        'ᅢ' => Some('ㅐ'),
        'ᅣ' => Some('ㅑ'),
        'ᅤ' => Some('ㅒ'),
        'ᅥ' => Some('ㅓ'),
        'ᅦ' => Some('ㅔ'),
        'ᅧ' => Some('ㅕ'),
        'ᅨ' => Some('ㅖ'),
        'ᅩ' => Some('ㅗ'),
        'ᅪ' => Some('ㅘ'),
        'ᅫ' => Some('ㅙ'),
        'ᅬ' => Some('ㅚ'),
        'ᅭ' => Some('ㅛ'),
        'ᅮ' => Some('ㅜ'),
        'ᅯ' => Some('ㅝ'),
        'ᅰ' => Some('ㅞ'),
        'ᅱ' => Some('ㅟ'),
        'ᅲ' => Some('ㅠ'),
        'ᅳ' => Some('ㅡ'),
        'ᅴ' => Some('ㅢ'),
        'ᅵ' => Some('ㅣ'),
        _ => None,
    }
}

/// Converts a positional Hangul jamo to its Compatibility Jamo equivalent,
/// returning the character unchanged when no mapping exists.
pub fn hangul_jamo_to_compat_with_fallback(ch: char) -> (r: char)
    ensures
        r == compat_or_self(ch),
{
    match hangul_jamo_to_compat(ch) {
        Some(compat) => compat,
        None => ch,
    }
}

/// Every key of the compatibility table lies in the Hangul Jamo block, and
/// every value lies in the Compatibility Jamo block.
pub proof fn lemma_compat_blocks(c: char)
    ensures
        compat_of(c) is Some ==> char_class_of(c) == HangulCharClass::Jamo,
        compat_of(c) is Some ==> char_class_of(compat_of(c)->0)
            == HangulCharClass::CompatibilityJamo,
{
}

/// Idempotence of the fallback mapping: wherever one application lands in
/// the Compatibility Jamo block, a second application changes nothing, since
/// the table has no keys in that block.
pub proof fn lemma_compat_idempotent(c: char)
    ensures
        char_class_of(compat_or_self(c)) == HangulCharClass::CompatibilityJamo
            ==> compat_or_self(compat_or_self(c)) == compat_or_self(c),
{
    let r = compat_or_self(c);
    if char_class_of(r) == HangulCharClass::CompatibilityJamo {
        lemma_compat_blocks(r);
    }
}

} // verus!
