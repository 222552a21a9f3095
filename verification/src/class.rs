//! Classification of characters into the Hangul-related Unicode blocks.

use vstd::prelude::*;

verus! {

/// The Hangul-related Unicode block a character belongs to, or `NotHangul` for a
/// character outside all five blocks.
#[derive(Debug, PartialEq, Eq, Structural, Copy, Clone)]
pub enum HangulCharClass {
    CompatibilityJamo,
    JamoExtendedA,
    JamoExtendedB,
    Jamo,
    Syllables,
    NotHangul,
}

/// The class of a character, decided by five disjoint inclusive ranges of
/// scalar values: Syllables `AC00..D7AF`, Jamo `1100..11FF`, Compatibility
/// Jamo `3130..318F`, Jamo Extended-A `A960..A97F`, Jamo Extended-B
/// `D7B0..D7FF`; everything else is `NotHangul`.
pub open spec fn char_class_of(c: char) -> HangulCharClass {
    let u = c as u32;
    if 0xAC00 <= u <= 0xD7AF {
        HangulCharClass::Syllables
    } else if 0x1100 <= u <= 0x11FF {
        HangulCharClass::Jamo
    } else if 0x3130 <= u <= 0x318F {
        HangulCharClass::CompatibilityJamo
    } else if 0xA960 <= u <= 0xA97F {
        HangulCharClass::JamoExtendedA
    } else if 0xD7B0 <= u <= 0xD7FF {
        HangulCharClass::JamoExtendedB
    } else {
        HangulCharClass::NotHangul
    }
}

impl HangulCharClass {
    /// Classifies one character; total, a pure range lookup.
    pub fn from(value: char) -> (r: HangulCharClass)
        ensures
            r == char_class_of(value),
    {
        let u = value as u32;
        if 0xAC00 <= u && u <= 0xD7AF {
            HangulCharClass::Syllables
        } else if 0x1100 <= u && u <= 0x11FF {
            HangulCharClass::Jamo
        } else if 0x3130 <= u && u <= 0x318F {
            HangulCharClass::CompatibilityJamo
        } else if 0xA960 <= u && u <= 0xA97F {
            HangulCharClass::JamoExtendedA
        } else if 0xD7B0 <= u && u <= 0xD7FF {
            HangulCharClass::JamoExtendedB
        } else {
            HangulCharClass::NotHangul
        }
    }
}

/// Totality of classification: every character falls in exactly one class,
/// each of the five range-backed classes holds exactly the characters of its
/// range, and `NotHangul` holds exactly the characters outside all five ranges, so
/// the ranges partition the code-point space without overlap.
pub proof fn lemma_classification_total(c: char)
    ensures
        char_class_of(c) == HangulCharClass::Syllables <==> 0xAC00 <= c as u32 <= 0xD7AF,
        char_class_of(c) == HangulCharClass::Jamo <==> 0x1100 <= c as u32 <= 0x11FF,
        char_class_of(c) == HangulCharClass::CompatibilityJamo <==> 0x3130 <= c as u32 <= 0x318F,
        char_class_of(c) == HangulCharClass::JamoExtendedA <==> 0xA960 <= c as u32 <= 0xA97F,
        char_class_of(c) == HangulCharClass::JamoExtendedB <==> 0xD7B0 <= c as u32 <= 0xD7FF,
        char_class_of(c) == HangulCharClass::NotHangul <==> !(0xAC00 <= c as u32 <= 0xD7AF)
            && !(0x1100 <= c as u32 <= 0x11FF) && !(0x3130 <= c as u32 <= 0x318F) && !(0xA960
            <= c as u32 <= 0xA97F) && !(0xD7B0 <= c as u32 <= 0xD7FF),
{
}

} // verus!
