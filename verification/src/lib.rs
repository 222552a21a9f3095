//! Classification and transformation of Hangul text at the code-point level:
//! classifying characters into Hangul-related Unicode blocks, splitting a
//! string into maximal runs of same-class characters, decomposing precomposed
//! Hangul syllables into their jamo letters, and mapping positional jamo to
//! their Compatibility Jamo equivalents for isolated display.

pub mod class;
pub mod compat;
pub mod runs;
pub mod syllable;

pub use class::HangulCharClass;
pub use compat::hangul_jamo_to_compat;
pub use compat::hangul_jamo_to_compat_with_fallback;
pub use syllable::decompose_all_hangul_syllables;
pub use syllable::decompose_hangul_syllable_to_jamos;
pub use syllable::hangul_syllable_to_jamos;
