//! Arithmetic decomposition of precomposed Hangul syllables into jamo.
//!
//! A precomposed syllable's offset from the start of the Syllables block
//! encodes a lead consonant, a vowel, and an optional trailing consonant:
//! there are 21 vowels times 28 trail slots (including "no trail") per lead,
//! so the lead index is the offset divided by 588, the vowel index is the
//! remainder divided by 28, and the trail index is the rest.

use vstd::arithmetic::div_mod::lemma_fundamental_div_mod;
use vstd::prelude::*;
use vstd::string::StrSliceExecFns;
use vstd::string::StringExecFns;

use crate::class::char_class_of;
use crate::class::HangulCharClass;

verus! {

/// Whether a character lies in the Hangul Syllables block.
pub open spec fn is_syllable(c: char) -> bool {
    char_class_of(c) == HangulCharClass::Syllables
}

/// A syllable's offset from the origin of the Syllables block.
pub open spec fn syllable_base(c: char) -> int {
    c as u32 - 0xAC00
}

/// Index of the lead consonant within the lead jamo range.
pub open spec fn lead_index(c: char) -> int {
    syllable_base(c) / 588
}

/// Index of the vowel within the vowel jamo range.
pub open spec fn vowel_index(c: char) -> int {
    (syllable_base(c) % 588) / 28
}

/// Index of the trailing consonant within the trail jamo range; zero means
/// the syllable has no trailing consonant.
pub open spec fn trail_index(c: char) -> int {
    (syllable_base(c) % 588) % 28
}

/// Whether a syllable carries a trailing consonant.
pub open spec fn has_trail(c: char) -> bool {
    trail_index(c) != 0
}

/// The lead jamo character of a syllable.
pub open spec fn lead_jamo(c: char) -> char {
    ((0x1100 + lead_index(c)) as u32) as char
}

/// The vowel jamo character of a syllable.
pub open spec fn vowel_jamo(c: char) -> char {
    ((0x1161 + vowel_index(c)) as u32) as char
}

/// The trailing jamo character of a syllable with a trailing consonant.
pub open spec fn trail_jamo(c: char) -> char {
    ((0x11A7 + trail_index(c)) as u32) as char
}

/// The jamo characters of a syllable, in lead-vowel[-trail] order.
pub open spec fn syllable_jamos(c: char) -> Seq<char> {
    if has_trail(c) {
        seq![lead_jamo(c), vowel_jamo(c), trail_jamo(c)]
    } else {
        seq![lead_jamo(c), vowel_jamo(c)]
    }
}

/// What one character contributes to a bulk decomposition: its jamo letters
/// when it is a syllable, itself unchanged otherwise.
pub open spec fn decomp_of(c: char) -> Seq<char> {
    if is_syllable(c) {
        syllable_jamos(c)
    } else {
        seq![c]
    }
}

/// A whole string's bulk decomposition, character by character.
pub open spec fn decompose_chars(s: Seq<char>) -> Seq<char>
    decreases s.len(),
{
    if s.len() == 0 {
        Seq::empty()
    } else {
        decomp_of(s[0]) + decompose_chars(s.drop_first())
    }
}

/// Relies on std's `char::from_u32`: the result is `Some` exactly when the
/// argument is a Unicode scalar value (not a surrogate and at most
/// `0x10FFFF`), and then holds the character with that scalar value.
#[verifier::external_body]
fn char_from_u32(u: u32) -> (r: Option<char>)
    ensures
        r is Some <==> (u < 0xD800 || (0xE000 <= u && u <= 0x10FFFF)),
        r is Some ==> r->0 as u32 == u,
{
    char::from_u32(u)
}

/// Relies on std's `String::push`: appends the one character at the end.
#[verifier::external_body]
fn push_char(s: &mut String, c: char)
    ensures
        final(s)@ == old(s)@.push(c),
{
    s.push(c)
}

/// Decomposes a Hangul syllable into its lead, vowel, and (when present)
/// trailing jamo characters; any character outside the Syllables class has
/// no decomposition.
pub fn decompose_hangul_syllable_to_jamos(ch: char) -> (r: Option<(char, char, Option<char>)>)
    ensures
        r is Some <==> is_syllable(ch),
        r is Some ==> {
            &&& (r->0).0 == lead_jamo(ch)
            &&& (r->0).1 == vowel_jamo(ch)
            &&& ((r->0).2 is Some <==> has_trail(ch))
            &&& ((r->0).2 is Some ==> ((r->0).2)->0 == trail_jamo(ch))
            &&& char_class_of((r->0).0) == HangulCharClass::Jamo
            &&& char_class_of((r->0).1) == HangulCharClass::Jamo
            &&& ((r->0).2 is Some ==> char_class_of(((r->0).2)->0) == HangulCharClass::Jamo)
        },
{
    let class = HangulCharClass::from(ch);
    let codepoint = ch as u32;
    if class != HangulCharClass::Syllables {
        return None;
    }
    let base_codepoint = codepoint - 0xAC00;
    let initial_codepoint_idx = base_codepoint / 588;
    let medial_codepoint_idx = (base_codepoint - (initial_codepoint_idx * 588)) / 28;
    let final_codepoint_idx = base_codepoint - (initial_codepoint_idx * 588) - (medial_codepoint_idx
        * 28);
    proof {
        lemma_fundamental_div_mod(base_codepoint as int, 588);
        lemma_fundamental_div_mod((base_codepoint % 588) as int, 28);
        assert(base_codepoint - (base_codepoint / 588) * 588 == base_codepoint % 588);
        assert(initial_codepoint_idx == lead_index(ch));
        assert(medial_codepoint_idx == vowel_index(ch));
        assert(final_codepoint_idx == trail_index(ch));
    }
    let initial_codepoint = 0x1100 + initial_codepoint_idx;
    let medial_codepoint = 0x1161 + medial_codepoint_idx;
    let final_codepoint = 0x11A7 + final_codepoint_idx;
    let initial_ch = char_from_u32(initial_codepoint).unwrap();
    let medial_ch = char_from_u32(medial_codepoint).unwrap();
    let maybe_final_ch = if final_codepoint_idx == 0 {
        None
    } else {
        Some(char_from_u32(final_codepoint).unwrap())
    };
    proof {
        vstd::utf8::char_u32_cast(initial_ch, initial_codepoint);
        vstd::utf8::char_u32_cast(medial_ch, medial_codepoint);
        if final_codepoint_idx != 0 {
            vstd::utf8::char_u32_cast(maybe_final_ch->0, final_codepoint);
        }
    }
    Some((initial_ch, medial_ch, maybe_final_ch))
}

/// Decomposes a Hangul syllable into the 2- or 3-character string of its
/// jamo letters; any character outside the Syllables class yields nothing.
pub fn hangul_syllable_to_jamos(ch: char) -> (r: Option<String>)
    ensures
        r is Some <==> is_syllable(ch),
        r is Some ==> r->0@ == syllable_jamos(ch),
{
    if let Some((initial_ch, medial_ch, maybe_final_ch)) = decompose_hangul_syllable_to_jamos(ch) {
        let mut jamos = String::new();
        push_char(&mut jamos, initial_ch);
        push_char(&mut jamos, medial_ch);
        if let Some(final_ch) = maybe_final_ch {
            push_char(&mut jamos, final_ch);
            assert(jamos@ =~= syllable_jamos(ch));
        } else {
            assert(jamos@ =~= syllable_jamos(ch));
        }
        Some(jamos)
    } else {
        None
    }
}

proof fn lemma_decompose_chars_snoc(s: Seq<char>, c: char)
    ensures
        decompose_chars(s.push(c)) == decompose_chars(s) + decomp_of(c),
    decreases s.len(),
{
    reveal_with_fuel(decompose_chars, 3);
    if s.len() == 0 {
        assert(s.push(c).drop_first() =~= Seq::<char>::empty());
        assert(s.push(c)[0] == c);
        assert(decompose_chars(s.push(c)) =~= decompose_chars(s) + decomp_of(c));
    } else {
        assert(s.push(c).drop_first() =~= s.drop_first().push(c));
        lemma_decompose_chars_snoc(s.drop_first(), c);
        assert(decompose_chars(s.push(c)) =~= decompose_chars(s) + decomp_of(c));
    }
}

/// Replaces every decomposable syllable of a string by its jamo letters and
/// copies every other character unchanged, preserving order.
pub fn decompose_all_hangul_syllables(value: &str) -> (r: String)
    ensures
        r@ == decompose_chars(value@),
{
    let n = value.unicode_len();
    let mut result = String::new();
    let mut i: usize = 0;
    while i < n
        invariant
            n == value@.len(),
            0 <= i <= n,
            result@ == decompose_chars(value@.subrange(0, i as int)),
        decreases n - i,
    {
        let ch = value.get_char(i);
        proof {
            lemma_decompose_chars_snoc(value@.subrange(0, i as int), ch);
            assert(value@.subrange(0, i as int).push(value@[i as int]) =~= value@.subrange(
                0,
                i + 1,
            ));
        }
        if let Some(jamos) = hangul_syllable_to_jamos(ch) {
            result.append(jamos.as_str());
        } else {
            push_char(&mut result, ch);
            assert(result@ =~= decompose_chars(value@.subrange(0, i + 1)));
        }
        i += 1;
    }
    proof {
        assert(value@.subrange(0, n as int) =~= value@);
    }
    result
}

/// Bulk decomposition never shortens a string, and keeps its character count
/// exactly when no character of the string is a decomposable syllable.
pub proof fn lemma_decompose_length(s: Seq<char>)
    ensures
        decompose_chars(s).len() >= s.len(),
        decompose_chars(s).len() == s.len() <==> (forall|i: int|
            0 <= i < s.len() ==> !is_syllable(#[trigger] s[i])),
    decreases s.len(),
{
    if s.len() == 0 {
    } else {
        lemma_decompose_length(s.drop_first());
        assert(forall|i: int|
            0 <= i < s.drop_first().len() ==> #[trigger] s.drop_first()[i] == s[i + 1]);
        if decompose_chars(s).len() == s.len() {
            assert forall|i: int| 0 <= i < s.len() implies !is_syllable(#[trigger] s[i]) by {
                if i > 0 {
                    assert(s[i] == s.drop_first()[i - 1]);
                }
            }
        }
    }
}

} // verus!
