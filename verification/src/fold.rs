//! Width folding: fullwidth ASCII forms and exotic spaces become their plain
//! ASCII counterparts; everything else is left alone.

use vstd::prelude::*;

verus! {

/// The fullwidth solidus, which is never folded: its halfwidth form is a
/// path separator.
pub open spec fn is_fullwidth_solidus(c: char) -> bool {
    c == '\u{FF0F}'
}

/// The fullwidth forms of the printable ASCII characters `!` to `~`.
pub open spec fn is_fullwidth_form(c: char) -> bool {
    '\u{FF01}' <= c <= '\u{FF5E}'
}

/// The space variants that fold to a plain space.
pub open spec fn is_space_variant(c: char) -> bool {
    '\u{2002}' <= c <= '\u{200B}' || c == '\u{3000}' || c == '\u{FEFF}'
}

/// Whether `i` is a Unicode scalar value: a code point that is no surrogate.
pub open spec fn is_scalar_value(i: u32) -> bool {
    i <= 0xD7FF || 0xE000 <= i <= 0x10FFFF
}

/// The folding table, one code point at a time.
pub open spec fn fold_char(c: char) -> char {
    if is_fullwidth_solidus(c) {
        c
    } else if is_fullwidth_form(c) {
        ((c as u32 - 0xFF01 + 0x21) as u32) as char
    } else if is_space_variant(c) {
        ' '
    } else {
        c
    }
}

/// The folding table applied to every position of a text.
pub open spec fn fold_text(s: Seq<char>) -> Seq<char> {
    Seq::new(s.len(), |i: int| fold_char(s[i]))
}

/// `char::from_u32` of std: the character with code point `i` where `i` is a
/// Unicode scalar value, and nothing for a surrogate or a value past
/// U+10FFFF.
pub assume_specification[ char::from_u32 ](i: u32) -> (r: Option<char>)
    ensures
        is_scalar_value(i) ==> r == Some(i as char),
        !is_scalar_value(i) ==> r is None,
;

/// `String::push` of std: appends one character to the end of the string.
pub assume_specification[ String::push ](s: &mut String, c: char)
    ensures
        final(s)@ == old(s)@.push(c),
;

/// The character with code point `i`, or `def` where `i` is no Unicode
/// scalar value.
pub fn char_from_u32(i: u32, def: char) -> (r: char)
    ensures
        r == if is_scalar_value(i) { i as char } else { def },
{
    char::from_u32(i).unwrap_or(def)
}

/// Folds one character.
pub fn full2half(c: char) -> (r: char)
    ensures
        r == fold_char(c),
{
    if c == '\u{FF0F}' {
        c
    } else if '\u{FF01}' <= c && c <= '\u{FF5E}' {
        char_from_u32(c as u32 - 0xFF01 + 0x21, c)
    } else if ('\u{2002}' <= c && c <= '\u{200B}') || c == '\u{3000}' || c == '\u{FEFF}' {
        ' '
    } else {
        c
    }
}

/// Folds every character of `s`.
pub fn string_full2half(s: &str) -> (r: String)
    ensures
        r@ == fold_text(s@),
{
    let mut out = String::new();
    for c in it: s.chars()
        invariant
            it.seq() == s@,
            out@ == fold_text(s@.take(it.index())),
    {
        let folded = full2half(c);
        out.push(folded);
    }
    out
}

/// Folding a character that is already folded changes nothing.
pub proof fn fold_char_idempotent(c: char)
    ensures
        fold_char(fold_char(c)) == fold_char(c),
{
}

/// Folding twice gives the same text as folding once.
pub proof fn fold_text_idempotent(s: Seq<char>)
    ensures
        fold_text(fold_text(s)) == fold_text(s),
{
    assert forall|i: int| 0 <= i < s.len() implies fold_text(fold_text(s))[i] == fold_text(s)[i] by {
        fold_char_idempotent(s[i]);
    }
}

/// Folding keeps the number of characters, and every fullwidth solidus
/// stays where it was.
pub proof fn fold_text_keeps_solidus(s: Seq<char>)
    ensures
        fold_text(s).len() == s.len(),
        forall|i: int|
            0 <= i < s.len() && is_fullwidth_solidus(s[i]) ==> #[trigger] fold_text(s)[i] == s[i],
{
}

/// Folding changes only fullwidth forms and space variants: every other
/// character, the fullwidth solidus among them, comes out as it went in.
pub proof fn fold_text_leaves_others(s: Seq<char>)
    ensures
        forall|i: int|
            0 <= i < s.len() && (is_fullwidth_solidus(s[i]) || !(is_fullwidth_form(s[i])
                || is_space_variant(s[i]))) ==> #[trigger] fold_text(s)[i] == s[i],
{
}

/// Folding never produces a path separator: a `/` in the folded text was a
/// `/` at the same place before.
pub proof fn fold_text_adds_no_separator(s: Seq<char>)
    ensures
        forall|i: int|
            0 <= i < s.len() && #[trigger] fold_text(s)[i] == '/' ==> s[i] == '/',
{
}

} // verus!
