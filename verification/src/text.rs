//! Characters of a source text, with what Unicode says of each.
//!
//! Which characters are letters and which are white space is decided by the
//! standard library. The tokenizer takes its answers as data, one
//! [`SourceChar`] for each character, so that what it computes is a function
//! of that data alone.
use vstd::prelude::*;

verus! {

/// Whether a character has the Unicode property `Alphabetic`.
pub uninterp spec fn char_is_alphabetic(c: char) -> bool;

/// Whether a character is alphabetic or numeric in the sense of Unicode.
pub uninterp spec fn char_is_alphanumeric(c: char) -> bool;

/// Whether a character has the Unicode property `White_Space`.
pub uninterp spec fn char_is_whitespace(c: char) -> bool;

/// `char::is_alphabetic` tells whether the character has the Unicode property
/// `Alphabetic`. The contract claims only that the answer depends on the
/// character alone.
pub assume_specification[ char::is_alphabetic ](c: char) -> (b: bool)
    ensures
        b == char_is_alphabetic(c),
;

/// `char::is_alphanumeric` tells whether the character is alphabetic or
/// numeric. The contract claims that the answer depends on the character
/// alone, and that it is yes for every alphabetic character.
pub assume_specification[ char::is_alphanumeric ](c: char) -> (b: bool)
    ensures
        b == char_is_alphanumeric(c),
        char_is_alphabetic(c) ==> b,
;

/// `char::is_whitespace` tells whether the character has the Unicode property
/// `White_Space`. The contract claims only that the answer depends on the
/// character alone.
pub assume_specification[ char::is_whitespace ](c: char) -> (b: bool)
    ensures
        b == char_is_whitespace(c),
;

/// `String::push` appends the character to the end of the string.
pub assume_specification[ std::string::String::push ](s: &mut std::string::String, c: char)
    ensures
        final(s)@ == old(s)@.push(c),
;

/// A character of a source text, with what Unicode says of it.
#[derive(Debug, Clone, Copy, PartialEq, Eq, Structural)]
pub struct SourceChar {
    pub ch: char,
    pub alphabetic: bool,
    pub alphanumeric: bool,
    pub whitespace: bool,
}

/// Whether a classification agrees with itself: what is alphabetic is
/// alphanumeric.
pub open spec fn coherent(c: SourceChar) -> bool {
    c.alphabetic ==> c.alphanumeric
}

/// A character with its true classification.
pub open spec fn classified(c: char) -> SourceChar {
    SourceChar {
        ch: c,
        alphabetic: char_is_alphabetic(c),
        alphanumeric: char_is_alphanumeric(c),
        whitespace: char_is_whitespace(c),
    }
}

/// A text with the true classification of each character.
pub open spec fn classified_text(text: Seq<char>) -> Seq<SourceChar> {
    Seq::new(text.len(), |i: int| classified(text[i]))
}

/// The characters of a classified text.
pub open spec fn plain_text(src: Seq<SourceChar>) -> Seq<char> {
    Seq::new(src.len(), |i: int| src[i].ch)
}

/// Whether a character is one of the ten decimal digits.
pub open spec fn is_digit(c: char) -> bool {
    '0' <= c && c <= '9'
}

/// Whether a character is one of the ten decimal digits.
pub fn char_is_digit(c: char) -> (b: bool)
    ensures
        b == is_digit(c),
{
    '0' <= c && c <= '9'
}

/// Classifies a character.
pub fn classify(c: char) -> (r: SourceChar)
    ensures
        r == classified(c),
        coherent(r),
{
    SourceChar {
        ch: c,
        alphabetic: c.is_alphabetic(),
        alphanumeric: c.is_alphanumeric(),
        whitespace: c.is_whitespace(),
    }
}

/// Classifies the characters of a string, in order.
pub fn classify_text(s: &str) -> (r: Vec<SourceChar>)
    ensures
        r@ == classified_text(s@),
        forall|i: int| 0 <= i < r.len() ==> coherent(#[trigger] r[i]),
{
    let mut out: Vec<SourceChar> = Vec::new();
    for c in it: s.chars()
        invariant
            it.seq() == s@,
            out@ == classified_text(s@.take(it.index() as int)),
            forall|i: int| 0 <= i < out.len() ==> coherent(#[trigger] out[i]),
    {
        out.push(classify(c));
        assert(classified_text(s@.take(it.index() + 1)) =~= classified_text(
            s@.take(it.index() as int),
        ).push(classified(c)));
    }
    assert(s@.take(s@.len() as int) =~= s@);
    out
}

/// The characters of `src` from `from` up to `to`, as a string.
pub fn string_of(src: &Vec<SourceChar>, from: usize, to: usize) -> (r: String)
    requires
        from <= to <= src.len(),
    ensures
        r@ == plain_text(src@.subrange(from as int, to as int)),
{
    let mut out = String::new();
    let mut i: usize = from;
    assert(plain_text(src@.subrange(from as int, from as int)) =~= Seq::empty());
    while i < to
        invariant
            from <= i <= to <= src.len(),
            out@ == plain_text(src@.subrange(from as int, i as int)),
        decreases to - i,
    {
        out.push(src[i].ch);
        i += 1;
        assert(plain_text(src@.subrange(from as int, i as int)) =~= plain_text(
            src@.subrange(from as int, i - 1),
        ).push(src@[i - 1].ch));
    }
    out
}

} // verus!
