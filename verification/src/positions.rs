//! Where the tokens stand in the text.
//!
//! Lines and columns count from 1. A line break ends a line; every other
//! character, white space or not, takes one column.
use crate::scan::{
    chars_left, digits_end, fraction_at, is_space, is_word_char, is_word_start, keyword,
    lemma_digits_end_bounds, lemma_keyword_kinds, lemma_lookup_finds_entry, lemma_token_is_not_eof,
    lemma_token_nonempty, lemma_word_end_bounds, number_end, token_at, tokens_from, tokens_of,
    word_end,
};
use crate::text::{is_digit, plain_text, SourceChar};
use crate::token::{kind_text, vocabulary, TokenView};
use vstd::prelude::*;

verus! {

/// The line of offset `i`, counted from 1: one more than the number of line
/// breaks before `i`.
pub open spec fn line_at(src: Seq<SourceChar>, i: int) -> nat
    decreases i,
{
    if i <= 0 {
        1
    } else if src[i - 1].ch == '\n' {
        line_at(src, i - 1) + 1
    } else {
        line_at(src, i - 1)
    }
}

/// The column of offset `i`, counted from 1: one more than the number of
/// characters between the last line break before `i`, or the start, and `i`.
pub open spec fn column_at(src: Seq<SourceChar>, i: int) -> nat
    decreases i,
{
    if i <= 0 {
        1
    } else if src[i - 1].ch == '\n' {
        1
    } else {
        column_at(src, i - 1) + 1
    }
}

/// The offsets at which the tokens of `src` from `i` on start, in order. The
/// offset of `EOF` is the length of the text.
pub open spec fn starts_from(src: Seq<SourceChar>, i: int) -> Seq<int>
    decreases chars_left(src, i),
{
    if i < 0 || i >= src.len() {
        seq![src.len() as int]
    } else if is_space(src[i]) {
        starts_from(src, i + 1)
    } else {
        let len = token_at(src, i).1;
        if len == 0 {
            seq![i]
        } else {
            seq![i] + starts_from(src, i + len)
        }
    }
}

/// Whether `token` is the token that stands at offset `start` of `src`: its
/// line and column are those of `start`, its length is that of its lexeme,
/// which lies within the text and on one line, and a text that it carries is
/// its lexeme.
pub open spec fn spans(src: Seq<SourceChar>, start: int, token: TokenView) -> bool {
    &&& 0 <= start
    &&& start + token.len <= src.len()
    &&& token.line == line_at(src, start)
    &&& token.col == column_at(src, start)
    &&& forall|k: int| start <= k < start + token.len ==> src[k].ch != '\n'
    &&& if token.kind is EOF {
        start == src.len() && token.len == 0
    } else {
        start < src.len() && !is_space(src[start]) && (token.kind, token.len) == token_at(
            src,
            start,
        )
    }
    &&& match kind_text(token.kind) {
        Some(text) => text == plain_text(src.subrange(start, start + token.len)),
        None => true,
    }
}

/// Every character of a run of word characters is a word character.
pub proof fn lemma_word_chars(src: Seq<SourceChar>, i: int)
    requires
        0 <= i <= src.len(),
    ensures
        forall|k: int| i <= k < word_end(src, i) ==> is_word_char(#[trigger] src[k]),
    decreases src.len() - i,
{
    if i < src.len() && is_word_char(src[i]) {
        lemma_word_chars(src, i + 1);
    }
}

/// Every character of a run of digits is a digit.
pub proof fn lemma_digit_chars(src: Seq<SourceChar>, i: int)
    requires
        0 <= i <= src.len(),
    ensures
        forall|k: int| i <= k < digits_end(src, i) ==> is_digit((#[trigger] src[k]).ch),
    decreases src.len() - i,
{
    if i < src.len() && is_digit(src[i].ch) {
        lemma_digit_chars(src, i + 1);
    }
}

/// No lexeme of the vocabulary holds a line break.
pub proof fn lemma_vocabulary_on_one_line()
    ensures
        forall|j: int, k: int|
            0 <= j < vocabulary().len() && 0 <= k < vocabulary()[j].0.len() ==> (
            #[trigger] vocabulary()[j].0[k]) != '\n',
{
    reveal_strlit("let");
    reveal_strlit("fun");
    reveal_strlit("in");
    reveal_strlit("end");
    reveal_strlit("case");
    reveal_strlit("of");
    reveal_strlit("val");
    reveal_strlit("type");
    reveal_strlit("nil");
    reveal_strlit("none");
    reveal_strlit("some");
    reveal_strlit("int");
    reveal_strlit("bool");
    reveal_strlit("char");
    reveal_strlit("string");
    reveal_strlit("if");
    reveal_strlit("then");
    reveal_strlit("else");
    reveal_strlit("->");
    reveal_strlit("(");
    reveal_strlit(")");
    reveal_strlit("[");
    reveal_strlit("]");
    reveal_strlit("=");
    reveal_strlit("=>");
    reveal_strlit(",");
    reveal_strlit("|");
    reveal_strlit("::");
    reveal_strlit(":");
    reveal_strlit(";");
    reveal_strlit("'");
    reveal_strlit("_");
    reveal_strlit("+");
    reveal_strlit("-");
    reveal_strlit("*");
    reveal_strlit("/");
    reveal_strlit("<");
    reveal_strlit("<=");
    reveal_strlit(">");
    reveal_strlit(">=");
    reveal_strlit("<>");
    reveal_strlit("true");
    reveal_strlit("false");
}

/// The lexeme of a token holds no line break.
pub proof fn lemma_token_on_one_line(src: Seq<SourceChar>, i: int)
    requires
        0 <= i < src.len(),
        !is_space(src[i]),
    ensures
        forall|k: int| i <= k < i + token_at(src, i).1 ==> #[trigger] src[k].ch != '\n',
{
    let c = src[i];
    lemma_token_nonempty(src, i);
    if is_word_start(c) {
        lemma_word_end_bounds(src, i + 1);
        lemma_word_chars(src, i + 1);
    } else if is_digit(c.ch) {
        let d = digits_end(src, i);
        lemma_digits_end_bounds(src, i);
        lemma_digit_chars(src, i);
        if fraction_at(src, d) {
            lemma_digits_end_bounds(src, d + 1);
            lemma_digit_chars(src, d + 1);
        }
        assert forall|k: int| i <= k < number_end(src, i) implies #[trigger] src[k].ch != '\n' by {
            if k < d {
                assert(is_digit(src[k].ch));
            } else if k > d {
                assert(is_digit(src[k].ch));
            }
        }
    } else {
        let two = plain_text(src.subrange(i, i + 2));
        if i + 1 < src.len() && keyword(two) is Some {
            lemma_lookup_finds_entry(vocabulary(), two, vocabulary().len());
            lemma_vocabulary_on_one_line();
            let j = choose|j: int| 0 <= j < vocabulary().len() && vocabulary()[j] == (two, keyword(two)->0);
            assert(vocabulary()[j].0[1] != '\n');
            assert(two[1] == src[i + 1].ch);
        }
    }
}

/// Behind a stretch without line breaks the line is the same, and the column
/// is larger by the length of the stretch.
pub proof fn lemma_advance_on_line(src: Seq<SourceChar>, i: int, len: nat)
    requires
        0 <= i,
        i + len <= src.len(),
        forall|k: int| i <= k < i + len ==> #[trigger] src[k].ch != '\n',
    ensures
        line_at(src, i + len) == line_at(src, i),
        column_at(src, i + len) == column_at(src, i) + len,
    decreases len,
{
    if len > 0 {
        lemma_advance_on_line(src, i, (len - 1) as nat);
        assert(src[i + len - 1].ch != '\n');
    }
}

/// The token that starts at `i`, placed at the line and column of `i`, spans
/// its lexeme.
pub proof fn lemma_token_spans(src: Seq<SourceChar>, i: int)
    requires
        0 <= i < src.len(),
        !is_space(src[i]),
    ensures
        spans(
            src,
            i,
            TokenView {
                line: line_at(src, i),
                col: column_at(src, i),
                len: token_at(src, i).1,
                kind: token_at(src, i).0,
            },
        ),
{
    lemma_token_nonempty(src, i);
    lemma_token_is_not_eof(src, i);
    lemma_token_on_one_line(src, i);
    lemma_keyword_kinds(plain_text(src.subrange(i, word_end(src, i + 1))));
    lemma_keyword_kinds(plain_text(src.subrange(i, i + 2)));
    lemma_keyword_kinds(plain_text(src.subrange(i, i + 1)));
    lemma_word_end_bounds(src, i + 1);
    lemma_digits_end_bounds(src, i);
    if fraction_at(src, digits_end(src, i)) {
        lemma_digits_end_bounds(src, digits_end(src, i) + 1);
    }
}

/// From an offset on, with its line and column, every token spans its lexeme,
/// the tokens stand in the order of the text without overlap, and what stands
/// before and between them is white space.
pub proof fn lemma_tokens_span_from(src: Seq<SourceChar>, i: int)
    requires
        0 <= i <= src.len(),
    ensures
        ({
            let tokens = tokens_from(src, i, line_at(src, i), column_at(src, i));
            let starts = starts_from(src, i);
            &&& starts.len() == tokens.len()
            &&& forall|k: int| 0 <= k < tokens.len() ==> i <= #[trigger] starts[k]
            &&& forall|k: int| 0 <= k < tokens.len() ==> spans(src, starts[k], #[trigger] tokens[k])
            &&& forall|k: int|
                0 <= k < tokens.len() - 1 ==> #[trigger] starts[k] + tokens[k].len <= starts[k + 1]
            &&& forall|j: int| i <= j < starts[0] ==> is_space(#[trigger] src[j])
            &&& forall|k: int, j: int|
                0 <= k < tokens.len() - 1 && #[trigger] starts[k] + tokens[k].len <= j < starts[k
                    + 1] ==> is_space(#[trigger] src[j])
        }),
    decreases src.len() - i,
{
    let tokens = tokens_from(src, i, line_at(src, i), column_at(src, i));
    let starts = starts_from(src, i);
    if i >= src.len() {
    } else if is_space(src[i]) {
        lemma_tokens_span_from(src, i + 1);
    } else {
        let (kind, len) = token_at(src, i);
        let first = TokenView { line: line_at(src, i), col: column_at(src, i), len, kind };
        lemma_token_nonempty(src, i);
        lemma_token_spans(src, i);
        lemma_token_on_one_line(src, i);
        lemma_advance_on_line(src, i, len);
        lemma_tokens_span_from(src, i + len);
        let rest = tokens_from(src, i + len, line_at(src, i + len), column_at(src, i + len));
        let rest_starts = starts_from(src, i + len);
        assert(tokens == seq![first] + rest);
        assert(starts == seq![i] + rest_starts);
        assert forall|k: int| 0 <= k < tokens.len() implies i <= #[trigger] starts[k] by {
            if k > 0 {
                assert(starts[k] == rest_starts[k - 1]);
            }
        }
        assert forall|k: int| 0 <= k < tokens.len() implies spans(
            src,
            starts[k],
            #[trigger] tokens[k],
        ) by {
            if k > 0 {
                assert(tokens[k] == rest[k - 1]);
                assert(starts[k] == rest_starts[k - 1]);
            }
        }
        assert forall|k: int| 0 <= k < tokens.len() - 1 implies #[trigger] starts[k]
            + tokens[k].len <= starts[k + 1] by {
            assert(starts[k + 1] == rest_starts[k]);
            if k > 0 {
                assert(tokens[k] == rest[k - 1]);
                assert(starts[k] == rest_starts[k - 1]);
            }
        }
        assert forall|k: int, j: int|
            0 <= k < tokens.len() - 1 && #[trigger] starts[k] + tokens[k].len <= j < starts[k
                + 1] implies is_space(#[trigger] src[j]) by {
            assert(starts[k + 1] == rest_starts[k]);
            if k > 0 {
                assert(tokens[k] == rest[k - 1]);
                assert(starts[k] == rest_starts[k - 1]);
                assert(rest_starts[k - 1] + rest[k - 1].len <= j < rest_starts[k]);
            }
        }
    }
}

/// Every token of a text spans its lexeme: its line, column and length are
/// those of the stretch of the text from which it was scanned. The tokens
/// stand in the order of the text without overlap, and what stands before and
/// between them is white space.
pub proof fn lemma_tokens_span_lexemes(src: Seq<SourceChar>)
    ensures
        starts_from(src, 0).len() == tokens_of(src).len(),
        forall|k: int|
            0 <= k < tokens_of(src).len() ==> spans(
                src,
                starts_from(src, 0)[k],
                #[trigger] tokens_of(src)[k],
            ),
        forall|k: int|
            0 <= k < tokens_of(src).len() - 1 ==> #[trigger] starts_from(src, 0)[k] + tokens_of(
                src,
            )[k].len <= starts_from(src, 0)[k + 1],
        forall|j: int| 0 <= j < starts_from(src, 0)[0] ==> is_space(#[trigger] src[j]),
        forall|k: int, j: int|
            0 <= k < tokens_of(src).len() - 1 && #[trigger] starts_from(src, 0)[k] + tokens_of(
                src,
            )[k].len <= j < starts_from(src, 0)[k + 1] ==> is_space(#[trigger] src[j]),
{
    lemma_tokens_span_from(src, 0);
}

} // verus!
