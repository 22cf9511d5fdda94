//! What the tokenizer computes.
//!
//! Scanning starts anew at each character that is not white space, and takes
//! the longest lexeme that starts there: a word (identifier, keyword or
//! boolean literal), a number, a symbol of two characters or of one. A
//! character that starts none of these becomes an `Error` token by itself,
//! and scanning goes on behind it.
use crate::text::{coherent, is_digit, plain_text, SourceChar};
use crate::token::{kind_text, vocabulary, TokenKind, TokenView};
use vstd::prelude::*;

verus! {

/// White space: what separates tokens. A line break always counts.
pub open spec fn is_space(c: SourceChar) -> bool {
    c.ch == '\n' || c.whitespace
}

/// Whether a word can begin with this character.
pub open spec fn is_word_start(c: SourceChar) -> bool {
    c.ch == '_' || c.alphabetic
}

/// Whether a word can go on with this character. A line break never belongs
/// to a word.
pub open spec fn is_word_char(c: SourceChar) -> bool {
    c.ch != '\n' && (c.ch == '_' || c.alphanumeric)
}

/// The end of the longest run of word characters that starts at `i`.
pub open spec fn word_end(src: Seq<SourceChar>, i: int) -> int
    decreases src.len() - i,
{
    if i < src.len() && is_word_char(src[i]) {
        word_end(src, i + 1)
    } else {
        i
    }
}

/// The end of the longest run of digits that starts at `i`.
pub open spec fn digits_end(src: Seq<SourceChar>, i: int) -> int
    decreases src.len() - i,
{
    if i < src.len() && is_digit(src[i].ch) {
        digits_end(src, i + 1)
    } else {
        i
    }
}

/// Whether a fraction stands at `i`: a point with a digit behind it.
pub open spec fn fraction_at(src: Seq<SourceChar>, i: int) -> bool {
    i + 1 < src.len() && src[i].ch == '.' && is_digit(src[i + 1].ch)
}

/// The end of the number that starts at `i`: digits, and a fraction if one
/// follows them. A point with no digit behind it is not part of the number.
pub open spec fn number_end(src: Seq<SourceChar>, i: int) -> int {
    let d = digits_end(src, i);
    if fraction_at(src, d) {
        digits_end(src, d + 1)
    } else {
        d
    }
}

/// The kind of the number that starts at `i`.
pub open spec fn number_kind(src: Seq<SourceChar>, i: int) -> TokenKind {
    let text = plain_text(src.subrange(i, number_end(src, i)));
    if fraction_at(src, digits_end(src, i)) {
        TokenKind::Float(text)
    } else {
        TokenKind::Integer(text)
    }
}

/// The kind of the last of the first `count` entries whose lexeme is `key`:
/// a later entry of a table replaces an earlier one with the same lexeme.
pub open spec fn lookup_upto(
    table: Seq<(Seq<char>, TokenKind)>,
    key: Seq<char>,
    count: nat,
) -> Option<TokenKind>
    decreases count,
{
    if count == 0 || count > table.len() {
        None
    } else if table[count - 1].0 == key {
        Some(table[count - 1].1)
    } else {
        lookup_upto(table, key, (count - 1) as nat)
    }
}

/// The kind for which a lexeme of the vocabulary stands.
pub open spec fn keyword(key: Seq<char>) -> Option<TokenKind> {
    lookup_upto(vocabulary(), key, vocabulary().len())
}

/// The vocabulary as a map from lexemes to kinds.
pub open spec fn vocabulary_map() -> Map<Seq<char>, TokenKind> {
    Map::new(|key: Seq<char>| keyword(key) is Some, |key: Seq<char>| keyword(key)->0)
}

/// The kind of a word: what the vocabulary says, or else an identifier.
pub open spec fn word_kind(text: Seq<char>) -> TokenKind {
    match keyword(text) {
        Some(kind) => kind,
        None => TokenKind::Id(text),
    }
}

/// The symbol that starts at `i`, with its length: the two characters there
/// if they are a lexeme of the vocabulary, or else the one character if it is.
pub open spec fn symbol_at(src: Seq<SourceChar>, i: int) -> Option<(TokenKind, nat)> {
    if i + 1 < src.len() && keyword(plain_text(src.subrange(i, i + 2))) is Some {
        Some((keyword(plain_text(src.subrange(i, i + 2)))->0, 2))
    } else if i < src.len() && keyword(plain_text(src.subrange(i, i + 1))) is Some {
        Some((keyword(plain_text(src.subrange(i, i + 1)))->0, 1))
    } else {
        None
    }
}

/// The token that starts at `i`, with its length, where a character that is
/// not white space stands at `i`.
pub open spec fn token_at(src: Seq<SourceChar>, i: int) -> (TokenKind, nat)
    recommends
        0 <= i < src.len(),
{
    let c = src[i];
    if is_word_start(c) {
        let end = word_end(src, i + 1);
        (word_kind(plain_text(src.subrange(i, end))), (end - i) as nat)
    } else if is_digit(c.ch) {
        (number_kind(src, i), (number_end(src, i) - i) as nat)
    } else {
        match symbol_at(src, i) {
            Some(found) => found,
            None => (TokenKind::Error, 1),
        }
    }
}

/// The number of characters from `i` to the end of the text.
pub open spec fn chars_left(src: Seq<SourceChar>, i: int) -> nat {
    if 0 <= i <= src.len() {
        (src.len() - i) as nat
    } else {
        0
    }
}

/// The tokens of `src` from `i` on, where `i` is at line `line` and column
/// `col`, with `EOF` as the last.
pub open spec fn tokens_from(src: Seq<SourceChar>, i: int, line: nat, col: nat) -> Seq<TokenView>
    decreases chars_left(src, i),
{
    if i < 0 || i >= src.len() {
        seq![TokenView { line, col, len: 0, kind: TokenKind::EOF }]
    } else if is_space(src[i]) {
        if src[i].ch == '\n' {
            tokens_from(src, i + 1, line + 1, 1)
        } else {
            tokens_from(src, i + 1, line, col + 1)
        }
    } else {
        let (kind, len) = token_at(src, i);
        if len == 0 {
            // No token is empty (`lemma_token_nonempty`): this case never arises.
            seq![TokenView { line, col, len, kind }]
        } else {
            seq![TokenView { line, col, len, kind }] + tokens_from(src, i + len, line, col + len)
        }
    }
}

/// The tokens of a source text: lines and columns count from 1.
pub open spec fn tokens_of(src: Seq<SourceChar>) -> Seq<TokenView> {
    tokens_from(src, 0, 1, 1)
}

/// A run of word characters ends at or behind its start, within the text.
pub proof fn lemma_word_end_bounds(src: Seq<SourceChar>, i: int)
    requires
        0 <= i <= src.len(),
    ensures
        i <= word_end(src, i) <= src.len(),
    decreases src.len() - i,
{
    if i < src.len() && is_word_char(src[i]) {
        lemma_word_end_bounds(src, i + 1);
    }
}

/// A run of digits ends at or behind its start, within the text.
pub proof fn lemma_digits_end_bounds(src: Seq<SourceChar>, i: int)
    requires
        0 <= i <= src.len(),
    ensures
        i <= digits_end(src, i) <= src.len(),
    decreases src.len() - i,
{
    if i < src.len() && is_digit(src[i].ch) {
        lemma_digits_end_bounds(src, i + 1);
    }
}

/// Where a word can begin at `i`, in a line, with a character whose
/// classification is coherent, the longest run of word characters from `i`
/// on is that character and the longest run behind it: the word that the
/// tokenizer takes there.
pub proof fn lemma_word_from_its_start(src: Seq<SourceChar>, i: int)
    requires
        0 <= i < src.len(),
        coherent(src[i]),
        is_word_start(src[i]),
        src[i].ch != '\n',
    ensures
        word_end(src, i) == word_end(src, i + 1),
        word_end(src, i) > i,
{
    lemma_word_end_bounds(src, i + 1);
}

/// A token spans at least one character and ends within the text.
pub proof fn lemma_token_nonempty(src: Seq<SourceChar>, i: int)
    requires
        0 <= i < src.len(),
    ensures
        1 <= token_at(src, i).1,
        i + token_at(src, i).1 <= src.len(),
{
    lemma_word_end_bounds(src, i + 1);
    lemma_digits_end_bounds(src, i);
    lemma_digits_end_bounds(src, i + 1);
    let d = digits_end(src, i);
    if fraction_at(src, d) {
        lemma_digits_end_bounds(src, d + 1);
    }
}

/// What a lookup finds is an entry of the table, and where it finds nothing
/// no entry has that lexeme.
pub proof fn lemma_lookup_finds_entry(
    table: Seq<(Seq<char>, TokenKind)>,
    key: Seq<char>,
    count: nat,
)
    requires
        count <= table.len(),
    ensures
        match lookup_upto(table, key, count) {
            Some(kind) => exists|j: int| 0 <= j < count && table[j] == (key, kind),
            None => forall|j: int| 0 <= j < count ==> table[j].0 != key,
        },
    decreases count,
{
    if count > 0 && table[count - 1].0 != key {
        lemma_lookup_finds_entry(table, key, (count - 1) as nat);
    }
}

/// No lexeme of the vocabulary stands for `EOF` or for `Error`, and one that
/// stands for a kind with a text stands for the kind with the lexeme as text.
pub proof fn lemma_vocabulary_kinds()
    ensures
        forall|j: int|
            0 <= j < vocabulary().len() ==> {
                let (lexeme, kind) = #[trigger] vocabulary()[j];
                &&& !(kind is EOF)
                &&& !(kind is Error)
                &&& (kind_text(kind) is Some ==> kind_text(kind) == Some(lexeme))
            },
{
}

/// What the vocabulary says of a lexeme is never `EOF` nor `Error`, and where
/// it is a kind with a text, the text is the lexeme.
pub proof fn lemma_keyword_kinds(key: Seq<char>)
    ensures
        match keyword(key) {
            Some(kind) => !(kind is EOF) && !(kind is Error) && (kind_text(kind) is Some
                ==> kind_text(kind) == Some(key)),
            None => true,
        },
{
    lemma_lookup_finds_entry(vocabulary(), key, vocabulary().len());
    lemma_vocabulary_kinds();
}

/// No token that starts in the text is `EOF`.
pub proof fn lemma_token_is_not_eof(src: Seq<SourceChar>, i: int)
    requires
        0 <= i < src.len(),
    ensures
        !(token_at(src, i).0 is EOF),
{
    lemma_keyword_kinds(plain_text(src.subrange(i, word_end(src, i + 1))));
    lemma_keyword_kinds(plain_text(src.subrange(i, i + 2)));
    lemma_keyword_kinds(plain_text(src.subrange(i, i + 1)));
}

/// A token stream ends with `EOF`, and holds no other `EOF`.
pub proof fn lemma_tokens_end_with_eof(src: Seq<SourceChar>, i: int, line: nat, col: nat)
    ensures
        tokens_from(src, i, line, col).len() >= 1,
        tokens_from(src, i, line, col).last().kind is EOF,
        forall|j: int|
            0 <= j < tokens_from(src, i, line, col).len() - 1 ==> !(#[trigger] tokens_from(
                src,
                i,
                line,
                col,
            )[j].kind is EOF),
    decreases chars_left(src, i),
{
    if i < 0 || i >= src.len() {
    } else if is_space(src[i]) {
        if src[i].ch == '\n' {
            lemma_tokens_end_with_eof(src, i + 1, line + 1, 1);
        } else {
            lemma_tokens_end_with_eof(src, i + 1, line, col + 1);
        }
    } else {
        lemma_token_nonempty(src, i);
        lemma_token_is_not_eof(src, i);
        let (kind, len) = token_at(src, i);
        lemma_tokens_end_with_eof(src, i + len, line, col + len);
    }
}

/// Where two characters that are a lexeme of the vocabulary stand at `i`,
/// they are the symbol there, whatever the first of them is by itself.
pub proof fn lemma_longest_symbol_wins(src: Seq<SourceChar>, i: int, kind: TokenKind)
    requires
        0 <= i,
        i + 1 < src.len(),
        keyword(plain_text(src.subrange(i, i + 2))) == Some(kind),
    ensures
        symbol_at(src, i) == Some((kind, 2nat)),
        !is_space(src[i]) && !is_word_start(src[i]) && !is_digit(src[i].ch) ==> forall|
            line: nat,
            col: nat,
        |
            #[trigger] tokens_from(src, i, line, col) == seq![
                TokenView { line, col, len: 2, kind },
            ] + tokens_from(src, i + 2, line, col + 2),
{
}

} // verus!
