//! The tokenizer: the table of the vocabulary, the scanners for the kinds
//! of lexeme, and the loop that cuts a text into tokens.
use crate::positions::{lemma_tokens_span_lexemes, spans, starts_from};
use crate::scan::{
    digits_end, is_space, is_word_char, is_word_start, keyword, lemma_token_nonempty,
    lemma_tokens_end_with_eof, lemma_word_from_its_start, lookup_upto, number_end, number_kind,
    symbol_at, token_at, tokens_from, tokens_of, vocabulary_map, word_end, word_kind,
};
use crate::text::{
    char_is_digit, classified, classified_text, classify_text, plain_text, string_of, SourceChar,
};
pub use crate::token::{Token, TokenType};
use crate::token::{
    booleans, keywords, operators, symbols, type_names, views_of, vocabulary, TokenKind,
};
use vstd::hash_map::StringHashMap;
use vstd::prelude::*;

verus! {

// ----------------------------------------------------------------------
// The vocabulary as a table
// ----------------------------------------------------------------------
/// The table of the fixed vocabulary: the lexemes of the keywords, symbols,
/// operators and boolean literals, each with the kind it stands for.
pub struct TokenDict {
    map: StringHashMap<TokenType>,
}

/// The value of a list of entries.
pub open spec fn entries_view(entries: Seq<(String, TokenType)>) -> Seq<(Seq<char>, TokenKind)> {
    Seq::new(entries.len(), |i: int| (entries[i].0@, entries[i].1@))
}

/// Appends one entry.
fn add_entry(entries: &mut Vec<(String, TokenType)>, lexeme: &str, ty: TokenType)
    ensures
        entries_view(final(entries)@) == entries_view(old(entries)@).push((lexeme@, ty@)),
{
    entries.push((String::from_str(lexeme), ty));
    assert(entries_view(entries@) =~= entries_view(old(entries)@).push((lexeme@, ty@)));
}

/// The values of two lists of entries joined are the values of each, joined.
proof fn lemma_entries_view_concat(a: Seq<(String, TokenType)>, b: Seq<(String, TokenType)>)
    ensures
        entries_view(a + b) == entries_view(a) + entries_view(b),
{
    assert(entries_view(a + b) =~= entries_view(a) + entries_view(b));
}

/// The entries of the keywords.
fn keyword_entries() -> (entries: Vec<(String, TokenType)>)
    ensures
        entries_view(entries@) == keywords(),
{
    proof {
        reveal(TokenType::view);
    }
    let mut entries: Vec<(String, TokenType)> = Vec::new();
    add_entry(&mut entries, "let", TokenType::Let);
    add_entry(&mut entries, "fun", TokenType::Fun);
    add_entry(&mut entries, "in", TokenType::In);
    add_entry(&mut entries, "end", TokenType::End);
    add_entry(&mut entries, "case", TokenType::Case);
    add_entry(&mut entries, "of", TokenType::Of);
    add_entry(&mut entries, "val", TokenType::Val);
    add_entry(&mut entries, "type", TokenType::Type);
    add_entry(&mut entries, "nil", TokenType::Nil);
    add_entry(&mut entries, "none", TokenType::KwNone);
    add_entry(&mut entries, "some", TokenType::KwSome);
    add_entry(&mut entries, "if", TokenType::If);
    add_entry(&mut entries, "then", TokenType::Then);
    add_entry(&mut entries, "else", TokenType::Else);
    assert(entries_view(entries@) =~= keywords());
    entries
}

/// The entries of the names of the built-in types.
fn type_name_entries() -> (entries: Vec<(String, TokenType)>)
    ensures
        entries_view(entries@) == type_names(),
{
    proof {
        reveal(TokenType::view);
    }
    let mut entries: Vec<(String, TokenType)> = Vec::new();
    add_entry(&mut entries, "int", TokenType::TypeInt);
    add_entry(&mut entries, "bool", TokenType::TypeBool);
    add_entry(&mut entries, "char", TokenType::TypeChar);
    add_entry(&mut entries, "string", TokenType::TypeString);
    assert(entries_view(entries@) =~= type_names());
    entries
}

/// The entries of the syntactic elements.
fn symbol_entries() -> (entries: Vec<(String, TokenType)>)
    ensures
        entries_view(entries@) == symbols(),
{
    proof {
        reveal(TokenType::view);
    }
    let mut entries: Vec<(String, TokenType)> = Vec::new();
    add_entry(&mut entries, "->", TokenType::Arrow);
    add_entry(&mut entries, "(", TokenType::LeftParen);
    add_entry(&mut entries, ")", TokenType::RightParen);
    add_entry(&mut entries, "[", TokenType::LeftBracket);
    add_entry(&mut entries, "]", TokenType::RightBracket);
    add_entry(&mut entries, "=", TokenType::Equal);
    add_entry(&mut entries, "=>", TokenType::FatArrow);
    add_entry(&mut entries, ",", TokenType::Comma);
    add_entry(&mut entries, "|", TokenType::Bar);
    add_entry(&mut entries, "::", TokenType::Cons);
    add_entry(&mut entries, ":", TokenType::Colon);
    add_entry(&mut entries, ";", TokenType::SemiColon);
    add_entry(&mut entries, "'", TokenType::SingleQuote);
    add_entry(&mut entries, "_", TokenType::Wildcard);
    assert(entries_view(entries@) =~= symbols());
    entries
}

/// The entries of the operators.
fn operator_entries() -> (entries: Vec<(String, TokenType)>)
    ensures
        entries_view(entries@) == operators(),
{
    proof {
        reveal(TokenType::view);
    }
    let mut entries: Vec<(String, TokenType)> = Vec::new();
    add_entry(&mut entries, "+", TokenType::Plus);
    add_entry(&mut entries, "-", TokenType::Minus);
    add_entry(&mut entries, "*", TokenType::Multiply);
    add_entry(&mut entries, "/", TokenType::Divide);
    add_entry(&mut entries, "<", TokenType::StrictLess);
    add_entry(&mut entries, "<=", TokenType::Less);
    add_entry(&mut entries, ">", TokenType::StrictGreater);
    add_entry(&mut entries, ">=", TokenType::Greater);
    add_entry(&mut entries, "<>", TokenType::CompNotEqual);
    assert(entries_view(entries@) =~= operators());
    entries
}

/// The entries of the boolean literals.
fn boolean_entries() -> (entries: Vec<(String, TokenType)>)
    ensures
        entries_view(entries@) == booleans(),
{
    proof {
        reveal(TokenType::view);
    }
    let mut entries: Vec<(String, TokenType)> = Vec::new();
    add_entry(&mut entries, "true", TokenType::Bool(String::from_str("true")));
    add_entry(&mut entries, "false", TokenType::Bool(String::from_str("false")));
    assert(entries_view(entries@) =~= booleans());
    entries
}

/// Whether, for `key`, a map says what the first `count` entries of the
/// vocabulary say.
pub open spec fn agrees_at(m: Map<Seq<char>, TokenType>, key: Seq<char>, count: nat) -> bool {
    match lookup_upto(vocabulary(), key, count) {
        Some(kind) => m.contains_key(key) && m[key]@ == kind,
        None => !m.contains_key(key),
    }
}

/// Whether a map holds the first `count` entries of the vocabulary, and
/// nothing else.
pub open spec fn agrees(m: Map<Seq<char>, TokenType>, count: nat) -> bool {
    forall|key: Seq<char>| #[trigger] agrees_at(m, key, count)
}

/// A map from lexemes to token types as a map from lexemes to kinds.
pub open spec fn kinds_map(m: Map<Seq<char>, TokenType>) -> Map<Seq<char>, TokenKind> {
    Map::new(|key: Seq<char>| m.contains_key(key), |key: Seq<char>| m[key]@)
}

/// A map that holds all entries of the vocabulary, and nothing else, is the
/// vocabulary.
proof fn lemma_map_is_vocabulary(m: Map<Seq<char>, TokenType>)
    requires
        agrees(m, vocabulary().len()),
    ensures
        kinds_map(m) == vocabulary_map(),
{
    assert forall|key: Seq<char>| #[trigger]
        kinds_map(m).contains_key(key) == vocabulary_map().contains_key(key) && (kinds_map(
            m,
        ).contains_key(key) ==> kinds_map(m)[key] == vocabulary_map()[key]) by {
        assert(agrees_at(m, key, vocabulary().len()));
    }
    assert(kinds_map(m) =~= vocabulary_map());
}

impl TokenDict {
    #[verifier::type_invariant]
    spec fn holds_vocabulary(self) -> bool {
        agrees(self.map@, vocabulary().len())
    }

    /// The table as a map from lexemes to kinds.
    pub closed spec fn view(&self) -> Map<Seq<char>, TokenKind> {
        kinds_map(self.map@)
    }

    /// The table of the vocabulary.
    pub fn new() -> (r: Self)
        ensures
            r@ == vocabulary_map(),
    {
        let mut entries = keyword_entries();
        let mut more = type_name_entries();
        proof {
            lemma_entries_view_concat(entries@, more@);
        }
        entries.append(&mut more);
        let mut more = symbol_entries();
        proof {
            lemma_entries_view_concat(entries@, more@);
        }
        entries.append(&mut more);
        let mut more = operator_entries();
        proof {
            lemma_entries_view_concat(entries@, more@);
        }
        entries.append(&mut more);
        let mut more = boolean_entries();
        proof {
            lemma_entries_view_concat(entries@, more@);
        }
        entries.append(&mut more);
        let mut map: StringHashMap<TokenType> = StringHashMap::new();
        let mut i: usize = 0;
        while i < entries.len()
            invariant
                i <= entries.len(),
                entries_view(entries@) == vocabulary(),
                agrees(map@, i as nat),
            decreases entries.len() - i,
        {
            let ghost before = map@;
            let lexeme = entries[i].0.clone();
            let ty = entries[i].1.clone();
            map.insert(lexeme, ty);
            proof {
                assert(entries_view(entries@)[i as int] == (entries[i as int].0@, entries[i as int].1@));
                assert forall|key: Seq<char>| #[trigger] agrees_at(map@, key, (i + 1) as nat) by {
                    assert(agrees_at(before, key, i as nat));
                }
            }
            i += 1;
        }
        proof {
            lemma_map_is_vocabulary(map@);
        }
        TokenDict { map }
    }

    /// The kind for which `key` stands, if it is a lexeme of the vocabulary.
    pub fn get(&self, key: &String) -> (r: Option<TokenType>)
        ensures
            match r {
                Some(ty) => keyword(key@) == Some(ty@),
                None => keyword(key@) is None,
            },
    {
        proof {
            use_type_invariant(self);
            assert(agrees_at(self.map@, key@, vocabulary().len()));
        }
        match self.map.get(key.as_str()) {
            Some(ty) => Some(ty.clone()),
            None => None,
        }
    }
}

// ----------------------------------------------------------------------
// Scanning
// ----------------------------------------------------------------------
/// Whether a character separates tokens.
pub fn char_is_space(c: SourceChar) -> (b: bool)
    ensures
        b == is_space(c),
{
    c.ch == '\n' || c.whitespace
}

/// Whether a word can begin with a character.
pub fn char_is_word_start(c: SourceChar) -> (b: bool)
    ensures
        b == is_word_start(c),
{
    c.ch == '_' || c.alphabetic
}

/// Whether a word can go on with a character.
pub fn char_is_word_char(c: SourceChar) -> (b: bool)
    ensures
        b == is_word_char(c),
{
    c.ch != '\n' && (c.ch == '_' || c.alphanumeric)
}

/// The end of the run of word characters that starts at `from`.
pub fn scan_word(src: &Vec<SourceChar>, from: usize) -> (end: usize)
    requires
        from <= src.len(),
    ensures
        end == word_end(src@, from as int),
        from <= end <= src.len(),
{
    let mut i: usize = from;
    while i < src.len() && char_is_word_char(src[i])
        invariant
            from <= i <= src.len(),
            word_end(src@, i as int) == word_end(src@, from as int),
        decreases src.len() - i,
    {
        i += 1;
    }
    i
}

/// The end of the run of digits that starts at `from`.
pub fn scan_digits(src: &Vec<SourceChar>, from: usize) -> (end: usize)
    requires
        from <= src.len(),
    ensures
        end == digits_end(src@, from as int),
        from <= end <= src.len(),
{
    let mut i: usize = from;
    while i < src.len() && char_is_digit(src[i].ch)
        invariant
            from <= i <= src.len(),
            digits_end(src@, i as int) == digits_end(src@, from as int),
        decreases src.len() - i,
    {
        i += 1;
    }
    i
}

/// The number that starts at `from`: its kind and its end, or `None` where
/// neither a digit nor a fraction stands there.
pub fn scan_number(src: &Vec<SourceChar>, from: usize) -> (r: (Option<TokenType>, usize))
    requires
        from <= src.len(),
    ensures
        r.1 == number_end(src@, from as int),
        from <= r.1 <= src.len(),
        match r.0 {
            Some(ty) => r.1 > from && ty@ == number_kind(src@, from as int),
            None => r.1 == from,
        },
{
    proof {
        reveal(TokenType::view);
    }
    let whole = scan_digits(src, from);
    let fraction = whole < src.len() && src[whole].ch == '.' && whole + 1 < src.len()
        && char_is_digit(src[whole + 1].ch);
    if fraction {
        let end = scan_digits(src, whole + 1);
        (Some(TokenType::Float(string_of(src, from, end))), end)
    } else if whole > from {
        (Some(TokenType::Integer(string_of(src, from, whole))), whole)
    } else {
        (None, whole)
    }
}

/// The word that runs from `from` up to `end`: its kind.
pub fn word_token(dict: &TokenDict, src: &Vec<SourceChar>, from: usize, end: usize) -> (ty: TokenType)
    requires
        from <= end <= src.len(),
    ensures
        ty@ == word_kind(plain_text(src@.subrange(from as int, end as int))),
{
    proof {
        reveal(TokenType::view);
    }
    let text = string_of(src, from, end);
    match dict.get(&text) {
        Some(ty) => ty,
        None => TokenType::Id(text),
    }
}

/// The symbol that starts at `from`, with its length.
pub fn scan_symbol(dict: &TokenDict, src: &Vec<SourceChar>, from: usize) -> (r: (Option<TokenType>, usize))
    requires
        from <= src.len(),
    ensures
        match symbol_at(src@, from as int) {
            Some((kind, len)) => r.0 is Some && r.0->0@ == kind && r.1 == len,
            None => r.0 is None && r.1 == 0,
        },
{
    if from < src.len() && from + 1 < src.len() {
        let two = string_of(src, from, from + 2);
        if let Some(ty) = dict.get(&two) {
            return (Some(ty), 2);
        }
    }
    if from < src.len() {
        let one = string_of(src, from, from + 1);
        if let Some(ty) = dict.get(&one) {
            return (Some(ty), 1);
        }
    }
    (None, 0)
}

/// The token that starts at `from`, with its length.
pub fn scan_token(dict: &TokenDict, src: &Vec<SourceChar>, from: usize) -> (r: (TokenType, usize))
    requires
        from < src.len(),
    ensures
        (r.0@, r.1 as nat) == token_at(src@, from as int),
        1 <= r.1,
        from + r.1 <= src.len(),
{
    proof {
        reveal(TokenType::view);
        lemma_token_nonempty(src@, from as int);
    }
    let c = src[from];
    if char_is_word_start(c) {
        let end = scan_word(src, from + 1);
        (word_token(dict, src, from, end), end - from)
    } else if char_is_digit(c.ch) {
        let (kind, end) = scan_number(src, from);
        match kind {
            Some(ty) => (ty, end - from),
            None => (TokenType::Error, 1),
        }
    } else {
        match scan_symbol(dict, src, from) {
            (Some(ty), len) => (ty, len),
            (None, _) => (TokenType::Error, 1),
        }
    }
}

// ----------------------------------------------------------------------
// The tokenizer
// ----------------------------------------------------------------------
/// A source text with a cursor, and the table of the vocabulary.
pub struct Lexer {
    source: Vec<SourceChar>,
    cur_idx: usize,
    pos_line: usize,
    pos_col: usize,
    token_dict: TokenDict,
}

impl Lexer {
    #[verifier::type_invariant]
    spec fn cursor_in_range(self) -> bool {
        &&& self.source.len() < usize::MAX
        &&& self.cur_idx <= self.source.len()
        &&& 1 <= self.pos_line <= self.cur_idx + 1
        &&& 1 <= self.pos_col <= self.cur_idx + 1
    }

    /// The characters of the source text, each with its classification.
    pub closed spec fn source(&self) -> Seq<SourceChar> {
        self.source@
    }

    /// A tokenizer for `source`, with the cursor at its start. Each
    /// character gets its true classification.
    ///
    /// Lines, columns and lengths are counted in `usize`: the text has fewer
    /// than `usize::MAX` characters.
    pub fn new(source: String) -> (r: Self)
        requires
            source@.len() < usize::MAX,
        ensures
            r.source() == classified_text(source@),
    {
        Lexer::from_classified(classify_text(source.as_str()))
    }

    /// A tokenizer for a text whose characters are classified already, with
    /// the cursor at its start.
    pub fn from_classified(source: Vec<SourceChar>) -> (r: Self)
        requires
            source.len() < usize::MAX,
        ensures
            r.source() == source@,
    {
        Lexer { source, cur_idx: 0, pos_line: 1, pos_col: 1, token_dict: TokenDict::new() }
    }

    /// The table of the vocabulary.
    pub fn token_dict(&self) -> (r: &TokenDict)
        ensures
            r@ == vocabulary_map(),
    {
        let r = &self.token_dict;
        proof {
            use_type_invariant(r);
            lemma_map_is_vocabulary(r.map@);
        }
        r
    }

    /// The word at the start of `chars`: the longest run of word characters
    /// there, as a keyword or boolean literal if the vocabulary holds it and
    /// as an identifier otherwise, with its length. The word is not empty
    /// where `chars` begins with a letter or `_`.
    pub fn match_id_or_kw(&self, chars: &str) -> (r: (Option<TokenType>, usize))
        ensures
            r.1 == word_end(classified_text(chars@), 0),
            r.0 is Some,
            r.0->0@ == word_kind(plain_text(classified_text(chars@).subrange(0, r.1 as int))),
            chars@.len() > 0 && chars@[0] != '\n' && is_word_start(classified(chars@[0]))
                ==> r.1 >= 1,
    {
        let src = classify_text(chars);
        proof {
            if src.len() > 0 && src[0].ch != '\n' && is_word_start(src[0]) {
                lemma_word_from_its_start(src@, 0);
            }
        }
        let end = scan_word(&src, 0);
        (Some(word_token(&self.token_dict, &src, 0, end)), end)
    }

    /// The number at the start of `chars`, with its length: an `Integer`, or
    /// a `Float` where a point and a digit follow the digits. The digits
    /// before the point may be none: `.5` is a `Float`. `(None, 0)` where no
    /// number stands there.
    pub fn match_number(&self, chars: &str) -> (r: (Option<TokenType>, usize))
        ensures
            r.1 == number_end(classified_text(chars@), 0),
            match r.0 {
                Some(ty) => r.1 > 0 && ty@ == number_kind(classified_text(chars@), 0),
                None => r.1 == 0,
            },
    {
        let src = classify_text(chars);
        scan_number(&src, 0)
    }

    /// The symbol at the start of `chars`, with its length: the longest
    /// lexeme of the vocabulary that stands there, of two characters or of
    /// one. `(None, 0)` where none stands there.
    pub fn match_syntax(&self, chars: &str) -> (r: (Option<TokenType>, usize))
        ensures
            match symbol_at(classified_text(chars@), 0) {
                Some((kind, len)) => r.0 is Some && r.0->0@ == kind && r.1 == len,
                None => r.0 is None && r.1 == 0,
            },
    {
        let src = classify_text(chars);
        scan_symbol(&self.token_dict, &src, 0)
    }

    /// The tokens of the source text, from its start, whatever the cursor
    /// was. The last token is `EOF`, and no other is. Each token spans its
    /// lexeme: its line, column and length are those of the stretch of the
    /// text from which it was scanned.
    pub fn tokenize(&mut self) -> (tokens: Vec<Token>)
        ensures
            final(self).source() == old(self).source(),
            views_of(tokens@) == tokens_of(old(self).source()),
            tokens.len() >= 1,
            tokens[tokens.len() - 1].ty@ is EOF,
            forall|j: int| 0 <= j < tokens.len() - 1 ==> !((#[trigger] tokens[j]).ty@ is EOF),
            starts_from(old(self).source(), 0).len() == tokens.len(),
            forall|j: int|
                0 <= j < tokens.len() ==> spans(
                    old(self).source(),
                    starts_from(old(self).source(), 0)[j],
                    (#[trigger] tokens[j])@,
                ),
    {
        proof {
            reveal(TokenType::view);
            use_type_invariant(&*self);
        }
        let mut tokens: Vec<Token> = Vec::new();
        self.pos_line = 1;
        self.pos_col = 1;
        self.cur_idx = 0;
        assert(views_of(tokens@) =~= Seq::empty());
        while self.cur_idx < self.source.len()
            invariant
                self.source() == old(self).source(),
                self.source.len() < usize::MAX,
                self.cur_idx <= self.source.len(),
                1 <= self.pos_line <= self.cur_idx + 1,
                1 <= self.pos_col <= self.cur_idx + 1,
                views_of(tokens@) + tokens_from(
                    self.source@,
                    self.cur_idx as int,
                    self.pos_line as nat,
                    self.pos_col as nat,
                ) == tokens_of(self.source@),
            decreases self.source.len() - self.cur_idx,
        {
            proof {
                lemma_token_nonempty(self.source@, self.cur_idx as int);
            }
            let c = self.source[self.cur_idx];
            if char_is_space(c) {
                self.cur_idx += 1;
                if c.ch == '\n' {
                    self.pos_line += 1;
                    self.pos_col = 1;
                } else {
                    self.pos_col += 1;
                }
            } else {
                let ghost rest = tokens_from(
                    self.source@,
                    self.cur_idx as int,
                    self.pos_line as nat,
                    self.pos_col as nat,
                );
                let (ty, len) = scan_token(&self.token_dict, &self.source, self.cur_idx);
                let token = Token::new(self.pos_line, self.pos_col, len, ty);
                self.cur_idx += len;
                self.pos_col += len;
                let ghost before = views_of(tokens@);
                tokens.push(token);
                proof {
                    let after = tokens_from(
                        self.source@,
                        self.cur_idx as int,
                        self.pos_line as nat,
                        self.pos_col as nat,
                    );
                    assert(rest == seq![token@] + after);
                    assert(views_of(tokens@) =~= before.push(token@));
                    assert(before.push(token@) + after =~= before + (seq![token@] + after));
                }
            }
        }
        let eof = Token::new(self.pos_line, self.pos_col, 0, TokenType::EOF);
        let ghost before = views_of(tokens@);
        tokens.push(eof);
        assert(views_of(tokens@) =~= before + seq![eof@]);
        proof {
            lemma_tokens_end_with_eof(self.source@, 0, 1, 1);
            lemma_tokens_span_lexemes(self.source@);
            assert forall|j: int| 0 <= j < tokens.len() implies (#[trigger] tokens[j])@
                == tokens_of(self.source@)[j] by {
                assert(views_of(tokens@)[j] == tokens[j]@);
            }
        }
        tokens
    }
}

} // verus!
