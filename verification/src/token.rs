use vstd::prelude::*;

verus! {

/// The kind of a token, with the text of a literal or identifier as a `String`.
///
/// Kinds with a fixed lexeme carry nothing; [`vocabulary`] lists their lexemes.
#[derive(Debug)]
pub enum TokenType {
    // Keywords
    /// `let`
    Let,
    /// `fun`
    Fun,
    /// `in`
    In,
    /// `end`
    End,
    /// `case`
    Case,
    /// `of`
    Of,
    /// `val`
    Val,
    /// `type`
    Type,
    /// `nil`
    Nil,
    /// `none`
    KwNone,
    /// `some`
    KwSome,
    // Names of the built-in types
    /// `int`
    TypeInt,
    /// `bool`
    TypeBool,
    /// `char`
    TypeChar,
    /// `string`
    TypeString,
    // Conditionals
    /// `if`
    If,
    /// `then`
    Then,
    /// `else`
    Else,
    // Syntactic elements
    /// `->`
    Arrow,
    /// `(`
    LeftParen,
    /// `)`
    RightParen,
    /// `[`
    LeftBracket,
    /// `]`
    RightBracket,
    /// `=`
    Equal,
    /// `=>`
    FatArrow,
    /// `,`
    Comma,
    /// `|`
    Bar,
    /// `::`
    Cons,
    /// `:`
    Colon,
    /// `;`
    SemiColon,
    /// `'`
    SingleQuote,
    /// `_`
    Wildcard,
    // Operators
    /// `+`
    Plus,
    /// `-`
    Minus,
    /// `*`
    Multiply,
    /// `/`
    Divide,
    /// `<`
    StrictLess,
    /// `<=`
    Less,
    /// `>`
    StrictGreater,
    /// `>=`
    Greater,
    /// `<>`
    CompNotEqual,
    // Tokens that carry their text
    Id(String),
    Bool(String),
    Integer(String),
    Float(String),
    String(String),
    /// End of input; the last token of every stream.
    EOF,
    /// A character that starts no token.
    Error,
}

/// The mathematical value of a [`TokenType`]: the same kinds, with text as a
/// sequence of characters.
pub enum TokenKind {
    Let,
    Fun,
    In,
    End,
    Case,
    Of,
    Val,
    Type,
    Nil,
    KwNone,
    KwSome,
    TypeInt,
    TypeBool,
    TypeChar,
    TypeString,
    If,
    Then,
    Else,
    Arrow,
    LeftParen,
    RightParen,
    LeftBracket,
    RightBracket,
    Equal,
    FatArrow,
    Comma,
    Bar,
    Cons,
    Colon,
    SemiColon,
    SingleQuote,
    Wildcard,
    Plus,
    Minus,
    Multiply,
    Divide,
    StrictLess,
    Less,
    StrictGreater,
    Greater,
    CompNotEqual,
    Id(Seq<char>),
    Bool(Seq<char>),
    Integer(Seq<char>),
    Float(Seq<char>),
    String(Seq<char>),
    EOF,
    Error,
}

/// The name under which a kind appears in messages.
pub open spec fn kind_name(kind: TokenKind) -> Seq<char> {
    match kind {
        TokenKind::Let => "Let"@,
        TokenKind::Fun => "Fun"@,
        TokenKind::In => "In"@,
        TokenKind::End => "End"@,
        TokenKind::Case => "Case"@,
        TokenKind::Of => "Of"@,
        TokenKind::Val => "Val"@,
        TokenKind::Type => "Type"@,
        TokenKind::Nil => "Nil"@,
        TokenKind::KwNone => "KwNone"@,
        TokenKind::KwSome => "KwSome"@,
        TokenKind::TypeInt => "TypeInt"@,
        TokenKind::TypeBool => "TypeBool"@,
        TokenKind::TypeChar => "TypeChar"@,
        TokenKind::TypeString => "TypeString"@,
        TokenKind::If => "If"@,
        TokenKind::Then => "Then"@,
        TokenKind::Else => "Else"@,
        TokenKind::Arrow => "Arrow"@,
        TokenKind::LeftParen => "LeftParen"@,
        TokenKind::RightParen => "RightParen"@,
        TokenKind::LeftBracket => "LeftBracket"@,
        TokenKind::RightBracket => "RightBracket"@,
        TokenKind::Equal => "Equal"@,
        TokenKind::FatArrow => "FatArrow"@,
        TokenKind::Comma => "Comma"@,
        TokenKind::Bar => "Bar"@,
        TokenKind::Cons => "Cons"@,
        TokenKind::Colon => "Colon"@,
        TokenKind::SemiColon => "SemiColon"@,
        TokenKind::SingleQuote => "SingleQuote"@,
        TokenKind::Wildcard => "Wildcard"@,
        TokenKind::Plus => "Plus"@,
        TokenKind::Minus => "Minus"@,
        TokenKind::Multiply => "Multiply"@,
        TokenKind::Divide => "Divide"@,
        TokenKind::StrictLess => "StrictLess"@,
        TokenKind::Less => "Less"@,
        TokenKind::StrictGreater => "StrictGreater"@,
        TokenKind::Greater => "Greater"@,
        TokenKind::CompNotEqual => "CompNotEqual"@,
        TokenKind::Id(_) => "Id"@,
        TokenKind::Bool(_) => "Bool"@,
        TokenKind::Integer(_) => "Integer"@,
        TokenKind::Float(_) => "Float"@,
        TokenKind::String(_) => "String"@,
        TokenKind::EOF => "EOF"@,
        TokenKind::Error => "Error"@,
    }
}

/// The text that a kind carries, if it carries any.
pub open spec fn kind_text(kind: TokenKind) -> Option<Seq<char>> {
    match kind {
        TokenKind::Id(s) => Some(s),
        TokenKind::Bool(s) => Some(s),
        TokenKind::Integer(s) => Some(s),
        TokenKind::Float(s) => Some(s),
        TokenKind::String(s) => Some(s),
        _ => None,
    }
}

/// Whether `kind` is the same variant as `ty` and carries the same text:
/// what the value of a token type is, variant by variant.
pub open spec fn mirrors(ty: TokenType, kind: TokenKind) -> bool {
    &&& (ty is Let) == (kind is Let)
    &&& (ty is Fun) == (kind is Fun)
    &&& (ty is In) == (kind is In)
    &&& (ty is End) == (kind is End)
    &&& (ty is Case) == (kind is Case)
    &&& (ty is Of) == (kind is Of)
    &&& (ty is Val) == (kind is Val)
    &&& (ty is Type) == (kind is Type)
    &&& (ty is Nil) == (kind is Nil)
    &&& (ty is KwNone) == (kind is KwNone)
    &&& (ty is KwSome) == (kind is KwSome)
    &&& (ty is TypeInt) == (kind is TypeInt)
    &&& (ty is TypeBool) == (kind is TypeBool)
    &&& (ty is TypeChar) == (kind is TypeChar)
    &&& (ty is TypeString) == (kind is TypeString)
    &&& (ty is If) == (kind is If)
    &&& (ty is Then) == (kind is Then)
    &&& (ty is Else) == (kind is Else)
    &&& (ty is Arrow) == (kind is Arrow)
    &&& (ty is LeftParen) == (kind is LeftParen)
    &&& (ty is RightParen) == (kind is RightParen)
    &&& (ty is LeftBracket) == (kind is LeftBracket)
    &&& (ty is RightBracket) == (kind is RightBracket)
    &&& (ty is Equal) == (kind is Equal)
    &&& (ty is FatArrow) == (kind is FatArrow)
    &&& (ty is Comma) == (kind is Comma)
    &&& (ty is Bar) == (kind is Bar)
    &&& (ty is Cons) == (kind is Cons)
    &&& (ty is Colon) == (kind is Colon)
    &&& (ty is SemiColon) == (kind is SemiColon)
    &&& (ty is SingleQuote) == (kind is SingleQuote)
    &&& (ty is Wildcard) == (kind is Wildcard)
    &&& (ty is Plus) == (kind is Plus)
    &&& (ty is Minus) == (kind is Minus)
    &&& (ty is Multiply) == (kind is Multiply)
    &&& (ty is Divide) == (kind is Divide)
    &&& (ty is StrictLess) == (kind is StrictLess)
    &&& (ty is Less) == (kind is Less)
    &&& (ty is StrictGreater) == (kind is StrictGreater)
    &&& (ty is Greater) == (kind is Greater)
    &&& (ty is CompNotEqual) == (kind is CompNotEqual)
    &&& (ty is Id) == (kind is Id)
    &&& (ty is Id) ==> kind->Id_0 == ty->Id_0@
    &&& (ty is Bool) == (kind is Bool)
    &&& (ty is Bool) ==> kind->Bool_0 == ty->Bool_0@
    &&& (ty is Integer) == (kind is Integer)
    &&& (ty is Integer) ==> kind->Integer_0 == ty->Integer_0@
    &&& (ty is Float) == (kind is Float)
    &&& (ty is Float) ==> kind->Float_0 == ty->Float_0@
    &&& (ty is String) == (kind is String)
    &&& (ty is String) ==> kind->String_0 == ty->String_0@
    &&& (ty is EOF) == (kind is EOF)
    &&& (ty is Error) == (kind is Error)
}

/// How a kind reads in a message: its name, followed by its text in
/// parentheses and double quotes where it carries one, as in `Id("x")`.
pub open spec fn kind_description(kind: TokenKind) -> Seq<char> {
    match kind_text(kind) {
        Some(s) => kind_name(kind) + "(\""@ + s + "\")"@,
        None => kind_name(kind),
    }
}

/// The lexemes of the keywords.
pub open spec fn keywords() -> Seq<(Seq<char>, TokenKind)> {
    seq![
        ("let"@, TokenKind::Let),
        ("fun"@, TokenKind::Fun),
        ("in"@, TokenKind::In),
        ("end"@, TokenKind::End),
        ("case"@, TokenKind::Case),
        ("of"@, TokenKind::Of),
        ("val"@, TokenKind::Val),
        ("type"@, TokenKind::Type),
        ("nil"@, TokenKind::Nil),
        ("none"@, TokenKind::KwNone),
        ("some"@, TokenKind::KwSome),
        ("if"@, TokenKind::If),
        ("then"@, TokenKind::Then),
        ("else"@, TokenKind::Else),
    ]
}

/// The names of the built-in types.
pub open spec fn type_names() -> Seq<(Seq<char>, TokenKind)> {
    seq![
        ("int"@, TokenKind::TypeInt),
        ("bool"@, TokenKind::TypeBool),
        ("char"@, TokenKind::TypeChar),
        ("string"@, TokenKind::TypeString),
    ]
}

/// The lexemes of the syntactic elements.
pub open spec fn symbols() -> Seq<(Seq<char>, TokenKind)> {
    seq![
        ("->"@, TokenKind::Arrow),
        ("("@, TokenKind::LeftParen),
        (")"@, TokenKind::RightParen),
        ("["@, TokenKind::LeftBracket),
        ("]"@, TokenKind::RightBracket),
        ("="@, TokenKind::Equal),
        ("=>"@, TokenKind::FatArrow),
        (","@, TokenKind::Comma),
        ("|"@, TokenKind::Bar),
        ("::"@, TokenKind::Cons),
        (":"@, TokenKind::Colon),
        (";"@, TokenKind::SemiColon),
        ("'"@, TokenKind::SingleQuote),
        ("_"@, TokenKind::Wildcard),
    ]
}

/// The lexemes of the operators.
pub open spec fn operators() -> Seq<(Seq<char>, TokenKind)> {
    seq![
        ("+"@, TokenKind::Plus),
        ("-"@, TokenKind::Minus),
        ("*"@, TokenKind::Multiply),
        ("/"@, TokenKind::Divide),
        ("<"@, TokenKind::StrictLess),
        ("<="@, TokenKind::Less),
        (">"@, TokenKind::StrictGreater),
        (">="@, TokenKind::Greater),
        ("<>"@, TokenKind::CompNotEqual),
    ]
}

/// The boolean literals.
pub open spec fn booleans() -> Seq<(Seq<char>, TokenKind)> {
    seq![("true"@, TokenKind::Bool("true"@)), ("false"@, TokenKind::Bool("false"@))]
}

/// The fixed vocabulary: every lexeme that stands for a token kind by itself,
/// in the order in which the table is filled.
pub open spec fn vocabulary() -> Seq<(Seq<char>, TokenKind)> {
    keywords() + type_names() + symbols() + operators() + booleans()
}

impl TokenType {
    /// The kind as a mathematical value.
    #[verifier::opaque]
    pub open spec fn view(&self) -> TokenKind {
        match self {
            TokenType::Let => TokenKind::Let,
            TokenType::Fun => TokenKind::Fun,
            TokenType::In => TokenKind::In,
            TokenType::End => TokenKind::End,
            TokenType::Case => TokenKind::Case,
            TokenType::Of => TokenKind::Of,
            TokenType::Val => TokenKind::Val,
            TokenType::Type => TokenKind::Type,
            TokenType::Nil => TokenKind::Nil,
            TokenType::KwNone => TokenKind::KwNone,
            TokenType::KwSome => TokenKind::KwSome,
            TokenType::TypeInt => TokenKind::TypeInt,
            TokenType::TypeBool => TokenKind::TypeBool,
            TokenType::TypeChar => TokenKind::TypeChar,
            TokenType::TypeString => TokenKind::TypeString,
            TokenType::If => TokenKind::If,
            TokenType::Then => TokenKind::Then,
            TokenType::Else => TokenKind::Else,
            TokenType::Arrow => TokenKind::Arrow,
            TokenType::LeftParen => TokenKind::LeftParen,
            TokenType::RightParen => TokenKind::RightParen,
            TokenType::LeftBracket => TokenKind::LeftBracket,
            TokenType::RightBracket => TokenKind::RightBracket,
            TokenType::Equal => TokenKind::Equal,
            TokenType::FatArrow => TokenKind::FatArrow,
            TokenType::Comma => TokenKind::Comma,
            TokenType::Bar => TokenKind::Bar,
            TokenType::Cons => TokenKind::Cons,
            TokenType::Colon => TokenKind::Colon,
            TokenType::SemiColon => TokenKind::SemiColon,
            TokenType::SingleQuote => TokenKind::SingleQuote,
            TokenType::Wildcard => TokenKind::Wildcard,
            TokenType::Plus => TokenKind::Plus,
            TokenType::Minus => TokenKind::Minus,
            TokenType::Multiply => TokenKind::Multiply,
            TokenType::Divide => TokenKind::Divide,
            TokenType::StrictLess => TokenKind::StrictLess,
            TokenType::Less => TokenKind::Less,
            TokenType::StrictGreater => TokenKind::StrictGreater,
            TokenType::Greater => TokenKind::Greater,
            TokenType::CompNotEqual => TokenKind::CompNotEqual,
            TokenType::Id(s) => TokenKind::Id(s@),
            TokenType::Bool(s) => TokenKind::Bool(s@),
            TokenType::Integer(s) => TokenKind::Integer(s@),
            TokenType::Float(s) => TokenKind::Float(s@),
            TokenType::String(s) => TokenKind::String(s@),
            TokenType::EOF => TokenKind::EOF,
            TokenType::Error => TokenKind::Error,
        }
    }

    /// The name of the kind, as messages show it.
    pub fn name(&self) -> (r: &'static str)
        ensures
            r@ == kind_name(self@),
    {
        proof {
            reveal(TokenType::view);
        }
        match self {
            TokenType::Let => "Let",
            TokenType::Fun => "Fun",
            TokenType::In => "In",
            TokenType::End => "End",
            TokenType::Case => "Case",
            TokenType::Of => "Of",
            TokenType::Val => "Val",
            TokenType::Type => "Type",
            TokenType::Nil => "Nil",
            TokenType::KwNone => "KwNone",
            TokenType::KwSome => "KwSome",
            TokenType::TypeInt => "TypeInt",
            TokenType::TypeBool => "TypeBool",
            TokenType::TypeChar => "TypeChar",
            TokenType::TypeString => "TypeString",
            TokenType::If => "If",
            TokenType::Then => "Then",
            TokenType::Else => "Else",
            TokenType::Arrow => "Arrow",
            TokenType::LeftParen => "LeftParen",
            TokenType::RightParen => "RightParen",
            TokenType::LeftBracket => "LeftBracket",
            TokenType::RightBracket => "RightBracket",
            TokenType::Equal => "Equal",
            TokenType::FatArrow => "FatArrow",
            TokenType::Comma => "Comma",
            TokenType::Bar => "Bar",
            TokenType::Cons => "Cons",
            TokenType::Colon => "Colon",
            TokenType::SemiColon => "SemiColon",
            TokenType::SingleQuote => "SingleQuote",
            TokenType::Wildcard => "Wildcard",
            TokenType::Plus => "Plus",
            TokenType::Minus => "Minus",
            TokenType::Multiply => "Multiply",
            TokenType::Divide => "Divide",
            TokenType::StrictLess => "StrictLess",
            TokenType::Less => "Less",
            TokenType::StrictGreater => "StrictGreater",
            TokenType::Greater => "Greater",
            TokenType::CompNotEqual => "CompNotEqual",
            TokenType::Id(_) => "Id",
            TokenType::Bool(_) => "Bool",
            TokenType::Integer(_) => "Integer",
            TokenType::Float(_) => "Float",
            TokenType::String(_) => "String",
            TokenType::EOF => "EOF",
            TokenType::Error => "Error",
        }
    }

    /// The text of an identifier or literal token.
    pub fn text(&self) -> (r: Option<&String>)
        ensures
            match r {
                Some(s) => kind_text(self@) == Some(s@),
                None => kind_text(self@) is None,
            },
    {
        proof {
            reveal(TokenType::view);
        }
        match self {
            TokenType::Id(s) => Some(s),
            TokenType::Bool(s) => Some(s),
            TokenType::Integer(s) => Some(s),
            TokenType::Float(s) => Some(s),
            TokenType::String(s) => Some(s),
            _ => None,
        }
    }

    /// The kind as it reads in a message.
    pub fn describe(&self) -> (r: String)
        ensures
            r@ == kind_description(self@),
    {
        let mut out = String::from_str(self.name());
        match self.text() {
            Some(s) => {
                out.append("(\"");
                out.append(s.as_str());
                out.append("\")");
                assert(out@ =~= kind_name(self@) + "(\""@ + s@ + "\")"@);
            },
            None => {},
        }
        out
    }

    /// Whether the kind is `EOF`.
    pub fn is_eof(&self) -> (r: bool)
        ensures
            r == (self@ is EOF),
    {
        proof {
            reveal(TokenType::view);
        }
        match self {
            TokenType::EOF => true,
            _ => false,
        }
    }
}

impl Clone for TokenType {
    fn clone(&self) -> (r: Self)
        ensures
            r@ == self@,
    {
        proof {
            reveal(TokenType::view);
        }
        match self {
            TokenType::Let => TokenType::Let,
            TokenType::Fun => TokenType::Fun,
            TokenType::In => TokenType::In,
            TokenType::End => TokenType::End,
            TokenType::Case => TokenType::Case,
            TokenType::Of => TokenType::Of,
            TokenType::Val => TokenType::Val,
            TokenType::Type => TokenType::Type,
            TokenType::Nil => TokenType::Nil,
            TokenType::KwNone => TokenType::KwNone,
            TokenType::KwSome => TokenType::KwSome,
            TokenType::TypeInt => TokenType::TypeInt,
            TokenType::TypeBool => TokenType::TypeBool,
            TokenType::TypeChar => TokenType::TypeChar,
            TokenType::TypeString => TokenType::TypeString,
            TokenType::If => TokenType::If,
            TokenType::Then => TokenType::Then,
            TokenType::Else => TokenType::Else,
            TokenType::Arrow => TokenType::Arrow,
            TokenType::LeftParen => TokenType::LeftParen,
            TokenType::RightParen => TokenType::RightParen,
            TokenType::LeftBracket => TokenType::LeftBracket,
            TokenType::RightBracket => TokenType::RightBracket,
            TokenType::Equal => TokenType::Equal,
            TokenType::FatArrow => TokenType::FatArrow,
            TokenType::Comma => TokenType::Comma,
            TokenType::Bar => TokenType::Bar,
            TokenType::Cons => TokenType::Cons,
            TokenType::Colon => TokenType::Colon,
            TokenType::SemiColon => TokenType::SemiColon,
            TokenType::SingleQuote => TokenType::SingleQuote,
            TokenType::Wildcard => TokenType::Wildcard,
            TokenType::Plus => TokenType::Plus,
            TokenType::Minus => TokenType::Minus,
            TokenType::Multiply => TokenType::Multiply,
            TokenType::Divide => TokenType::Divide,
            TokenType::StrictLess => TokenType::StrictLess,
            TokenType::Less => TokenType::Less,
            TokenType::StrictGreater => TokenType::StrictGreater,
            TokenType::Greater => TokenType::Greater,
            TokenType::CompNotEqual => TokenType::CompNotEqual,
            TokenType::Id(s) => TokenType::Id(s.clone()),
            TokenType::Bool(s) => TokenType::Bool(s.clone()),
            TokenType::Integer(s) => TokenType::Integer(s.clone()),
            TokenType::Float(s) => TokenType::Float(s.clone()),
            TokenType::String(s) => TokenType::String(s.clone()),
            TokenType::EOF => TokenType::EOF,
            TokenType::Error => TokenType::Error,
        }
    }
}

impl PartialEq for TokenType {
    fn eq(&self, other: &TokenType) -> (r: bool) {
        proof {
            reveal(TokenType::view);
        }
        match self {
            TokenType::Let => matches!(other, TokenType::Let),
            TokenType::Fun => matches!(other, TokenType::Fun),
            TokenType::In => matches!(other, TokenType::In),
            TokenType::End => matches!(other, TokenType::End),
            TokenType::Case => matches!(other, TokenType::Case),
            TokenType::Of => matches!(other, TokenType::Of),
            TokenType::Val => matches!(other, TokenType::Val),
            TokenType::Type => matches!(other, TokenType::Type),
            TokenType::Nil => matches!(other, TokenType::Nil),
            TokenType::KwNone => matches!(other, TokenType::KwNone),
            TokenType::KwSome => matches!(other, TokenType::KwSome),
            TokenType::TypeInt => matches!(other, TokenType::TypeInt),
            TokenType::TypeBool => matches!(other, TokenType::TypeBool),
            TokenType::TypeChar => matches!(other, TokenType::TypeChar),
            TokenType::TypeString => matches!(other, TokenType::TypeString),
            TokenType::If => matches!(other, TokenType::If),
            TokenType::Then => matches!(other, TokenType::Then),
            TokenType::Else => matches!(other, TokenType::Else),
            TokenType::Arrow => matches!(other, TokenType::Arrow),
            TokenType::LeftParen => matches!(other, TokenType::LeftParen),
            TokenType::RightParen => matches!(other, TokenType::RightParen),
            TokenType::LeftBracket => matches!(other, TokenType::LeftBracket),
            TokenType::RightBracket => matches!(other, TokenType::RightBracket),
            TokenType::Equal => matches!(other, TokenType::Equal),
            TokenType::FatArrow => matches!(other, TokenType::FatArrow),
            TokenType::Comma => matches!(other, TokenType::Comma),
            TokenType::Bar => matches!(other, TokenType::Bar),
            TokenType::Cons => matches!(other, TokenType::Cons),
            TokenType::Colon => matches!(other, TokenType::Colon),
            TokenType::SemiColon => matches!(other, TokenType::SemiColon),
            TokenType::SingleQuote => matches!(other, TokenType::SingleQuote),
            TokenType::Wildcard => matches!(other, TokenType::Wildcard),
            TokenType::Plus => matches!(other, TokenType::Plus),
            TokenType::Minus => matches!(other, TokenType::Minus),
            TokenType::Multiply => matches!(other, TokenType::Multiply),
            TokenType::Divide => matches!(other, TokenType::Divide),
            TokenType::StrictLess => matches!(other, TokenType::StrictLess),
            TokenType::Less => matches!(other, TokenType::Less),
            TokenType::StrictGreater => matches!(other, TokenType::StrictGreater),
            TokenType::Greater => matches!(other, TokenType::Greater),
            TokenType::CompNotEqual => matches!(other, TokenType::CompNotEqual),
            TokenType::Id(a) => match other {
                TokenType::Id(b) => *a == *b,
                _ => false,
            },
            TokenType::Bool(a) => match other {
                TokenType::Bool(b) => *a == *b,
                _ => false,
            },
            TokenType::Integer(a) => match other {
                TokenType::Integer(b) => *a == *b,
                _ => false,
            },
            TokenType::Float(a) => match other {
                TokenType::Float(b) => *a == *b,
                _ => false,
            },
            TokenType::String(a) => match other {
                TokenType::String(b) => *a == *b,
                _ => false,
            },
            TokenType::EOF => matches!(other, TokenType::EOF),
            TokenType::Error => matches!(other, TokenType::Error),
        }
    }
}

impl vstd::std_specs::cmp::PartialEqSpecImpl for TokenType {
    open spec fn obeys_eq_spec() -> bool {
        true
    }

    open spec fn eq_spec(&self, other: &TokenType) -> bool {
        self@ == other@
    }
}

impl Eq for TokenType {}

/// A token: a kind and the place of its lexeme in the source.
///
/// `line` and `col` count from 1 and give the start of the lexeme; `len` is
/// the number of characters it spans.
#[derive(Debug)]
pub struct Token {
    pub line: usize,
    pub col: usize,
    pub len: usize,
    pub ty: TokenType,
}

/// The mathematical value of a [`Token`].
pub struct TokenView {
    pub line: nat,
    pub col: nat,
    pub len: nat,
    pub kind: TokenKind,
}

impl Token {
    /// The token as a mathematical value.
    pub open spec fn view(&self) -> TokenView {
        TokenView { line: self.line as nat, col: self.col as nat, len: self.len as nat, kind: self.ty@ }
    }

    /// A token of kind `ty` whose lexeme starts at `line` and `col` and spans
    /// `len` characters.
    pub fn new(line: usize, col: usize, len: usize, ty: TokenType) -> (r: Self)
        ensures
            r.line == line,
            r.col == col,
            r.len == len,
            r.ty == ty,
    {
        Token { line, col, len, ty }
    }
}

impl Clone for Token {
    fn clone(&self) -> (r: Self)
        ensures
            r@ == self@,
    {
        Token { line: self.line, col: self.col, len: self.len, ty: self.ty.clone() }
    }
}

impl PartialEq for Token {
    fn eq(&self, other: &Token) -> (r: bool) {
        self.line == other.line && self.col == other.col && self.len == other.len
            && self.ty == other.ty
    }
}

impl vstd::std_specs::cmp::PartialEqSpecImpl for Token {
    open spec fn obeys_eq_spec() -> bool {
        true
    }

    open spec fn eq_spec(&self, other: &Token) -> bool {
        self@ == other@
    }
}

/// A token type and its value are the same variant and carry the same text.
pub broadcast proof fn lemma_view_mirrors(ty: TokenType)
    ensures
        mirrors(ty, #[trigger] ty@),
{
    reveal(TokenType::view);
}

/// The kinds of a sequence of tokens, in order.
pub open spec fn kinds_of(tokens: Seq<Token>) -> Seq<TokenKind> {
    Seq::new(tokens.len(), |i: int| tokens[i].ty@)
}

/// The values of a sequence of tokens, in order.
pub open spec fn views_of(tokens: Seq<Token>) -> Seq<TokenView> {
    Seq::new(tokens.len(), |i: int| tokens[i]@)
}

} // verus!
