use vstd::prelude::*;

verus! {

/// What went wrong in a parse.
#[derive(Debug, Clone, Copy, PartialEq, Eq, Structural)]
pub enum ErrKind {
    /// A token is there, but not one that may stand at that place.
    UnexpectedToken,
    InvalidPattern,
    InvalidExpression,
    InvalidDeclaration,
    /// The input ended where a token was required.
    UnexpectedEOF,
}

/// The words for an error kind.
pub open spec fn kind_label(kind: ErrKind) -> Seq<char> {
    match kind {
        ErrKind::UnexpectedToken => "Unexpected token"@,
        ErrKind::InvalidPattern => "Invalid pattern"@,
        ErrKind::InvalidExpression => "Invalid expression"@,
        ErrKind::InvalidDeclaration => "Invalid declaration"@,
        ErrKind::UnexpectedEOF => "Unexpected end of file"@,
    }
}

impl ErrKind {
    /// The kind in words.
    pub fn to_string(&self) -> (r: String)
        ensures
            r@ == kind_label(*self),
    {
        match self {
            ErrKind::UnexpectedToken => String::from_str("Unexpected token"),
            ErrKind::InvalidPattern => String::from_str("Invalid pattern"),
            ErrKind::InvalidExpression => String::from_str("Invalid expression"),
            ErrKind::InvalidDeclaration => String::from_str("Invalid declaration"),
            ErrKind::UnexpectedEOF => String::from_str("Unexpected end of file"),
        }
    }
}

/// The numeral for a single decimal digit.
pub open spec fn digit_text(d: nat) -> Seq<char>
    recommends
        d < 10,
{
    if d == 0 {
        "0"@
    } else if d == 1 {
        "1"@
    } else if d == 2 {
        "2"@
    } else if d == 3 {
        "3"@
    } else if d == 4 {
        "4"@
    } else if d == 5 {
        "5"@
    } else if d == 6 {
        "6"@
    } else if d == 7 {
        "7"@
    } else if d == 8 {
        "8"@
    } else {
        "9"@
    }
}

/// A natural number written in decimal, without leading zeros.
pub open spec fn decimal_text(n: nat) -> Seq<char>
    decreases n,
{
    if n < 10 {
        digit_text(n)
    } else {
        decimal_text(n / 10) + digit_text(n % 10)
    }
}

/// The numeral for a single decimal digit.
fn digit_str(d: usize) -> (r: &'static str)
    requires
        d < 10,
    ensures
        r@ == digit_text(d as nat),
{
    if d == 0 {
        "0"
    } else if d == 1 {
        "1"
    } else if d == 2 {
        "2"
    } else if d == 3 {
        "3"
    } else if d == 4 {
        "4"
    } else if d == 5 {
        "5"
    } else if d == 6 {
        "6"
    } else if d == 7 {
        "7"
    } else if d == 8 {
        "8"
    } else {
        "9"
    }
}

/// Writes `n` in decimal.
pub fn decimal_string(n: usize) -> (r: String)
    ensures
        r@ == decimal_text(n as nat),
    decreases n,
{
    if n < 10 {
        String::from_str(digit_str(n))
    } else {
        let mut out = decimal_string(n / 10);
        out.append(digit_str(n % 10));
        out
    }
}

/// A failed parse: what went wrong, a message for a person, and the index of
/// the token at which the failing rule began.
#[derive(Debug)]
pub struct ParseError {
    pub kind: ErrKind,
    pub msg: String,
    pub pos: Option<usize>,
}

/// The mathematical value of a [`ParseError`].
pub struct ErrorView {
    pub kind: ErrKind,
    pub msg: Seq<char>,
    pub pos: Option<nat>,
}

/// How a position reads in a rendered error.
pub open spec fn position_text(pos: Option<nat>) -> Seq<char> {
    match pos {
        Some(p) => decimal_text(p),
        None => "unknown"@,
    }
}

/// An error as one line of text.
pub open spec fn error_text(e: ErrorView) -> Seq<char> {
    "ParseError: "@ + kind_label(e.kind) + " - "@ + e.msg + " (position: "@ + position_text(e.pos)
        + ")"@
}

impl ParseError {
    /// The error as a mathematical value.
    pub open spec fn view(&self) -> ErrorView {
        ErrorView {
            kind: self.kind,
            msg: self.msg@,
            pos: match self.pos {
                Some(p) => Some(p as nat),
                None => None,
            },
        }
    }

    /// An error of the given kind, with a message and, where it is known, the
    /// index of a token.
    pub fn new(kind: ErrKind, msg: String, pos: Option<usize>) -> (r: Self)
        ensures
            r.kind == kind,
            r.msg == msg,
            r.pos == pos,
    {
        ParseError { kind, msg, pos }
    }

    /// An error of the given kind at the token of index `pos`.
    pub fn with_pos(kind: ErrKind, msg: String, pos: usize) -> (r: Self)
        ensures
            r.kind == kind,
            r.msg == msg,
            r.pos == Some(pos),
    {
        ParseError { kind, msg, pos: Some(pos) }
    }

    /// The error as one line of text.
    pub fn to_string(&self) -> (r: String)
        ensures
            r@ == error_text(self@),
    {
        let mut out = String::from_str("ParseError: ");
        let label = self.kind.to_string();
        out.append(label.as_str());
        out.append(" - ");
        out.append(self.msg.as_str());
        out.append(" (position: ");
        match self.pos {
            Some(p) => {
                let digits = decimal_string(p);
                out.append(digits.as_str());
            },
            None => {
                out.append("unknown");
            },
        }
        out.append(")");
        out
    }
}

impl Clone for ParseError {
    fn clone(&self) -> (r: Self)
        ensures
            r@ == self@,
    {
        ParseError { kind: self.kind, msg: self.msg.clone(), pos: self.pos }
    }
}

} // verus!
