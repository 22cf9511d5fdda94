//! The grammar, as functions from a token sequence and a position to what
//! stands there.
//!
//! Each rule `r_at(toks, pos)` gives either `Ok((value, n))`, where the rule
//! matches the `n` tokens from `pos` on and `value` is what they denote, or
//! the error of the first token that fits no alternative. Rules look ahead by
//! one token and never go back: the first error is the result.
//!
//! ```text
//! Program   := Decls+
//! Decls     := Decl (';' Decl)*
//! Decl      := 'val' Pattern (':' Type)? '=' Expr
//!            | 'fun' Identifier MatchArms (':' Type)?
//! Expr      := 'if' Expr 'then' Expr 'else' Expr
//!            | 'let' Decl 'in' Expr 'end'
//!            | 'fun' MatchArms
//!            | CompExpr
//! CompExpr  := AddExpr (CompOp AddExpr)*
//! AddExpr   := MulExpr (('+' | '-') MulExpr)*
//! MulExpr   := AppExpr (('*' | '/') AppExpr)*
//! AppExpr   := Atom+
//! Atom      := literal | Identifier
//!            | '(' ')' | '(' Expr (',' Expr)* ')'
//!            | '[' ']' | '[' Expr (',' Expr)* ']'
//! MatchArms := Pattern '=>' Expr ('|' Pattern '=>' Expr)*
//! Pattern   := '_' | '(' Pattern ',' Pattern ')' | Identifier
//!            | literal | ''' Identifier
//! Type      := BaseType ('->' Type | '*' Type)?
//! BaseType  := 'int' | 'bool' | 'char' | 'string' | ''' Identifier
//!            | '(' Type ',' Type ')'
//! ```
use crate::ast::{BinOp, LiteralView, NodeView, PatternView, TypeView};
use crate::parse_error::{ErrKind, ErrorView};
use crate::token::{kind_description, TokenKind};
use vstd::prelude::*;

verus! {

/// The token at `pos`, if the sequence reaches that far.
pub open spec fn peek_at(toks: Seq<TokenKind>, pos: nat) -> Option<TokenKind> {
    if pos < toks.len() {
        Some(toks[pos as int])
    } else {
        None
    }
}

/// The number of tokens from `pos` to the end of the sequence.
pub open spec fn tokens_left(toks: Seq<TokenKind>, pos: nat) -> nat {
    if pos <= toks.len() {
        (toks.len() - pos) as nat
    } else {
        0
    }
}

/// Whether the input ends at `pos`: the sequence is over, or `EOF` stands there.
pub open spec fn at_end(toks: Seq<TokenKind>, pos: nat) -> bool {
    match peek_at(toks, pos) {
        Some(kind) => kind is EOF,
        None => true,
    }
}

/// How the token found at a place reads in a message.
pub open spec fn seen_text(seen: Option<TokenKind>) -> Seq<char> {
    match seen {
        Some(kind) => if kind is EOF {
            "EOF"@
        } else {
            kind_description(kind)
        },
        None => "EOF"@,
    }
}

/// The message of an error: what the rule needed and what it found.
pub open spec fn expected_msg(what: Seq<char>, seen: Option<TokenKind>) -> Seq<char> {
    "Expected "@ + what + ", got "@ + seen_text(seen)
}

/// The error of a rule that began at `start` and found, at `at`, a token
/// other than the `what` it needed. It is `UnexpectedEOF` where the input
/// ends at `at`, and `UnexpectedToken` otherwise.
#[verifier::opaque]
pub open spec fn mismatch(toks: Seq<TokenKind>, start: nat, at: nat, what: Seq<char>) -> ErrorView {
    ErrorView {
        kind: if at_end(toks, at) {
            ErrKind::UnexpectedEOF
        } else {
            ErrKind::UnexpectedToken
        },
        msg: expected_msg(what, peek_at(toks, at)),
        pos: Some(start),
    }
}

/// A kind as a message names it when it is the one required: its
/// description between single quotes.
pub open spec fn quoted(kind: TokenKind) -> Seq<char> {
    "'"@ + kind_description(kind) + "'"@
}

/// `None` where the token at `pos` is `expected`; otherwise the error.
pub open spec fn expect_at(toks: Seq<TokenKind>, pos: nat, expected: TokenKind) -> Option<
    ErrorView,
> {
    if peek_at(toks, pos) == Some(expected) {
        None
    } else {
        Some(mismatch(toks, pos, pos, quoted(expected)))
    }
}

// ----------------------------------------------------------------------
// Types
// ----------------------------------------------------------------------
/// `BaseType`.
pub open spec fn base_type_at(toks: Seq<TokenKind>, pos: nat) -> Result<(TypeView, nat), ErrorView>
    decreases tokens_left(toks, pos), 0nat,
{
    match peek_at(toks, pos) {
        Some(TokenKind::TypeInt) => Ok((TypeView::Int, 1)),
        Some(TokenKind::TypeBool) => Ok((TypeView::Bool, 1)),
        Some(TokenKind::TypeChar) => Ok((TypeView::Char, 1)),
        Some(TokenKind::TypeString) => Ok((TypeView::String, 1)),
        Some(TokenKind::SingleQuote) => match peek_at(toks, pos + 1) {
            Some(TokenKind::Id(name)) => Ok((TypeView::Var(name), 2)),
            _ => Err(mismatch(toks, pos, pos + 1, "an identifier for a type name"@)),
        },
        Some(TokenKind::LeftParen) => match type_at(toks, pos + 1) {
            Err(e) => Err(e),
            Ok((first, n)) => match expect_at(toks, pos + 1 + n, TokenKind::Comma) {
                Some(e) => Err(e),
                None => match type_at(toks, pos + n + 2) {
                    Err(e) => Err(e),
                    Ok((second, m)) => match expect_at(
                        toks,
                        pos + n + m + 2,
                        TokenKind::RightParen,
                    ) {
                        Some(e) => Err(e),
                        None => Ok(
                            (TypeView::Product(Box::new(first), Box::new(second)), n + m + 3),
                        ),
                    },
                },
            },
        },
        _ => Err(mismatch(toks, pos, pos, "a type"@)),
    }
}

/// `Type`: a base type, then at most one `->` or `*` with the type to its
/// right, so that both associate to the right.
pub open spec fn type_at(toks: Seq<TokenKind>, pos: nat) -> Result<(TypeView, nat), ErrorView>
    decreases tokens_left(toks, pos), 1nat,
{
    match base_type_at(toks, pos) {
        Err(e) => Err(e),
        Ok((base, n)) => match peek_at(toks, pos + n) {
            Some(TokenKind::Arrow) => match type_at(toks, pos + n + 1) {
                Err(e) => Err(e),
                Ok((codomain, m)) => Ok(
                    (TypeView::Arrow(Box::new(base), Box::new(codomain)), n + m + 1),
                ),
            },
            Some(TokenKind::Multiply) => match type_at(toks, pos + n + 1) {
                Err(e) => Err(e),
                Ok((right, m)) => Ok(
                    (TypeView::Product(Box::new(base), Box::new(right)), n + m + 1),
                ),
            },
            _ => Ok((base, n)),
        },
    }
}

/// `(':' Type)?`.
pub open spec fn annotation_at(toks: Seq<TokenKind>, pos: nat) -> Result<
    (Option<TypeView>, nat),
    ErrorView,
> {
    match peek_at(toks, pos) {
        Some(TokenKind::Colon) => match type_at(toks, pos + 1) {
            Err(e) => Err(e),
            Ok((typ, n)) => Ok((Some(typ), n + 1)),
        },
        _ => Ok((None, 0)),
    }
}

// ----------------------------------------------------------------------
// Patterns
// ----------------------------------------------------------------------
/// `Pattern`.
pub open spec fn pattern_at(toks: Seq<TokenKind>, pos: nat) -> Result<
    (PatternView, nat),
    ErrorView,
>
    decreases tokens_left(toks, pos),
{
    match peek_at(toks, pos) {
        Some(TokenKind::Wildcard) => Ok((PatternView::Wildcard, 1)),
        Some(TokenKind::Id(name)) => Ok((PatternView::Id(name), 1)),
        Some(TokenKind::Integer(_)) => Ok((PatternView::Literal, 1)),
        Some(TokenKind::Bool(_)) => Ok((PatternView::Literal, 1)),
        Some(TokenKind::String(_)) => Ok((PatternView::Literal, 1)),
        Some(TokenKind::SingleQuote) => match peek_at(toks, pos + 1) {
            Some(TokenKind::Id(name)) => Ok((PatternView::Var(name), 2)),
            _ => Err(
                mismatch(toks, pos, pos + 1, "an identifier after a single quote in a pattern"@),
            ),
        },
        Some(TokenKind::LeftParen) => match pattern_at(toks, pos + 1) {
            Err(e) => Err(e),
            Ok((first, n)) => match expect_at(toks, pos + 1 + n, TokenKind::Comma) {
                Some(e) => Err(e),
                None => match pattern_at(toks, pos + n + 2) {
                    Err(e) => Err(e),
                    Ok((second, m)) => match expect_at(
                        toks,
                        pos + n + m + 2,
                        TokenKind::RightParen,
                    ) {
                        Some(e) => Err(e),
                        None => Ok(
                            (PatternView::Pair(Box::new(first), Box::new(second)), n + m + 3),
                        ),
                    },
                },
            },
        },
        _ => Err(mismatch(toks, pos, pos, "a pattern"@)),
    }
}

// ----------------------------------------------------------------------
// Expressions and declarations
// ----------------------------------------------------------------------
/// Whether an atom can begin with this token. Juxtaposition applies a
/// function for as long as this holds of the next token.
pub open spec fn starts_atom(tok: Option<TokenKind>) -> bool {
    match tok {
        Some(TokenKind::Integer(_)) => true,
        Some(TokenKind::Bool(_)) => true,
        Some(TokenKind::String(_)) => true,
        Some(TokenKind::Id(_)) => true,
        Some(TokenKind::LeftParen) => true,
        Some(TokenKind::LeftBracket) => true,
        _ => false,
    }
}

/// The level of `*` and `/`, which bind tightest of the binary operators.
pub open spec fn mul_level() -> nat {
    1
}

/// The level of `+` and `-`.
pub open spec fn add_level() -> nat {
    2
}

/// The level of the comparisons, which bind loosest.
pub open spec fn comp_level() -> nat {
    3
}

/// The operator that a token denotes at a level, if it denotes one there.
///
/// The comparison tags go by the lexemes: `<` gives `Lt` and `<=` gives
/// `Lte`, `>` gives `Gt` and `>=` gives `Gte`. Mind the names of the token
/// kinds: `StrictLess` is `<` and `Less` is `<=`, and likewise for
/// `StrictGreater` and `Greater`.
///
/// `<>` gives `Eq`, as `=` does, so that no token gives `Neq`. This looks
/// like a slip; it is stated here as it is, for whoever gives the tags a
/// meaning.
pub open spec fn level_op(level: nat, tok: Option<TokenKind>) -> Option<BinOp> {
    if level == mul_level() {
        match tok {
            Some(TokenKind::Multiply) => Some(BinOp::Mul),
            Some(TokenKind::Divide) => Some(BinOp::Div),
            _ => None,
        }
    } else if level == add_level() {
        match tok {
            Some(TokenKind::Plus) => Some(BinOp::Add),
            Some(TokenKind::Minus) => Some(BinOp::Sub),
            _ => None,
        }
    } else if level == comp_level() {
        match tok {
            Some(TokenKind::StrictLess) => Some(BinOp::Lt),
            Some(TokenKind::Less) => Some(BinOp::Lte),
            Some(TokenKind::StrictGreater) => Some(BinOp::Gt),
            Some(TokenKind::Greater) => Some(BinOp::Gte),
            Some(TokenKind::Equal) => Some(BinOp::Eq),
            Some(TokenKind::CompNotEqual) => Some(BinOp::Eq),
            _ => None,
        }
    } else {
        None
    }
}

/// The node of a binary operation.
pub open spec fn binary(left: NodeView, op: BinOp, right: NodeView) -> NodeView {
    NodeView::BinOp { left: Box::new(left), op, right: Box::new(right) }
}

/// The node of an application.
pub open spec fn apply(func: NodeView, arg: NodeView) -> NodeView {
    NodeView::App { func: Box::new(func), arg: Box::new(arg) }
}

/// `(',' Expr)*`: the expressions that follow `items`, appended to them.
pub open spec fn items_rest(toks: Seq<TokenKind>, pos: nat, items: Seq<NodeView>) -> Result<
    (Seq<NodeView>, nat),
    ErrorView,
>
    decreases tokens_left(toks, pos), 0nat,
{
    match peek_at(toks, pos) {
        Some(TokenKind::Comma) => match expr_at(toks, pos + 1) {
            Err(e) => Err(e),
            Ok((item, n)) => match items_rest(toks, pos + 1 + n, items.push(item)) {
                Err(e) => Err(e),
                Ok((all, m)) => Ok((all, n + m + 1)),
            },
        },
        _ => Ok((items, 0)),
    }
}

/// What follows a `(`: `')'`, for the empty tuple, or `Expr (',' Expr)* ')'`.
/// Parentheses around one expression give that expression itself; around
/// two or more, they give a tuple.
pub open spec fn paren_rest(toks: Seq<TokenKind>, pos: nat) -> Result<(NodeView, nat), ErrorView>
    decreases tokens_left(toks, pos), 20nat,
{
    if peek_at(toks, pos) == Some(TokenKind::RightParen) {
        Ok((NodeView::Tuple(Seq::empty()), 1))
    } else {
        match expr_at(toks, pos) {
            Err(e) => Err(e),
            Ok((first, n)) => match items_rest(toks, pos + n, seq![first]) {
                Err(e) => Err(e),
                Ok((items, m)) => match expect_at(toks, pos + n + m, TokenKind::RightParen) {
                    Some(e) => Err(e),
                    None => if items.len() == 1 {
                        Ok((first, n + m + 1))
                    } else {
                        Ok((NodeView::Tuple(items), n + m + 1))
                    },
                },
            },
        }
    }
}

/// What follows a `[`: `']'`, for the empty list, or `Expr (',' Expr)* ']'`.
pub open spec fn list_rest(toks: Seq<TokenKind>, pos: nat) -> Result<(NodeView, nat), ErrorView>
    decreases tokens_left(toks, pos), 20nat,
{
    if peek_at(toks, pos) == Some(TokenKind::RightBracket) {
        Ok((NodeView::List(Seq::empty()), 1))
    } else {
        match expr_at(toks, pos) {
            Err(e) => Err(e),
            Ok((first, n)) => match items_rest(toks, pos + n, seq![first]) {
                Err(e) => Err(e),
                Ok((items, m)) => match expect_at(toks, pos + n + m, TokenKind::RightBracket) {
                    Some(e) => Err(e),
                    None => Ok((NodeView::List(items), n + m + 1)),
                },
            },
        }
    }
}

/// `Atom`.
pub open spec fn atom_at(toks: Seq<TokenKind>, pos: nat) -> Result<(NodeView, nat), ErrorView>
    decreases tokens_left(toks, pos), 1nat,
{
    match peek_at(toks, pos) {
        Some(TokenKind::Integer(text)) => Ok((NodeView::Literal(LiteralView::Integer(text)), 1)),
        Some(TokenKind::Bool(text)) => Ok((NodeView::Literal(LiteralView::Boolean(text)), 1)),
        Some(TokenKind::String(text)) => Ok((NodeView::Literal(LiteralView::String(text)), 1)),
        Some(TokenKind::Id(name)) => Ok((NodeView::Id(name), 1)),
        Some(TokenKind::LeftParen) => match paren_rest(toks, pos + 1) {
            Err(e) => Err(e),
            Ok((node, n)) => Ok((node, n + 1)),
        },
        Some(TokenKind::LeftBracket) => match list_rest(toks, pos + 1) {
            Err(e) => Err(e),
            Ok((node, n)) => Ok((node, n + 1)),
        },
        _ => Err(mismatch(toks, pos, pos, "an atom"@)),
    }
}

/// `Atom*` after a function: each further atom is an argument of all that
/// stands to its left.
pub open spec fn app_rest(toks: Seq<TokenKind>, pos: nat, func: NodeView) -> Result<
    (NodeView, nat),
    ErrorView,
>
    decreases tokens_left(toks, pos), 2nat,
{
    if starts_atom(peek_at(toks, pos)) {
        match atom_at(toks, pos) {
            Err(e) => Err(e),
            Ok((arg, n)) => if n == 0 {
                // No atom is empty (`lemma_atom_nonempty`): this case never arises.
                Ok((apply(func, arg), 0))
            } else {
                match app_rest(toks, pos + n, apply(func, arg)) {
                    Err(e) => Err(e),
                    Ok((node, m)) => Ok((node, n + m)),
                }
            },
        }
    } else {
        Ok((func, 0))
    }
}

/// `AppExpr`.
pub open spec fn app_at(toks: Seq<TokenKind>, pos: nat) -> Result<(NodeView, nat), ErrorView>
    decreases tokens_left(toks, pos), 3nat,
{
    match atom_at(toks, pos) {
        Err(e) => Err(e),
        Ok((func, n)) => match app_rest(toks, pos + n, func) {
            Err(e) => Err(e),
            Ok((node, m)) => Ok((node, n + m)),
        },
    }
}

/// The operators of `level` with their right operands, after a left operand:
/// each operation takes all that stands to its left as its left operand.
pub open spec fn binary_rest(toks: Seq<TokenKind>, pos: nat, level: nat, left: NodeView) -> Result<
    (NodeView, nat),
    ErrorView,
>
    decreases tokens_left(toks, pos), 2 * level + 3,
{
    match level_op(level, peek_at(toks, pos)) {
        Some(op) => match binary_at(toks, pos + 1, (level - 1) as nat) {
            Err(e) => Err(e),
            Ok((right, n)) => match binary_rest(toks, pos + 1 + n, level, binary(left, op, right)) {
                Err(e) => Err(e),
                Ok((node, m)) => Ok((node, n + m + 1)),
            },
        },
        None => Ok((left, 0)),
    }
}

/// An expression of binary operators up to `level`: `AppExpr` at level 0,
/// `MulExpr`, `AddExpr` and `CompExpr` at the three levels above it.
pub open spec fn binary_at(toks: Seq<TokenKind>, pos: nat, level: nat) -> Result<
    (NodeView, nat),
    ErrorView,
>
    decreases tokens_left(toks, pos), 2 * level + 4,
{
    if level == 0 {
        app_at(toks, pos)
    } else {
        match binary_at(toks, pos, (level - 1) as nat) {
            Err(e) => Err(e),
            Ok((left, n)) => match binary_rest(toks, pos + n, level, left) {
                Err(e) => Err(e),
                Ok((node, m)) => Ok((node, n + m)),
            },
        }
    }
}

/// What follows an `if`: `Expr 'then' Expr 'else' Expr`.
pub open spec fn cond_rest(toks: Seq<TokenKind>, pos: nat) -> Result<(NodeView, nat), ErrorView>
    decreases tokens_left(toks, pos), 20nat,
{
    match expr_at(toks, pos) {
        Err(e) => Err(e),
        Ok((cond, n)) => match expect_at(toks, pos + n, TokenKind::Then) {
            Some(e) => Err(e),
            None => match expr_at(toks, pos + n + 1) {
                Err(e) => Err(e),
                Ok((yes, m)) => match expect_at(toks, pos + n + m + 1, TokenKind::Else) {
                    Some(e) => Err(e),
                    None => match expr_at(toks, pos + n + m + 2) {
                        Err(e) => Err(e),
                        Ok((no, k)) => Ok(
                            (
                                NodeView::If {
                                    cond: Box::new(cond),
                                    then: Box::new(yes),
                                    else_: Box::new(no),
                                },
                                n + m + k + 2,
                            ),
                        ),
                    },
                },
            },
        },
    }
}

/// What follows a `let`: `Decl 'in' Expr 'end'`.
pub open spec fn let_rest(toks: Seq<TokenKind>, pos: nat) -> Result<(NodeView, nat), ErrorView>
    decreases tokens_left(toks, pos), 20nat,
{
    match decl_at(toks, pos) {
        Err(e) => Err(e),
        Ok((decl, n)) => match expect_at(toks, pos + n, TokenKind::In) {
            Some(e) => Err(e),
            None => match expr_at(toks, pos + n + 1) {
                Err(e) => Err(e),
                Ok((body, m)) => match expect_at(toks, pos + n + m + 1, TokenKind::End) {
                    Some(e) => Err(e),
                    None => Ok(
                        (NodeView::Let { decl: Box::new(decl), body: Box::new(body) }, n + m + 2),
                    ),
                },
            },
        },
    }
}

/// `Expr`.
pub open spec fn expr_at(toks: Seq<TokenKind>, pos: nat) -> Result<(NodeView, nat), ErrorView>
    decreases tokens_left(toks, pos), 11nat,
{
    match peek_at(toks, pos) {
        Some(TokenKind::If) => match cond_rest(toks, pos + 1) {
            Err(e) => Err(e),
            Ok((node, n)) => Ok((node, n + 1)),
        },
        Some(TokenKind::Let) => match let_rest(toks, pos + 1) {
            Err(e) => Err(e),
            Ok((node, n)) => Ok((node, n + 1)),
        },
        Some(TokenKind::Fun) => match arms_at(toks, pos + 1) {
            Err(e) => Err(e),
            Ok((clauses, n)) => Ok((NodeView::Fn { clauses }, n + 1)),
        },
        Some(_) => binary_at(toks, pos, comp_level()),
        None => Err(mismatch(toks, pos, pos, "an expression"@)),
    }
}

/// One clause: `Pattern '=>' Expr`.
pub open spec fn clause_at(toks: Seq<TokenKind>, pos: nat) -> Result<
    ((PatternView, NodeView), nat),
    ErrorView,
>
    decreases tokens_left(toks, pos), 12nat,
{
    match pattern_at(toks, pos) {
        Err(e) => Err(e),
        Ok((pat, n)) => match expect_at(toks, pos + n, TokenKind::FatArrow) {
            Some(e) => Err(e),
            None => match expr_at(toks, pos + n + 1) {
                Err(e) => Err(e),
                Ok((body, m)) => Ok(((pat, body), n + m + 1)),
            },
        },
    }
}

/// `('|' Pattern '=>' Expr)*`: the clauses that follow `clauses`, appended to
/// them.
pub open spec fn arms_rest(
    toks: Seq<TokenKind>,
    pos: nat,
    clauses: Seq<(PatternView, NodeView)>,
) -> Result<(Seq<(PatternView, NodeView)>, nat), ErrorView>
    decreases tokens_left(toks, pos), 13nat,
{
    match peek_at(toks, pos) {
        Some(TokenKind::Bar) => match clause_at(toks, pos + 1) {
            Err(e) => Err(e),
            Ok((clause, n)) => match arms_rest(toks, pos + 1 + n, clauses.push(clause)) {
                Err(e) => Err(e),
                Ok((all, m)) => Ok((all, n + m + 1)),
            },
        },
        _ => Ok((clauses, 0)),
    }
}

/// `MatchArms`: one clause or more.
pub open spec fn arms_at(toks: Seq<TokenKind>, pos: nat) -> Result<
    (Seq<(PatternView, NodeView)>, nat),
    ErrorView,
>
    decreases tokens_left(toks, pos), 14nat,
{
    match clause_at(toks, pos) {
        Err(e) => Err(e),
        Ok((clause, n)) => match arms_rest(toks, pos + n, seq![clause]) {
            Err(e) => Err(e),
            Ok((all, m)) => Ok((all, n + m)),
        },
    }
}

/// What follows a `val`: `Pattern (':' Type)? '=' Expr`.
pub open spec fn val_rest(toks: Seq<TokenKind>, pos: nat) -> Result<(NodeView, nat), ErrorView>
    decreases tokens_left(toks, pos), 20nat,
{
    match pattern_at(toks, pos) {
        Err(e) => Err(e),
        Ok((pat, n)) => match annotation_at(toks, pos + n) {
            Err(e) => Err(e),
            Ok((typ, a)) => match expect_at(toks, pos + n + a, TokenKind::Equal) {
                Some(e) => Err(e),
                None => match expr_at(toks, pos + n + a + 1) {
                    Err(e) => Err(e),
                    Ok((exp, m)) => Ok(
                        (NodeView::ValDecl { pat, typ, exp: Box::new(exp) }, n + a + m + 1),
                    ),
                },
            },
        },
    }
}

/// What follows `fun` and the function's name: `MatchArms (':' Type)?`.
pub open spec fn fun_rest(toks: Seq<TokenKind>, pos: nat, name: Seq<char>) -> Result<
    (NodeView, nat),
    ErrorView,
>
    decreases tokens_left(toks, pos), 20nat,
{
    match arms_at(toks, pos) {
        Err(e) => Err(e),
        Ok((clauses, n)) => match annotation_at(toks, pos + n) {
            Err(e) => Err(e),
            Ok((typ, a)) => Ok((NodeView::FunDecl { name, clauses, typ }, n + a)),
        },
    }
}

/// `Decl`.
pub open spec fn decl_at(toks: Seq<TokenKind>, pos: nat) -> Result<(NodeView, nat), ErrorView>
    decreases tokens_left(toks, pos), 15nat,
{
    match peek_at(toks, pos) {
        Some(TokenKind::Val) => match val_rest(toks, pos + 1) {
            Err(e) => Err(e),
            Ok((node, n)) => Ok((node, n + 1)),
        },
        Some(TokenKind::Fun) => match peek_at(toks, pos + 1) {
            Some(TokenKind::Id(name)) => match fun_rest(toks, pos + 2, name) {
                Err(e) => Err(e),
                Ok((node, n)) => Ok((node, n + 2)),
            },
            _ => Err(mismatch(toks, pos, pos + 1, "an identifier after 'fun'"@)),
        },
        _ => Err(mismatch(toks, pos, pos, "'val' or 'fun'"@)),
    }
}

/// `(';' Decl)*`: the declarations that follow `decls`, appended to them.
pub open spec fn decls_rest(toks: Seq<TokenKind>, pos: nat, decls: Seq<NodeView>) -> Result<
    (Seq<NodeView>, nat),
    ErrorView,
>
    decreases tokens_left(toks, pos), 16nat,
{
    match peek_at(toks, pos) {
        Some(TokenKind::SemiColon) => match decl_at(toks, pos + 1) {
            Err(e) => Err(e),
            Ok((decl, n)) => match decls_rest(toks, pos + 1 + n, decls.push(decl)) {
                Err(e) => Err(e),
                Ok((all, m)) => Ok((all, n + m + 1)),
            },
        },
        _ => Ok((decls, 0)),
    }
}

/// `Decls`: one declaration or more, with `;` between them.
pub open spec fn decls_at(toks: Seq<TokenKind>, pos: nat) -> Result<
    (Seq<NodeView>, nat),
    ErrorView,
>
    decreases tokens_left(toks, pos), 17nat,
{
    match decl_at(toks, pos) {
        Err(e) => Err(e),
        Ok((decl, n)) => match decls_rest(toks, pos + n, seq![decl]) {
            Err(e) => Err(e),
            Ok((all, m)) => Ok((all, n + m)),
        },
    }
}

/// `Decls+` up to the end of the input: the declarations from `pos` on,
/// appended to `decls`.
#[verifier::opaque]
pub open spec fn program_from(toks: Seq<TokenKind>, pos: nat, decls: Seq<NodeView>) -> Result<
    (Seq<NodeView>, nat),
    ErrorView,
>
    decreases tokens_left(toks, pos), 18nat,
{
    match decls_at(toks, pos) {
        Err(e) => Err(e),
        Ok((run, n)) => if at_end(toks, pos + n) || n == 0 {
            // No run of declarations is empty (`lemma_decls_nonempty`): the
            // second case never arises.
            Ok((decls + run, n))
        } else {
            match program_from(toks, pos + n, decls + run) {
                Err(e) => Err(e),
                Ok((all, m)) => Ok((all, n + m)),
            }
        },
    }
}

/// `Program`: what a whole token sequence denotes.
pub open spec fn program_of(toks: Seq<TokenKind>) -> Result<NodeView, ErrorView> {
    match program_from(toks, 0, Seq::empty()) {
        Err(e) => Err(e),
        Ok((decls, _)) => Ok(NodeView::Program(decls)),
    }
}

// ----------------------------------------------------------------------
// What holds of every parse
// ----------------------------------------------------------------------
/// An atom spans at least one token.
pub proof fn lemma_atom_nonempty(toks: Seq<TokenKind>, pos: nat)
    ensures
        match atom_at(toks, pos) {
            Ok((_, n)) => n >= 1,
            Err(_) => true,
        },
{
}

/// A declaration spans at least one token.
pub proof fn lemma_decl_nonempty(toks: Seq<TokenKind>, pos: nat)
    ensures
        match decl_at(toks, pos) {
            Ok((_, n)) => n >= 1,
            Err(_) => true,
        },
{
}

/// A run of declarations spans at least one token.
pub proof fn lemma_decls_nonempty(toks: Seq<TokenKind>, pos: nat)
    ensures
        match decls_at(toks, pos) {
            Ok((_, n)) => n >= 1,
            Err(_) => true,
        },
{
    lemma_decl_nonempty(toks, pos);
}

/// The items that follow a list only add to it, and a comma adds at least
/// one.
pub proof fn lemma_items_rest_grows(toks: Seq<TokenKind>, pos: nat, items: Seq<NodeView>)
    ensures
        match items_rest(toks, pos, items) {
            Ok((all, _)) => all.len() >= items.len() && (peek_at(toks, pos) == Some(
                TokenKind::Comma,
            ) ==> all.len() > items.len()),
            Err(_) => true,
        },
    decreases tokens_left(toks, pos),
{
    if peek_at(toks, pos) == Some(TokenKind::Comma) {
        match expr_at(toks, pos + 1) {
            Ok((item, n)) => {
                lemma_items_rest_grows(toks, pos + 1 + n, items.push(item));
            },
            Err(_) => {},
        }
    }
}

/// The declarations that follow a list only add to it.
pub proof fn lemma_decls_rest_grows(toks: Seq<TokenKind>, pos: nat, decls: Seq<NodeView>)
    ensures
        match decls_rest(toks, pos, decls) {
            Ok((all, _)) => all.len() >= decls.len(),
            Err(_) => true,
        },
    decreases tokens_left(toks, pos),
{
    if peek_at(toks, pos) == Some(TokenKind::SemiColon) {
        match decl_at(toks, pos + 1) {
            Ok((decl, n)) => {
                lemma_decls_rest_grows(toks, pos + 1 + n, decls.push(decl));
            },
            Err(_) => {},
        }
    }
}

/// What one run of declarations adds to a program: after the run, the
/// program is over where the input ends, and goes on with the next run
/// otherwise.
pub proof fn lemma_program_step(toks: Seq<TokenKind>, pos: nat, decls: Seq<NodeView>)
    ensures
        match decls_at(toks, pos) {
            Err(e) => program_from(toks, pos, decls) == Err::<(Seq<NodeView>, nat), ErrorView>(e),
            Ok((run, n)) => n >= 1 && run.len() >= 1 && program_from(toks, pos, decls) == (if at_end(
                toks,
                pos + n,
            ) {
                Ok((decls + run, n))
            } else {
                match program_from(toks, pos + n, decls + run) {
                    Err(e) => Err(e),
                    Ok((all, m)) => Ok((all, n + m)),
                }
            }),
        },
{
    reveal(program_from);
    lemma_decls_nonempty(toks, pos);
    match decl_at(toks, pos) {
        Ok((decl, k)) => {
            lemma_decls_rest_grows(toks, pos + k, seq![decl]);
        },
        Err(_) => {},
    }
}

/// The runs of declarations from a position on add at least one declaration
/// to those before them.
pub proof fn lemma_program_from_grows(toks: Seq<TokenKind>, pos: nat, decls: Seq<NodeView>)
    ensures
        match program_from(toks, pos, decls) {
            Ok((all, _)) => all.len() > decls.len(),
            Err(_) => true,
        },
    decreases tokens_left(toks, pos),
{
    lemma_program_step(toks, pos, decls);
    match decls_at(toks, pos) {
        Ok((run, n)) => {
            if !at_end(toks, pos + n) {
                lemma_program_from_grows(toks, pos + n, decls + run);
            }
        },
        Err(_) => {},
    }
}

/// A program that parses holds at least one declaration: a token sequence
/// without any is an error, not an empty program.
pub proof fn lemma_program_is_not_empty(toks: Seq<TokenKind>)
    ensures
        match program_of(toks) {
            Ok(program) => program is Program && program->Program_0.len() >= 1,
            Err(_) => true,
        },
{
    lemma_program_from_grows(toks, 0, Seq::empty());
}

} // verus!
