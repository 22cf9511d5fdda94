//! Which trees a stretch of tokens can be read as.
//!
//! Each relation `is_x(toks, value, a, b)` says that the tokens from index
//! `a` up to `b` are an `x` with that value, production by production of the
//! grammar and without regard to the order in which a parser tries them.
//! Every success of a parsing rule is such a reading: the lemmas at the end
//! say so, rule by rule.
use crate::ast::{BinOp, LiteralView, NodeView, PatternView, TypeView};
use crate::grammar::{
    annotation_at, app_at, app_rest, apply, arms_at, arms_rest, at_end, atom_at, base_type_at,
    binary, binary_at, binary_rest, clause_at, comp_level, cond_rest, decl_at, decls_at,
    decls_rest, expect_at, expr_at, fun_rest, items_rest, lemma_atom_nonempty,
    lemma_items_rest_grows, lemma_program_step, let_rest, level_op, list_rest, paren_rest,
    pattern_at, peek_at, program_from, program_of, starts_atom, tokens_left, type_at, val_rest,
};
use crate::parse_error::ErrorView;
use crate::token::TokenKind;
use vstd::prelude::*;

verus! {

/// Whether `kind` stands at index `i`.
pub open spec fn tok(toks: Seq<TokenKind>, i: int, kind: TokenKind) -> bool {
    0 <= i < toks.len() && toks[i] == kind
}

// ----------------------------------------------------------------------
// Types
// ----------------------------------------------------------------------
/// `BaseType := 'int' | 'bool' | 'char' | 'string' | ''' Identifier
///            | '(' Type ',' Type ')'`.
pub open spec fn is_base_type(toks: Seq<TokenKind>, t: TypeView, a: int, b: int) -> bool
    decreases t, 0nat,
{
    match t {
        TypeView::Int => b == a + 1 && tok(toks, a, TokenKind::TypeInt),
        TypeView::Bool => b == a + 1 && tok(toks, a, TokenKind::TypeBool),
        TypeView::Char => b == a + 1 && tok(toks, a, TokenKind::TypeChar),
        TypeView::String => b == a + 1 && tok(toks, a, TokenKind::TypeString),
        TypeView::Var(name) => b == a + 2 && tok(toks, a, TokenKind::SingleQuote) && tok(
            toks,
            a + 1,
            TokenKind::Id(name),
        ),
        TypeView::Product(x, y) => tok(toks, a, TokenKind::LeftParen) && tok(
            toks,
            b - 1,
            TokenKind::RightParen,
        ) && exists|k: int|
            #[trigger] tok(toks, k, TokenKind::Comma) && is_type(toks, *x, a + 1, k) && is_type(
                toks,
                *y,
                k + 1,
                b - 1,
            ),
        TypeView::Arrow(_, _) => false,
    }
}

/// `Type := BaseType ('->' Type | '*' Type)?`.
pub open spec fn is_type(toks: Seq<TokenKind>, t: TypeView, a: int, b: int) -> bool
    decreases t, 1nat,
{
    ||| is_base_type(toks, t, a, b)
    ||| match t {
        TypeView::Arrow(x, y) => exists|k: int|
            #[trigger] tok(toks, k, TokenKind::Arrow) && is_base_type(toks, *x, a, k) && is_type(
                toks,
                *y,
                k + 1,
                b,
            ),
        TypeView::Product(x, y) => exists|k: int|
            #[trigger] tok(toks, k, TokenKind::Multiply) && is_base_type(toks, *x, a, k)
                && is_type(toks, *y, k + 1, b),
        _ => false,
    }
}

/// `(':' Type)?`.
pub open spec fn is_annotation(toks: Seq<TokenKind>, typ: Option<TypeView>, a: int, b: int) -> bool {
    match typ {
        Some(t) => tok(toks, a, TokenKind::Colon) && is_type(toks, t, a + 1, b),
        None => b == a,
    }
}

// ----------------------------------------------------------------------
// Patterns
// ----------------------------------------------------------------------
/// Whether a literal stands at index `i`.
pub open spec fn literal_token(toks: Seq<TokenKind>, i: int) -> bool {
    0 <= i < toks.len() && (toks[i] is Integer || toks[i] is Bool || toks[i] is String)
}

/// `Pattern := '_' | '(' Pattern ',' Pattern ')' | Identifier | literal
///           | ''' Identifier`.
pub open spec fn is_pattern(toks: Seq<TokenKind>, p: PatternView, a: int, b: int) -> bool
    decreases p,
{
    match p {
        PatternView::Wildcard => b == a + 1 && tok(toks, a, TokenKind::Wildcard),
        PatternView::Id(name) => b == a + 1 && tok(toks, a, TokenKind::Id(name)),
        PatternView::Literal => b == a + 1 && literal_token(toks, a),
        PatternView::Var(name) => b == a + 2 && tok(toks, a, TokenKind::SingleQuote) && tok(
            toks,
            a + 1,
            TokenKind::Id(name),
        ),
        PatternView::Pair(x, y) => tok(toks, a, TokenKind::LeftParen) && tok(
            toks,
            b - 1,
            TokenKind::RightParen,
        ) && exists|k: int|
            #[trigger] tok(toks, k, TokenKind::Comma) && is_pattern(toks, *x, a + 1, k)
                && is_pattern(toks, *y, k + 1, b - 1),
    }
}

// ----------------------------------------------------------------------
// Expressions and declarations
// ----------------------------------------------------------------------
/// The number of tokens from `a` up to `b`.
pub open spec fn span(a: int, b: int) -> nat {
    if a <= b {
        (b - a) as nat
    } else {
        0
    }
}

/// Whether the operator `op` of `level` stands at index `i`.
pub open spec fn op_token(toks: Seq<TokenKind>, i: int, level: nat, op: BinOp) -> bool {
    0 <= i < toks.len() && level_op(level, Some(toks[i])) == Some(op)
}

/// `Expr (',' Expr)*`: the first `count` of `items`, one or more.
pub open spec fn is_items(toks: Seq<TokenKind>, items: Seq<NodeView>, count: nat, a: int, b: int) -> bool
    decreases items, count, 0nat,
{
    if count == 0 || count > items.len() {
        false
    } else if count == 1 {
        is_expr(toks, items[0], a, b)
    } else {
        exists|k: int|
            #[trigger] tok(toks, k, TokenKind::Comma) && is_items(
                toks,
                items,
                (count - 1) as nat,
                a,
                k,
            ) && is_expr(toks, items[count - 1], k + 1, b)
    }
}

/// `Atom := literal | Identifier | '(' ')' | '(' Expr (',' Expr)+ ')'
///        | '(' Expr ')' | '[' ']' | '[' Expr (',' Expr)* ']'`.
///
/// An expression in parentheses is the expression itself; a tuple has no
/// element, or two or more.
pub open spec fn is_atom(toks: Seq<TokenKind>, n: NodeView, a: int, b: int) -> bool
    decreases n, span(a, b), 0nat,
{
    ||| match n {
        NodeView::Literal(LiteralView::Integer(text)) => b == a + 1 && tok(
            toks,
            a,
            TokenKind::Integer(text),
        ),
        NodeView::Literal(LiteralView::Boolean(text)) => b == a + 1 && tok(
            toks,
            a,
            TokenKind::Bool(text),
        ),
        NodeView::Literal(LiteralView::String(text)) => b == a + 1 && tok(
            toks,
            a,
            TokenKind::String(text),
        ),
        NodeView::Id(name) => b == a + 1 && tok(toks, a, TokenKind::Id(name)),
        NodeView::Tuple(items) => tok(toks, a, TokenKind::LeftParen) && tok(
            toks,
            b - 1,
            TokenKind::RightParen,
        ) && if items.len() == 0 {
            b == a + 2
        } else {
            items.len() >= 2 && is_items(toks, items, items.len(), a + 1, b - 1)
        },
        NodeView::List(items) => tok(toks, a, TokenKind::LeftBracket) && tok(
            toks,
            b - 1,
            TokenKind::RightBracket,
        ) && if items.len() == 0 {
            b == a + 2
        } else {
            is_items(toks, items, items.len(), a + 1, b - 1)
        },
        _ => false,
    }
    ||| a + 2 <= b && tok(toks, a, TokenKind::LeftParen) && tok(toks, b - 1, TokenKind::RightParen)
        && is_expr(toks, n, a + 1, b - 1)
}

/// Whether a token with which an atom can begin stands at index `i`.
pub open spec fn atom_start(toks: Seq<TokenKind>, i: int) -> bool {
    0 <= i < toks.len() && starts_atom(Some(toks[i]))
}

/// `AppExpr := Atom+`, each atom an argument of all that stands to its left.
pub open spec fn is_app(toks: Seq<TokenKind>, n: NodeView, a: int, b: int) -> bool
    decreases n, span(a, b), 1nat,
{
    ||| is_atom(toks, n, a, b)
    ||| match n {
        NodeView::App { func, arg } => exists|k: int|
            #[trigger] atom_start(toks, k) && is_app(toks, *func, a, k) && is_atom(
                toks,
                *arg,
                k,
                b,
            ),
        _ => false,
    }
}

/// An expression of binary operators up to `level`: an expression of the
/// level below, or an operation of this level, whose left operand is of this
/// level and whose right operand is of the level below.
pub open spec fn is_binary(toks: Seq<TokenKind>, n: NodeView, a: int, b: int, level: nat) -> bool
    decreases n, span(a, b), 2 + level,
{
    if level == 0 {
        is_app(toks, n, a, b)
    } else {
        ||| is_binary(toks, n, a, b, (level - 1) as nat)
        ||| match n {
            NodeView::BinOp { left, op, right } => exists|k: int|
                #[trigger] op_token(toks, k, level, op) && is_binary(toks, *left, a, k, level)
                    && is_binary(toks, *right, k + 1, b, (level - 1) as nat),
            _ => false,
        }
    }
}

/// `Expr := 'if' Expr 'then' Expr 'else' Expr | 'let' Decl 'in' Expr 'end'
///        | 'fun' MatchArms | CompExpr`.
pub open spec fn is_expr(toks: Seq<TokenKind>, n: NodeView, a: int, b: int) -> bool
    decreases n, span(a, b), 10nat,
{
    ||| is_binary(toks, n, a, b, comp_level())
    ||| match n {
        NodeView::If { cond, then, else_ } => tok(toks, a, TokenKind::If) && exists|
            k1: int,
            k2: int,
        |
            #[trigger] tok(toks, k1, TokenKind::Then) && #[trigger] tok(toks, k2, TokenKind::Else)
                && is_expr(toks, *cond, a + 1, k1) && is_expr(toks, *then, k1 + 1, k2) && is_expr(
                toks,
                *else_,
                k2 + 1,
                b,
            ),
        NodeView::Let { decl, body } => tok(toks, a, TokenKind::Let) && tok(
            toks,
            b - 1,
            TokenKind::End,
        ) && exists|k: int|
            #[trigger] tok(toks, k, TokenKind::In) && is_decl(toks, *decl, a + 1, k) && is_expr(
                toks,
                *body,
                k + 1,
                b - 1,
            ),
        NodeView::Fn { clauses } => tok(toks, a, TokenKind::Fun) && is_arms(
            toks,
            clauses,
            clauses.len(),
            a + 1,
            b,
        ),
        _ => false,
    }
}

/// One clause: `Pattern '=>' Expr`.
pub open spec fn is_clause(toks: Seq<TokenKind>, clause: (PatternView, NodeView), a: int, b: int) -> bool
    decreases clause, 0nat, 0nat,
{
    exists|k: int|
        #[trigger] tok(toks, k, TokenKind::FatArrow) && is_pattern(toks, clause.0, a, k) && is_expr(
            toks,
            clause.1,
            k + 1,
            b,
        )
}

/// `MatchArms := Pattern '=>' Expr ('|' Pattern '=>' Expr)*`: the first
/// `count` of `clauses`, one or more.
pub open spec fn is_arms(
    toks: Seq<TokenKind>,
    clauses: Seq<(PatternView, NodeView)>,
    count: nat,
    a: int,
    b: int,
) -> bool
    decreases clauses, count, 0nat,
{
    if count == 0 || count > clauses.len() {
        false
    } else if count == 1 {
        is_clause(toks, clauses[0], a, b)
    } else {
        exists|k: int|
            #[trigger] tok(toks, k, TokenKind::Bar) && is_arms(
                toks,
                clauses,
                (count - 1) as nat,
                a,
                k,
            ) && is_clause(toks, clauses[count - 1], k + 1, b)
    }
}

/// `Decl := 'val' Pattern (':' Type)? '=' Expr
///        | 'fun' Identifier MatchArms (':' Type)?`.
pub open spec fn is_decl(toks: Seq<TokenKind>, n: NodeView, a: int, b: int) -> bool
    decreases n, span(a, b), 11nat,
{
    match n {
        NodeView::ValDecl { pat, typ, exp } => tok(toks, a, TokenKind::Val) && exists|
            k1: int,
            k2: int,
        |
            #[trigger] is_annotation(toks, typ, k1, k2) && tok(toks, k2, TokenKind::Equal)
                && is_pattern(toks, pat, a + 1, k1) && is_expr(toks, *exp, k2 + 1, b),
        NodeView::FunDecl { name, clauses, typ } => tok(toks, a, TokenKind::Fun) && tok(
            toks,
            a + 1,
            TokenKind::Id(name),
        ) && exists|k: int|
            #[trigger] is_annotation(toks, typ, k, b) && is_arms(
                toks,
                clauses,
                clauses.len(),
                a + 2,
                k,
            ),
        _ => false,
    }
}

/// Whether a declaration that ends before `k` and one that begins at `j`
/// stand one after the other: with a `;` between them, or with nothing.
pub open spec fn separated(toks: Seq<TokenKind>, k: int, j: int) -> bool {
    j == k || (j == k + 1 && tok(toks, k, TokenKind::SemiColon))
}

/// Declarations one after the other, with a `;` between two of them or with
/// nothing: the first `count` of `decls`, one or more.
pub open spec fn is_decl_seq(toks: Seq<TokenKind>, decls: Seq<NodeView>, count: nat, a: int, b: int) -> bool
    decreases count,
{
    if count == 0 || count > decls.len() {
        false
    } else if count == 1 {
        is_decl(toks, decls[0], a, b)
    } else {
        exists|k: int, j: int|
            #[trigger] separated(toks, k, j) && is_decl_seq(toks, decls, (count - 1) as nat, a, k)
                && is_decl(toks, decls[count - 1], j, b)
    }
}

/// Whether the input ends at index `end`.
pub open spec fn ends_at(toks: Seq<TokenKind>, end: int) -> bool {
    0 <= end && at_end(toks, end as nat)
}

/// `Program := Decls+`, up to the end of the input.
pub open spec fn is_program(toks: Seq<TokenKind>, n: NodeView) -> bool {
    match n {
        NodeView::Program(decls) => exists|end: int|
            #[trigger] ends_at(toks, end) && is_decl_seq(toks, decls, decls.len(), 0, end),
        _ => false,
    }
}

// ----------------------------------------------------------------------
// No tuple has one element
// ----------------------------------------------------------------------
/// A tuple that is read as an atom has no element, or two or more.
pub proof fn lemma_atom_tuple_arity(toks: Seq<TokenKind>, n: NodeView, a: int, b: int)
    requires
        is_atom(toks, n, a, b),
        n is Tuple,
    ensures
        n->Tuple_0.len() != 1,
    decreases span(a, b), 0nat,
{
    if a + 2 <= b && is_expr(toks, n, a + 1, b - 1) {
        lemma_expr_tuple_arity(toks, n, a + 1, b - 1);
    }
}

/// A tuple that is read as an application has no element, or two or more.
pub proof fn lemma_app_tuple_arity(toks: Seq<TokenKind>, n: NodeView, a: int, b: int)
    requires
        is_app(toks, n, a, b),
        n is Tuple,
    ensures
        n->Tuple_0.len() != 1,
    decreases span(a, b), 1nat,
{
    lemma_atom_tuple_arity(toks, n, a, b);
}

/// A tuple that is read as an expression of binary operators has no element,
/// or two or more.
pub proof fn lemma_binary_tuple_arity(
    toks: Seq<TokenKind>,
    n: NodeView,
    a: int,
    b: int,
    level: nat,
)
    requires
        is_binary(toks, n, a, b, level),
        n is Tuple,
    ensures
        n->Tuple_0.len() != 1,
    decreases span(a, b), 2 + level,
{
    if level == 0 {
        lemma_app_tuple_arity(toks, n, a, b);
    } else {
        lemma_binary_tuple_arity(toks, n, a, b, (level - 1) as nat);
    }
}

/// A tuple that is read as an expression has no element, or two or more:
/// parentheses around one expression are that expression.
pub proof fn lemma_expr_tuple_arity(toks: Seq<TokenKind>, n: NodeView, a: int, b: int)
    requires
        is_expr(toks, n, a, b),
        n is Tuple,
    ensures
        n->Tuple_0.len() != 1,
    decreases span(a, b), 10nat,
{
    lemma_binary_tuple_arity(toks, n, a, b, comp_level());
}

// ----------------------------------------------------------------------
// Every success of a rule is a reading
// ----------------------------------------------------------------------
/// A base type that the rule finds is a base type of the grammar.
pub proof fn lemma_base_type_derives(toks: Seq<TokenKind>, pos: nat)
    ensures
        match base_type_at(toks, pos) {
            Ok((t, n)) => is_base_type(toks, t, pos as int, (pos + n) as int),
            Err(_) => true,
        },
    decreases tokens_left(toks, pos), 0nat,
{
    match peek_at(toks, pos) {
        Some(TokenKind::LeftParen) => {
            lemma_type_derives(toks, pos + 1);
            match type_at(toks, pos + 1) {
                Ok((first, n)) => {
                    if expect_at(toks, pos + 1 + n, TokenKind::Comma) is None {
                        lemma_type_derives(toks, pos + n + 2);
                        match type_at(toks, pos + n + 2) {
                            Ok((second, m)) => {
                                if expect_at(toks, pos + n + m + 2, TokenKind::RightParen) is None {
                                    assert(tok(toks, (pos + 1 + n) as int, TokenKind::Comma));
                                }
                            },
                            Err(_) => {},
                        }
                    }
                },
                Err(_) => {},
            }
        },
        _ => {},
    }
}

/// A type that the rule finds is a type of the grammar.
pub proof fn lemma_type_derives(toks: Seq<TokenKind>, pos: nat)
    ensures
        match type_at(toks, pos) {
            Ok((t, n)) => is_type(toks, t, pos as int, (pos + n) as int),
            Err(_) => true,
        },
    decreases tokens_left(toks, pos), 1nat,
{
    lemma_base_type_derives(toks, pos);
    match base_type_at(toks, pos) {
        Ok((base, n)) => {
            match peek_at(toks, pos + n) {
                Some(TokenKind::Arrow) => {
                    lemma_type_derives(toks, pos + n + 1);
                    assert(tok(toks, (pos + n) as int, TokenKind::Arrow));
                },
                Some(TokenKind::Multiply) => {
                    lemma_type_derives(toks, pos + n + 1);
                    assert(tok(toks, (pos + n) as int, TokenKind::Multiply));
                },
                _ => {},
            }
        },
        Err(_) => {},
    }
}

/// An annotation that the rule finds is an annotation of the grammar.
pub proof fn lemma_annotation_derives(toks: Seq<TokenKind>, pos: nat)
    ensures
        match annotation_at(toks, pos) {
            Ok((typ, n)) => is_annotation(toks, typ, pos as int, (pos + n) as int),
            Err(_) => true,
        },
{
    if peek_at(toks, pos) == Some(TokenKind::Colon) {
        lemma_type_derives(toks, pos + 1);
    }
}

/// A pattern that the rule finds is a pattern of the grammar.
pub proof fn lemma_pattern_derives(toks: Seq<TokenKind>, pos: nat)
    ensures
        match pattern_at(toks, pos) {
            Ok((p, n)) => is_pattern(toks, p, pos as int, (pos + n) as int),
            Err(_) => true,
        },
    decreases tokens_left(toks, pos),
{
    match peek_at(toks, pos) {
        Some(TokenKind::LeftParen) => {
            lemma_pattern_derives(toks, pos + 1);
            match pattern_at(toks, pos + 1) {
                Ok((first, n)) => {
                    if expect_at(toks, pos + 1 + n, TokenKind::Comma) is None {
                        lemma_pattern_derives(toks, pos + n + 2);
                        match pattern_at(toks, pos + n + 2) {
                            Ok((second, m)) => {
                                if expect_at(toks, pos + n + m + 2, TokenKind::RightParen) is None {
                                    assert(tok(toks, (pos + 1 + n) as int, TokenKind::Comma));
                                }
                            },
                            Err(_) => {},
                        }
                    }
                },
                Err(_) => {},
            }
        },
        _ => {},
    }
}

/// A reading of the first `count` items of a list is a reading of the first
/// `count` items of every list that begins with the same items.
pub proof fn lemma_items_prefix(
    toks: Seq<TokenKind>,
    s: Seq<NodeView>,
    t: Seq<NodeView>,
    count: nat,
    a: int,
    b: int,
)
    requires
        count <= s.len(),
        count <= t.len(),
        forall|i: int| 0 <= i < count ==> s[i] == t[i],
        is_items(toks, s, count, a, b),
    ensures
        is_items(toks, t, count, a, b),
    decreases count,
{
    if count > 1 {
        let k = choose|k: int|
            #[trigger] tok(toks, k, TokenKind::Comma) && is_items(
                toks,
                s,
                (count - 1) as nat,
                a,
                k,
            ) && is_expr(toks, s[count - 1], k + 1, b);
        lemma_items_prefix(toks, s, t, (count - 1) as nat, a, k);
        assert(tok(toks, k, TokenKind::Comma));
    }
}

/// The same for clauses.
pub proof fn lemma_arms_prefix(
    toks: Seq<TokenKind>,
    s: Seq<(PatternView, NodeView)>,
    t: Seq<(PatternView, NodeView)>,
    count: nat,
    a: int,
    b: int,
)
    requires
        count <= s.len(),
        count <= t.len(),
        forall|i: int| 0 <= i < count ==> s[i] == t[i],
        is_arms(toks, s, count, a, b),
    ensures
        is_arms(toks, t, count, a, b),
    decreases count,
{
    if count > 1 {
        let k = choose|k: int|
            #[trigger] tok(toks, k, TokenKind::Bar) && is_arms(toks, s, (count - 1) as nat, a, k)
                && is_clause(toks, s[count - 1], k + 1, b);
        lemma_arms_prefix(toks, s, t, (count - 1) as nat, a, k);
        assert(tok(toks, k, TokenKind::Bar));
    }
}

/// The same for declarations.
pub proof fn lemma_decl_seq_prefix(
    toks: Seq<TokenKind>,
    s: Seq<NodeView>,
    t: Seq<NodeView>,
    count: nat,
    a: int,
    b: int,
)
    requires
        count <= s.len(),
        count <= t.len(),
        forall|i: int| 0 <= i < count ==> s[i] == t[i],
        is_decl_seq(toks, s, count, a, b),
    ensures
        is_decl_seq(toks, t, count, a, b),
    decreases count,
{
    if count > 1 {
        let (k, j) = choose|k: int, j: int|
            #[trigger] separated(toks, k, j) && is_decl_seq(toks, s, (count - 1) as nat, a, k)
                && is_decl(toks, s[count - 1], j, b);
        lemma_decl_seq_prefix(toks, s, t, (count - 1) as nat, a, k);
        assert(separated(toks, k, j));
    }
}

/// The items that the rule appends to a reading from `a` on go on with that
/// reading.
#[verifier::spinoff_prover]
pub proof fn lemma_items_rest_derives(
    toks: Seq<TokenKind>,
    pos: nat,
    items: Seq<NodeView>,
    a: int,
)
    requires
        is_items(toks, items, items.len(), a, pos as int),
    ensures
        match items_rest(toks, pos, items) {
            Ok((all, m)) => is_items(toks, all, all.len(), a, (pos + m) as int),
            Err(_) => true,
        },
    decreases tokens_left(toks, pos), 0nat,
{
    if peek_at(toks, pos) == Some(TokenKind::Comma) {
        lemma_expr_derives(toks, pos + 1);
        match expr_at(toks, pos + 1) {
            Ok((item, n)) => {
                let more = items.push(item);
                lemma_items_prefix(toks, items, more, items.len(), a, pos as int);
                assert(tok(toks, pos as int, TokenKind::Comma));
                assert(is_items(toks, more, more.len(), a, (pos + 1 + n) as int));
                lemma_items_rest_derives(toks, pos + 1 + n, more, a);
            },
            Err(_) => {},
        }
    }
}

/// What the rule finds behind a `(` is, with the parenthesis, an atom.
#[verifier::spinoff_prover]
pub proof fn lemma_paren_derives(toks: Seq<TokenKind>, pos: nat)
    requires
        pos >= 1,
        tok(toks, pos - 1, TokenKind::LeftParen),
    ensures
        match paren_rest(toks, pos) {
            Ok((node, n)) => is_atom(toks, node, pos - 1, (pos + n) as int),
            Err(_) => true,
        },
    decreases tokens_left(toks, pos), 20nat,
{
    if peek_at(toks, pos) != Some(TokenKind::RightParen) {
        lemma_expr_derives(toks, pos);
        match expr_at(toks, pos) {
            Ok((first, n)) => {
                let one = seq![first];
                lemma_items_rest_derives(toks, pos + n, one, pos as int);
                lemma_items_rest_grows(toks, pos + n, one);
                match items_rest(toks, pos + n, one) {
                    Ok((items, m)) => {
                        if expect_at(toks, pos + n + m, TokenKind::RightParen) is None {
                            let end = (pos + n + m + 1) as int;
                            assert(tok(toks, end - 1, TokenKind::RightParen));
                            if items.len() == 1 {
                                assert(m == 0);
                                assert(is_expr(toks, first, pos as int, end - 1));
                                assert(is_atom(toks, first, pos - 1, end));
                            } else {
                                assert(is_items(toks, items, items.len(), pos as int, end - 1));
                                assert(is_atom(toks, NodeView::Tuple(items), pos - 1, end));
                            }
                        }
                    },
                    Err(_) => {},
                }
            },
            Err(_) => {},
        }
    }
}

/// What the rule finds behind a `[` is, with the bracket, an atom.
#[verifier::spinoff_prover]
pub proof fn lemma_list_derives(toks: Seq<TokenKind>, pos: nat)
    requires
        pos >= 1,
        tok(toks, pos - 1, TokenKind::LeftBracket),
    ensures
        match list_rest(toks, pos) {
            Ok((node, n)) => is_atom(toks, node, pos - 1, (pos + n) as int),
            Err(_) => true,
        },
    decreases tokens_left(toks, pos), 20nat,
{
    if peek_at(toks, pos) == Some(TokenKind::RightBracket) {
        let empty = Seq::<NodeView>::empty();
        assert(list_rest(toks, pos) == Ok::<(NodeView, nat), ErrorView>(
            (NodeView::List(empty), 1nat),
        ));
        assert(tok(toks, pos as int, TokenKind::RightBracket));
        assert(is_atom(toks, NodeView::List(empty), pos - 1, (pos + 1) as int));
    } else {
        lemma_expr_derives(toks, pos);
        match expr_at(toks, pos) {
            Ok((first, n)) => {
                let one = seq![first];
                assert(is_items(toks, one, 1, pos as int, (pos + n) as int));
                lemma_items_rest_derives(toks, pos + n, one, pos as int);
                match items_rest(toks, pos + n, one) {
                    Ok((items, m)) => {
                        if expect_at(toks, pos + n + m, TokenKind::RightBracket) is None {
                            let end = (pos + n + m + 1) as int;
                            assert(tok(toks, end - 1, TokenKind::RightBracket));
                            assert(is_items(toks, items, items.len(), pos as int, end - 1));
                            assert(is_atom(toks, NodeView::List(items), pos - 1, end));
                            assert(list_rest(toks, pos) == Ok::<(NodeView, nat), ErrorView>(
                                (NodeView::List(items), n + m + 1),
                            ));
                        }
                    },
                    Err(_) => {},
                }
            },
            Err(_) => {},
        }
    }
}

/// An atom that the rule finds is an atom of the grammar.
#[verifier::spinoff_prover]
pub proof fn lemma_atom_derives(toks: Seq<TokenKind>, pos: nat)
    ensures
        match atom_at(toks, pos) {
            Ok((node, n)) => is_atom(toks, node, pos as int, (pos + n) as int),
            Err(_) => true,
        },
    decreases tokens_left(toks, pos), 1nat,
{
    match peek_at(toks, pos) {
        Some(TokenKind::LeftParen) => {
            lemma_paren_derives(toks, pos + 1);
        },
        Some(TokenKind::LeftBracket) => {
            lemma_list_derives(toks, pos + 1);
        },
        _ => {},
    }
}

/// The atoms that the rule applies a function to go on with the reading of
/// the function as an application.
#[verifier::spinoff_prover]
pub proof fn lemma_app_rest_derives(toks: Seq<TokenKind>, pos: nat, func: NodeView, a: int)
    requires
        is_app(toks, func, a, pos as int),
    ensures
        match app_rest(toks, pos, func) {
            Ok((node, m)) => is_app(toks, node, a, (pos + m) as int),
            Err(_) => true,
        },
    decreases tokens_left(toks, pos), 2nat,
{
    if starts_atom(peek_at(toks, pos)) {
        lemma_atom_derives(toks, pos);
        match atom_at(toks, pos) {
            Ok((arg, n)) => {
                if n != 0 {
                    let node = apply(func, arg);
                    assert(atom_start(toks, pos as int));
                    assert(is_app(toks, node, a, (pos + n) as int));
                    lemma_app_rest_derives(toks, pos + n, node, a);
                } else {
                    lemma_atom_nonempty(toks, pos);
                }
            },
            Err(_) => {},
        }
    }
}

/// An application that the rule finds is an application of the grammar.
#[verifier::spinoff_prover]
pub proof fn lemma_app_derives(toks: Seq<TokenKind>, pos: nat)
    ensures
        match app_at(toks, pos) {
            Ok((node, n)) => is_app(toks, node, pos as int, (pos + n) as int),
            Err(_) => true,
        },
    decreases tokens_left(toks, pos), 3nat,
{
    lemma_atom_derives(toks, pos);
    match atom_at(toks, pos) {
        Ok((func, n)) => {
            lemma_app_rest_derives(toks, pos + n, func, pos as int);
        },
        Err(_) => {},
    }
}

/// The operations that the rule appends to a left operand go on with the
/// reading of the operand as an expression of the level.
#[verifier::spinoff_prover]
pub proof fn lemma_binary_rest_derives(
    toks: Seq<TokenKind>,
    pos: nat,
    level: nat,
    left: NodeView,
    a: int,
)
    requires
        is_binary(toks, left, a, pos as int, level),
    ensures
        match binary_rest(toks, pos, level, left) {
            Ok((node, m)) => is_binary(toks, node, a, (pos + m) as int, level),
            Err(_) => true,
        },
    decreases tokens_left(toks, pos), 2 * level + 3,
{
    match level_op(level, peek_at(toks, pos)) {
        Some(op) => {
            lemma_binary_derives(toks, pos + 1, (level - 1) as nat);
            match binary_at(toks, pos + 1, (level - 1) as nat) {
                Ok((right, n)) => {
                    let node = binary(left, op, right);
                    assert(op_token(toks, pos as int, level, op));
                    assert(is_binary(toks, node, a, (pos + 1 + n) as int, level));
                    lemma_binary_rest_derives(toks, pos + 1 + n, level, node, a);
                },
                Err(_) => {},
            }
        },
        None => {},
    }
}

/// An expression of binary operators that the rule finds is one of the
/// grammar.
#[verifier::spinoff_prover]
pub proof fn lemma_binary_derives(toks: Seq<TokenKind>, pos: nat, level: nat)
    ensures
        match binary_at(toks, pos, level) {
            Ok((node, n)) => is_binary(toks, node, pos as int, (pos + n) as int, level),
            Err(_) => true,
        },
    decreases tokens_left(toks, pos), 2 * level + 4,
{
    if level == 0 {
        lemma_app_derives(toks, pos);
    } else {
        lemma_binary_derives(toks, pos, (level - 1) as nat);
        match binary_at(toks, pos, (level - 1) as nat) {
            Ok((left, n)) => {
                lemma_binary_rest_derives(toks, pos + n, level, left, pos as int);
            },
            Err(_) => {},
        }
    }
}

/// What the rule finds behind an `if` is, with the `if`, an expression.
#[verifier::spinoff_prover]
pub proof fn lemma_cond_derives(toks: Seq<TokenKind>, pos: nat)
    requires
        pos >= 1,
        tok(toks, pos - 1, TokenKind::If),
    ensures
        match cond_rest(toks, pos) {
            Ok((node, n)) => is_expr(toks, node, pos - 1, (pos + n) as int),
            Err(_) => true,
        },
    decreases tokens_left(toks, pos), 20nat,
{
    lemma_expr_derives(toks, pos);
    match expr_at(toks, pos) {
        Ok((_, n)) => {
            if expect_at(toks, pos + n, TokenKind::Then) is None {
                lemma_expr_derives(toks, pos + n + 1);
                match expr_at(toks, pos + n + 1) {
                    Ok((_, m)) => {
                        if expect_at(toks, pos + n + m + 1, TokenKind::Else) is None {
                            lemma_expr_derives(toks, pos + n + m + 2);
                            assert(tok(toks, (pos + n) as int, TokenKind::Then));
                            assert(tok(toks, (pos + n + m + 1) as int, TokenKind::Else));
                        }
                    },
                    Err(_) => {},
                }
            }
        },
        Err(_) => {},
    }
}

/// What the rule finds behind a `let` is, with the `let`, an expression.
#[verifier::spinoff_prover]
pub proof fn lemma_let_derives(toks: Seq<TokenKind>, pos: nat)
    requires
        pos >= 1,
        tok(toks, pos - 1, TokenKind::Let),
    ensures
        match let_rest(toks, pos) {
            Ok((node, n)) => is_expr(toks, node, pos - 1, (pos + n) as int),
            Err(_) => true,
        },
    decreases tokens_left(toks, pos), 20nat,
{
    lemma_decl_derives(toks, pos);
    match decl_at(toks, pos) {
        Ok((_, n)) => {
            if expect_at(toks, pos + n, TokenKind::In) is None {
                lemma_expr_derives(toks, pos + n + 1);
                match expr_at(toks, pos + n + 1) {
                    Ok((_, m)) => {
                        if expect_at(toks, pos + n + m + 1, TokenKind::End) is None {
                            assert(tok(toks, (pos + n) as int, TokenKind::In));
                            assert(tok(toks, (pos + n + m + 1) as int, TokenKind::End));
                        }
                    },
                    Err(_) => {},
                }
            }
        },
        Err(_) => {},
    }
}

/// An expression that the rule finds is an expression of the grammar.
#[verifier::spinoff_prover]
pub proof fn lemma_expr_derives(toks: Seq<TokenKind>, pos: nat)
    ensures
        match expr_at(toks, pos) {
            Ok((node, n)) => is_expr(toks, node, pos as int, (pos + n) as int),
            Err(_) => true,
        },
    decreases tokens_left(toks, pos), 11nat,
{
    match peek_at(toks, pos) {
        Some(TokenKind::If) => {
            lemma_cond_derives(toks, pos + 1);
        },
        Some(TokenKind::Let) => {
            lemma_let_derives(toks, pos + 1);
        },
        Some(TokenKind::Fun) => {
            lemma_arms_derives(toks, pos + 1);
        },
        Some(_) => {
            lemma_binary_derives(toks, pos, comp_level());
        },
        None => {},
    }
}

/// A clause that the rule finds is a clause of the grammar.
#[verifier::spinoff_prover]
pub proof fn lemma_clause_derives(toks: Seq<TokenKind>, pos: nat)
    ensures
        match clause_at(toks, pos) {
            Ok((clause, n)) => is_clause(toks, clause, pos as int, (pos + n) as int),
            Err(_) => true,
        },
    decreases tokens_left(toks, pos), 12nat,
{
    lemma_pattern_derives(toks, pos);
    match pattern_at(toks, pos) {
        Ok((_, n)) => {
            if expect_at(toks, pos + n, TokenKind::FatArrow) is None {
                lemma_expr_derives(toks, pos + n + 1);
                assert(tok(toks, (pos + n) as int, TokenKind::FatArrow));
            }
        },
        Err(_) => {},
    }
}

/// The clauses that the rule appends to a reading from `a` on go on with
/// that reading.
#[verifier::spinoff_prover]
pub proof fn lemma_arms_rest_derives(
    toks: Seq<TokenKind>,
    pos: nat,
    clauses: Seq<(PatternView, NodeView)>,
    a: int,
)
    requires
        is_arms(toks, clauses, clauses.len(), a, pos as int),
    ensures
        match arms_rest(toks, pos, clauses) {
            Ok((all, m)) => is_arms(toks, all, all.len(), a, (pos + m) as int),
            Err(_) => true,
        },
    decreases tokens_left(toks, pos), 13nat,
{
    if peek_at(toks, pos) == Some(TokenKind::Bar) {
        lemma_clause_derives(toks, pos + 1);
        match clause_at(toks, pos + 1) {
            Ok((clause, n)) => {
                let more = clauses.push(clause);
                lemma_arms_prefix(toks, clauses, more, clauses.len(), a, pos as int);
                assert(tok(toks, pos as int, TokenKind::Bar));
                assert(is_arms(toks, more, more.len(), a, (pos + 1 + n) as int));
                lemma_arms_rest_derives(toks, pos + 1 + n, more, a);
            },
            Err(_) => {},
        }
    }
}

/// The clauses that the rule finds are clauses of the grammar.
#[verifier::spinoff_prover]
pub proof fn lemma_arms_derives(toks: Seq<TokenKind>, pos: nat)
    ensures
        match arms_at(toks, pos) {
            Ok((clauses, n)) => is_arms(toks, clauses, clauses.len(), pos as int, (pos + n) as int),
            Err(_) => true,
        },
    decreases tokens_left(toks, pos), 14nat,
{
    lemma_clause_derives(toks, pos);
    match clause_at(toks, pos) {
        Ok((clause, n)) => {
            lemma_arms_rest_derives(toks, pos + n, seq![clause], pos as int);
        },
        Err(_) => {},
    }
}

/// What the rule finds behind a `val` is, with the `val`, a declaration.
#[verifier::spinoff_prover]
pub proof fn lemma_val_derives(toks: Seq<TokenKind>, pos: nat)
    requires
        pos >= 1,
        tok(toks, pos - 1, TokenKind::Val),
    ensures
        match val_rest(toks, pos) {
            Ok((node, n)) => is_decl(toks, node, pos - 1, (pos + n) as int),
            Err(_) => true,
        },
    decreases tokens_left(toks, pos), 20nat,
{
    lemma_pattern_derives(toks, pos);
    match pattern_at(toks, pos) {
        Ok((_, n)) => {
            lemma_annotation_derives(toks, pos + n);
            match annotation_at(toks, pos + n) {
                Ok((typ, k)) => {
                    if expect_at(toks, pos + n + k, TokenKind::Equal) is None {
                        lemma_expr_derives(toks, pos + n + k + 1);
                        assert(is_annotation(toks, typ, (pos + n) as int, (pos + n + k) as int));
                        assert(tok(toks, (pos + n + k) as int, TokenKind::Equal));
                    }
                },
                Err(_) => {},
            }
        },
        Err(_) => {},
    }
}

/// What the rule finds behind `fun` and a name is, with both, a declaration.
#[verifier::spinoff_prover]
pub proof fn lemma_fun_derives(toks: Seq<TokenKind>, pos: nat, name: Seq<char>)
    requires
        pos >= 2,
        tok(toks, pos - 2, TokenKind::Fun),
        tok(toks, pos - 1, TokenKind::Id(name)),
    ensures
        match fun_rest(toks, pos, name) {
            Ok((node, n)) => is_decl(toks, node, pos - 2, (pos + n) as int),
            Err(_) => true,
        },
    decreases tokens_left(toks, pos), 20nat,
{
    lemma_arms_derives(toks, pos);
    match arms_at(toks, pos) {
        Ok((_, n)) => {
            lemma_annotation_derives(toks, pos + n);
            match annotation_at(toks, pos + n) {
                Ok((typ, k)) => {
                    assert(is_annotation(toks, typ, (pos + n) as int, (pos + n + k) as int));
                },
                Err(_) => {},
            }
        },
        Err(_) => {},
    }
}

/// A declaration that the rule finds is a declaration of the grammar.
#[verifier::spinoff_prover]
pub proof fn lemma_decl_derives(toks: Seq<TokenKind>, pos: nat)
    ensures
        match decl_at(toks, pos) {
            Ok((node, n)) => is_decl(toks, node, pos as int, (pos + n) as int),
            Err(_) => true,
        },
    decreases tokens_left(toks, pos), 15nat,
{
    match peek_at(toks, pos) {
        Some(TokenKind::Val) => {
            lemma_val_derives(toks, pos + 1);
        },
        Some(TokenKind::Fun) => {
            match peek_at(toks, pos + 1) {
                Some(TokenKind::Id(name)) => {
                    lemma_fun_derives(toks, pos + 2, name);
                },
                _ => {},
            }
        },
        _ => {},
    }
}

/// The declarations that the rule appends behind `;` to those read from
/// `a` on, the last of which are `decls`, go on with that reading.
#[verifier::spinoff_prover]
pub proof fn lemma_decls_rest_derives(
    toks: Seq<TokenKind>,
    pos: nat,
    before: Seq<NodeView>,
    decls: Seq<NodeView>,
    a: int,
)
    requires
        is_decl_seq(toks, before + decls, (before + decls).len(), a, pos as int),
    ensures
        match decls_rest(toks, pos, decls) {
            Ok((all, m)) => is_decl_seq(
                toks,
                before + all,
                (before + all).len(),
                a,
                (pos + m) as int,
            ),
            Err(_) => true,
        },
    decreases tokens_left(toks, pos), 16nat,
{
    if peek_at(toks, pos) == Some(TokenKind::SemiColon) {
        lemma_decl_derives(toks, pos + 1);
        match decl_at(toks, pos + 1) {
            Ok((decl, n)) => {
                let so_far = before + decls;
                let more = before + decls.push(decl);
                assert(more =~= so_far.push(decl));
                lemma_decl_seq_prefix(toks, so_far, more, so_far.len(), a, pos as int);
                assert(separated(toks, pos as int, (pos + 1) as int));
                assert(is_decl_seq(toks, more, more.len(), a, (pos + 1 + n) as int));
                lemma_decls_rest_derives(toks, pos + 1 + n, before, decls.push(decl), a);
            },
            Err(_) => {},
        }
    }
}

/// The runs of declarations that the rule appends to those read from the
/// start on go on with that reading.
pub proof fn lemma_program_from_derives(toks: Seq<TokenKind>, pos: nat, decls: Seq<NodeView>)
    requires
        decls.len() == 0 ==> pos == 0,
        decls.len() > 0 ==> is_decl_seq(toks, decls, decls.len(), 0, pos as int),
    ensures
        match program_from(toks, pos, decls) {
            Ok((all, n)) => is_decl_seq(toks, all, all.len(), 0, (pos + n) as int) && at_end(
                toks,
                pos + n,
            ),
            Err(_) => true,
        },
    decreases tokens_left(toks, pos),
{
    lemma_program_step(toks, pos, decls);
    lemma_decl_derives(toks, pos);
    match decl_at(toks, pos) {
        Ok((decl, k)) => {
            let one = seq![decl];
            let so_far = decls + one;
            assert(so_far =~= decls.push(decl));
            if decls.len() > 0 {
                lemma_decl_seq_prefix(toks, decls, so_far, decls.len(), 0, pos as int);
                assert(separated(toks, pos as int, pos as int));
            }
            assert(is_decl_seq(toks, so_far, so_far.len(), 0, (pos + k) as int));
            lemma_decls_rest_derives(toks, pos + k, decls, one, 0);
            match decls_at(toks, pos) {
                Ok((run, n)) => {
                    if !at_end(toks, pos + n) {
                        lemma_program_from_derives(toks, pos + n, decls + run);
                    }
                },
                Err(_) => {},
            }
        },
        Err(_) => {},
    }
}

/// A program that parses is a program of the grammar: its declarations stand
/// one after the other from the first token up to the end of the input.
pub proof fn lemma_program_derives(toks: Seq<TokenKind>)
    ensures
        match program_of(toks) {
            Ok(program) => is_program(toks, program),
            Err(_) => true,
        },
{
    lemma_program_from_derives(toks, 0, Seq::empty());
    match program_from(toks, 0, Seq::empty()) {
        Ok((all, n)) => {
            assert(ends_at(toks, n as int));
            assert(is_decl_seq(toks, all, all.len(), 0, n as int));
        },
        Err(_) => {},
    }
}

/// A tuple that the parser finds, as an atom or as an expression, has no
/// element, or two or more.
pub proof fn lemma_parsed_tuple_arity(toks: Seq<TokenKind>, pos: nat)
    ensures
        match atom_at(toks, pos) {
            Ok((node, _)) => node is Tuple ==> node->Tuple_0.len() != 1,
            Err(_) => true,
        },
        match expr_at(toks, pos) {
            Ok((node, _)) => node is Tuple ==> node->Tuple_0.len() != 1,
            Err(_) => true,
        },
{
    lemma_atom_derives(toks, pos);
    match atom_at(toks, pos) {
        Ok((node, n)) => {
            if node is Tuple {
                lemma_atom_tuple_arity(toks, node, pos as int, (pos + n) as int);
            }
        },
        Err(_) => {},
    }
    lemma_expr_derives(toks, pos);
    match expr_at(toks, pos) {
        Ok((node, n)) => {
            if node is Tuple {
                lemma_expr_tuple_arity(toks, node, pos as int, (pos + n) as int);
            }
        },
        Err(_) => {},
    }
}

} // verus!
