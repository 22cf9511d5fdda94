//! What holds of every outcome of every rule of the grammar.
//!
//! A rule that succeeds stays within the token sequence and spans only tokens
//! for which the grammar has a use: an `Error` token, for one, is always
//! rejected. A rule that is not a repetition takes at least one token. A
//! rule that fails gives an error of an unexpected token or of an unexpected
//! end of the input, at an index from its own start on.
use crate::ast::{NodeView, PatternView};
use crate::grammar::{
    annotation_at, app_at, app_rest, apply, arms_at, arms_rest, at_end, atom_at, base_type_at,
    binary, binary_at, binary_rest, clause_at, comp_level, cond_rest, decl_at, decls_at, decls_rest,
    expr_at, fun_rest, items_rest, lemma_program_step, let_rest, level_op, list_rest, mismatch,
    paren_rest, pattern_at, peek_at, program_from, program_of, starts_atom, tokens_left, type_at,
    val_rest,
};
use crate::parse_error::{ErrKind, ErrorView};
use crate::token::TokenKind;
use vstd::prelude::*;

verus! {

/// Whether `e` is an error that a rule starting at `pos` can give: of an
/// unexpected token, at the index of a token from `pos` on, or of an
/// unexpected end of the input, at an index from `pos` up to the length of
/// the sequence.
pub open spec fn error_in_range(toks: Seq<TokenKind>, pos: nat, e: ErrorView) -> bool {
    &&& e.kind == ErrKind::UnexpectedToken || e.kind == ErrKind::UnexpectedEOF
    &&& e.pos is Some
    &&& pos <= e.pos->0 <= toks.len()
    &&& e.kind == ErrKind::UnexpectedToken ==> e.pos->0 < toks.len()
}

/// Whether the grammar has no use for a kind of token: no rule accepts one.
pub open spec fn has_no_use(kind: TokenKind) -> bool {
    ||| kind is Error
    ||| kind is EOF
    ||| kind is Float
    ||| kind is Case
    ||| kind is Of
    ||| kind is Type
    ||| kind is Cons
    ||| kind is Nil
    ||| kind is KwNone
    ||| kind is KwSome
}

/// Whether the grammar has a use for every token from `from` up to `to`.
pub open spec fn all_used(toks: Seq<TokenKind>, from: nat, to: nat) -> bool {
    forall|i: int| from <= i < to && i < toks.len() ==> !has_no_use(#[trigger] toks[i])
}

/// Whether an outcome of a rule at `pos` is within the token sequence: a
/// success spans tokens of the sequence, for each of which the grammar has a
/// use, and a failure is in range.
pub open spec fn in_range<T>(toks: Seq<TokenKind>, pos: nat, r: Result<(T, nat), ErrorView>) -> bool {
    match r {
        Ok((_, n)) => pos + n <= toks.len() && all_used(toks, pos, pos + n),
        Err(e) => error_in_range(toks, pos, e),
    }
}

/// Whether an outcome of a rule at `pos` is within the token sequence and,
/// where it is a success, spans at least one token.
pub open spec fn in_range_nonempty<T>(
    toks: Seq<TokenKind>,
    pos: nat,
    r: Result<(T, nat), ErrorView>,
) -> bool {
    &&& in_range(toks, pos, r)
    &&& match r {
        Ok((_, n)) => n >= 1,
        Err(_) => true,
    }
}

/// Where the grammar has a use for the token at `from` and for every token
/// behind it up to `to`, it has a use for every token from `from` up to `to`.
proof fn lemma_one_more_used(toks: Seq<TokenKind>, from: nat, to: nat)
    requires
        from < toks.len(),
        !has_no_use(toks[from as int]) ==> all_used(toks, from + 1, to),
    ensures
        !has_no_use(toks[from as int]) ==> all_used(toks, from, to),
{
}

/// The error of a rule that began at `start` within the sequence and looked
/// at `at`, at or behind its start, is in range for every position up to
/// `start`.
pub broadcast proof fn lemma_mismatch_in_range(
    toks: Seq<TokenKind>,
    start: nat,
    at: nat,
    what: Seq<char>,
)
    requires
        start <= at,
        start <= toks.len(),
    ensures
        error_in_range(toks, start, #[trigger] mismatch(toks, start, at, what)),
{
    reveal(mismatch);
}

/// `BaseType`.
#[verifier::spinoff_prover]
pub proof fn lemma_base_type_in_range(toks: Seq<TokenKind>, pos: nat)
    requires
        pos <= toks.len(),
    ensures
        in_range_nonempty(toks, pos, base_type_at(toks, pos)),
    decreases tokens_left(toks, pos), 0nat,
{
    broadcast use lemma_mismatch_in_range;

    match peek_at(toks, pos) {
        Some(TokenKind::LeftParen) => {
            lemma_type_in_range(toks, pos + 1);
            match type_at(toks, pos + 1) {
                Ok((_, n)) => {
                    if peek_at(toks, pos + 1 + n) == Some(TokenKind::Comma) {
                        lemma_type_in_range(toks, pos + n + 2);
                    }
                },
                Err(_) => {},
            }
        },
        _ => {},
    }
}

/// `Type`.
#[verifier::spinoff_prover]
pub proof fn lemma_type_in_range(toks: Seq<TokenKind>, pos: nat)
    requires
        pos <= toks.len(),
    ensures
        in_range_nonempty(toks, pos, type_at(toks, pos)),
    decreases tokens_left(toks, pos), 1nat,
{
    lemma_base_type_in_range(toks, pos);
    match base_type_at(toks, pos) {
        Ok((_, n)) => {
            match peek_at(toks, pos + n) {
                Some(TokenKind::Arrow) => {
                    lemma_type_in_range(toks, pos + n + 1);
                },
                Some(TokenKind::Multiply) => {
                    lemma_type_in_range(toks, pos + n + 1);
                },
                _ => {},
            }
        },
        Err(_) => {},
    }
}

/// `(':' Type)?`.
#[verifier::spinoff_prover]
pub proof fn lemma_annotation_in_range(toks: Seq<TokenKind>, pos: nat)
    requires
        pos <= toks.len(),
    ensures
        in_range(toks, pos, annotation_at(toks, pos)),
{
    if peek_at(toks, pos) == Some(TokenKind::Colon) {
        lemma_type_in_range(toks, pos + 1);
    }
}

/// `Pattern`.
#[verifier::spinoff_prover]
pub proof fn lemma_pattern_in_range(toks: Seq<TokenKind>, pos: nat)
    requires
        pos <= toks.len(),
    ensures
        in_range_nonempty(toks, pos, pattern_at(toks, pos)),
    decreases tokens_left(toks, pos),
{
    broadcast use lemma_mismatch_in_range;

    match peek_at(toks, pos) {
        Some(TokenKind::LeftParen) => {
            lemma_pattern_in_range(toks, pos + 1);
            match pattern_at(toks, pos + 1) {
                Ok((_, n)) => {
                    if peek_at(toks, pos + 1 + n) == Some(TokenKind::Comma) {
                        lemma_pattern_in_range(toks, pos + n + 2);
                    }
                },
                Err(_) => {},
            }
        },
        _ => {},
    }
}

/// `(',' Expr)*`.
#[verifier::spinoff_prover]
pub proof fn lemma_items_in_range(toks: Seq<TokenKind>, pos: nat, items: Seq<NodeView>)
    requires
        pos <= toks.len(),
    ensures
        in_range(toks, pos, items_rest(toks, pos, items)),
    decreases tokens_left(toks, pos), 0nat,
{
    if peek_at(toks, pos) == Some(TokenKind::Comma) {
        lemma_expr_in_range(toks, pos + 1);
        match expr_at(toks, pos + 1) {
            Ok((item, n)) => {
                lemma_items_in_range(toks, pos + 1 + n, items.push(item));
            },
            Err(_) => {},
        }
    }
}

/// What follows a `(`.
#[verifier::spinoff_prover]
pub proof fn lemma_paren_in_range(toks: Seq<TokenKind>, pos: nat)
    requires
        pos <= toks.len(),
    ensures
        in_range_nonempty(toks, pos, paren_rest(toks, pos)),
    decreases tokens_left(toks, pos), 20nat,
{
    broadcast use lemma_mismatch_in_range;

    if peek_at(toks, pos) != Some(TokenKind::RightParen) {
        lemma_expr_in_range(toks, pos);
        match expr_at(toks, pos) {
            Ok((first, n)) => {
                let start = seq![first];
                lemma_items_in_range(toks, pos + n, start);
                match items_rest(toks, pos + n, start) {
                    Ok((_, m)) => {
                        if peek_at(toks, pos + n + m) == Some(TokenKind::RightParen) {
                            assert(all_used(toks, pos, pos + n + m + 1));
                        }
                    },
                    Err(_) => {},
                }
            },
            Err(_) => {},
        }
    }
}

/// What follows a `[`.
#[verifier::spinoff_prover]
pub proof fn lemma_list_in_range(toks: Seq<TokenKind>, pos: nat)
    requires
        pos <= toks.len(),
    ensures
        in_range_nonempty(toks, pos, list_rest(toks, pos)),
    decreases tokens_left(toks, pos), 20nat,
{
    broadcast use lemma_mismatch_in_range;

    if peek_at(toks, pos) != Some(TokenKind::RightBracket) {
        lemma_expr_in_range(toks, pos);
        match expr_at(toks, pos) {
            Ok((first, n)) => {
                let start = seq![first];
                lemma_items_in_range(toks, pos + n, start);
                match items_rest(toks, pos + n, start) {
                    Ok((_, m)) => {
                        if peek_at(toks, pos + n + m) == Some(TokenKind::RightBracket) {
                            assert(all_used(toks, pos, pos + n + m + 1));
                        }
                    },
                    Err(_) => {},
                }
            },
            Err(_) => {},
        }
    }
}

/// `Atom`.
#[verifier::spinoff_prover]
pub proof fn lemma_atom_in_range(toks: Seq<TokenKind>, pos: nat)
    requires
        pos <= toks.len(),
    ensures
        in_range_nonempty(toks, pos, atom_at(toks, pos)),
    decreases tokens_left(toks, pos), 1nat,
{
    broadcast use lemma_mismatch_in_range;

    match peek_at(toks, pos) {
        Some(TokenKind::LeftParen) => {
            lemma_paren_in_range(toks, pos + 1);
            match paren_rest(toks, pos + 1) {
                Ok((_, n)) => {
                    lemma_one_more_used(toks, pos, pos + 1 + n);
                },
                Err(_) => {},
            }
        },
        Some(TokenKind::LeftBracket) => {
            lemma_list_in_range(toks, pos + 1);
            match list_rest(toks, pos + 1) {
                Ok((_, n)) => {
                    lemma_one_more_used(toks, pos, pos + 1 + n);
                },
                Err(_) => {},
            }
        },
        Some(_) => {
            lemma_one_more_used(toks, pos, pos + 1);
        },
        None => {},
    }
}

/// `Atom*` after a function.
#[verifier::spinoff_prover]
pub proof fn lemma_app_rest_in_range(toks: Seq<TokenKind>, pos: nat, func: NodeView)
    requires
        pos <= toks.len(),
    ensures
        in_range(toks, pos, app_rest(toks, pos, func)),
    decreases tokens_left(toks, pos), 2nat,
{
    if starts_atom(peek_at(toks, pos)) {
        lemma_atom_in_range(toks, pos);
        match atom_at(toks, pos) {
            Ok((arg, n)) => {
                lemma_app_rest_in_range(toks, pos + n, apply(func, arg));
            },
            Err(_) => {},
        }
    }
}

/// `AppExpr`.
#[verifier::spinoff_prover]
pub proof fn lemma_app_in_range(toks: Seq<TokenKind>, pos: nat)
    requires
        pos <= toks.len(),
    ensures
        in_range_nonempty(toks, pos, app_at(toks, pos)),
    decreases tokens_left(toks, pos), 3nat,
{
    lemma_atom_in_range(toks, pos);
    match atom_at(toks, pos) {
        Ok((func, n)) => {
            lemma_app_rest_in_range(toks, pos + n, func);
        },
        Err(_) => {},
    }
}

/// The operators of a level with their right operands.
#[verifier::spinoff_prover]
pub proof fn lemma_binary_rest_in_range(
    toks: Seq<TokenKind>,
    pos: nat,
    level: nat,
    left: NodeView,
)
    requires
        pos <= toks.len(),
    ensures
        in_range(toks, pos, binary_rest(toks, pos, level, left)),
    decreases tokens_left(toks, pos), 2 * level + 3,
{
    match level_op(level, peek_at(toks, pos)) {
        Some(op) => {
            lemma_binary_in_range(toks, pos + 1, (level - 1) as nat);
            match binary_at(toks, pos + 1, (level - 1) as nat) {
                Ok((right, n)) => {
                    lemma_binary_rest_in_range(toks, pos + 1 + n, level, binary(left, op, right));
                },
                Err(_) => {},
            }
        },
        None => {},
    }
}

/// An expression of binary operators up to a level.
#[verifier::spinoff_prover]
pub proof fn lemma_binary_in_range(toks: Seq<TokenKind>, pos: nat, level: nat)
    requires
        pos <= toks.len(),
    ensures
        in_range_nonempty(toks, pos, binary_at(toks, pos, level)),
    decreases tokens_left(toks, pos), 2 * level + 4,
{
    if level == 0 {
        lemma_app_in_range(toks, pos);
    } else {
        lemma_binary_in_range(toks, pos, (level - 1) as nat);
        match binary_at(toks, pos, (level - 1) as nat) {
            Ok((left, n)) => {
                lemma_binary_rest_in_range(toks, pos + n, level, left);
            },
            Err(_) => {},
        }
    }
}

/// What follows an `if`.
#[verifier::spinoff_prover]
pub proof fn lemma_cond_in_range(toks: Seq<TokenKind>, pos: nat)
    requires
        pos <= toks.len(),
    ensures
        in_range_nonempty(toks, pos, cond_rest(toks, pos)),
    decreases tokens_left(toks, pos), 20nat,
{
    broadcast use lemma_mismatch_in_range;

    lemma_expr_in_range(toks, pos);
    match expr_at(toks, pos) {
        Ok((_, n)) => {
            if peek_at(toks, pos + n) == Some(TokenKind::Then) {
                lemma_expr_in_range(toks, pos + n + 1);
                match expr_at(toks, pos + n + 1) {
                    Ok((_, m)) => {
                        if peek_at(toks, pos + n + m + 1) == Some(TokenKind::Else) {
                            lemma_expr_in_range(toks, pos + n + m + 2);
                        }
                    },
                    Err(_) => {},
                }
            }
        },
        Err(_) => {},
    }
}

/// What follows a `let`.
#[verifier::spinoff_prover]
pub proof fn lemma_let_in_range(toks: Seq<TokenKind>, pos: nat)
    requires
        pos <= toks.len(),
    ensures
        in_range_nonempty(toks, pos, let_rest(toks, pos)),
    decreases tokens_left(toks, pos), 20nat,
{
    broadcast use lemma_mismatch_in_range;

    lemma_decl_in_range(toks, pos);
    match decl_at(toks, pos) {
        Ok((_, n)) => {
            if peek_at(toks, pos + n) == Some(TokenKind::In) {
                lemma_expr_in_range(toks, pos + n + 1);
            }
        },
        Err(_) => {},
    }
}

/// `Expr`.
#[verifier::spinoff_prover]
pub proof fn lemma_expr_in_range(toks: Seq<TokenKind>, pos: nat)
    requires
        pos <= toks.len(),
    ensures
        in_range_nonempty(toks, pos, expr_at(toks, pos)),
    decreases tokens_left(toks, pos), 11nat,
{
    broadcast use lemma_mismatch_in_range;

    match peek_at(toks, pos) {
        Some(TokenKind::If) => {
            lemma_cond_in_range(toks, pos + 1);
        },
        Some(TokenKind::Let) => {
            lemma_let_in_range(toks, pos + 1);
        },
        Some(TokenKind::Fun) => {
            lemma_arms_in_range(toks, pos + 1);
        },
        Some(_) => {
            lemma_binary_in_range(toks, pos, comp_level());
        },
        None => {},
    }
}

/// One clause.
#[verifier::spinoff_prover]
pub proof fn lemma_clause_in_range(toks: Seq<TokenKind>, pos: nat)
    requires
        pos <= toks.len(),
    ensures
        in_range_nonempty(toks, pos, clause_at(toks, pos)),
    decreases tokens_left(toks, pos), 12nat,
{
    broadcast use lemma_mismatch_in_range;

    lemma_pattern_in_range(toks, pos);
    match pattern_at(toks, pos) {
        Ok((_, n)) => {
            if peek_at(toks, pos + n) == Some(TokenKind::FatArrow) {
                lemma_expr_in_range(toks, pos + n + 1);
            }
        },
        Err(_) => {},
    }
}

/// The clauses that follow a list of clauses.
#[verifier::spinoff_prover]
pub proof fn lemma_arms_rest_in_range(
    toks: Seq<TokenKind>,
    pos: nat,
    clauses: Seq<(PatternView, NodeView)>,
)
    requires
        pos <= toks.len(),
    ensures
        in_range(toks, pos, arms_rest(toks, pos, clauses)),
    decreases tokens_left(toks, pos), 13nat,
{
    if peek_at(toks, pos) == Some(TokenKind::Bar) {
        lemma_clause_in_range(toks, pos + 1);
        match clause_at(toks, pos + 1) {
            Ok((clause, n)) => {
                lemma_arms_rest_in_range(toks, pos + 1 + n, clauses.push(clause));
            },
            Err(_) => {},
        }
    }
}

/// `MatchArms`.
#[verifier::spinoff_prover]
pub proof fn lemma_arms_in_range(toks: Seq<TokenKind>, pos: nat)
    requires
        pos <= toks.len(),
    ensures
        in_range_nonempty(toks, pos, arms_at(toks, pos)),
    decreases tokens_left(toks, pos), 14nat,
{
    lemma_clause_in_range(toks, pos);
    match clause_at(toks, pos) {
        Ok((clause, n)) => {
            lemma_arms_rest_in_range(toks, pos + n, seq![clause]);
        },
        Err(_) => {},
    }
}

/// What follows a `val`.
#[verifier::spinoff_prover]
pub proof fn lemma_val_in_range(toks: Seq<TokenKind>, pos: nat)
    requires
        pos <= toks.len(),
    ensures
        in_range_nonempty(toks, pos, val_rest(toks, pos)),
    decreases tokens_left(toks, pos), 20nat,
{
    broadcast use lemma_mismatch_in_range;

    lemma_pattern_in_range(toks, pos);
    match pattern_at(toks, pos) {
        Ok((_, n)) => {
            lemma_annotation_in_range(toks, pos + n);
            match annotation_at(toks, pos + n) {
                Ok((_, a)) => {
                    if peek_at(toks, pos + n + a) == Some(TokenKind::Equal) {
                        lemma_expr_in_range(toks, pos + n + a + 1);
                    }
                },
                Err(_) => {},
            }
        },
        Err(_) => {},
    }
}

/// What follows `fun` and the name of the function.
#[verifier::spinoff_prover]
pub proof fn lemma_fun_in_range(toks: Seq<TokenKind>, pos: nat, name: Seq<char>)
    requires
        pos <= toks.len(),
    ensures
        in_range_nonempty(toks, pos, fun_rest(toks, pos, name)),
    decreases tokens_left(toks, pos), 20nat,
{
    lemma_arms_in_range(toks, pos);
    match arms_at(toks, pos) {
        Ok((_, n)) => {
            lemma_annotation_in_range(toks, pos + n);
        },
        Err(_) => {},
    }
}

/// `Decl`.
#[verifier::spinoff_prover]
pub proof fn lemma_decl_in_range(toks: Seq<TokenKind>, pos: nat)
    requires
        pos <= toks.len(),
    ensures
        in_range_nonempty(toks, pos, decl_at(toks, pos)),
    decreases tokens_left(toks, pos), 15nat,
{
    broadcast use lemma_mismatch_in_range;

    match peek_at(toks, pos) {
        Some(TokenKind::Val) => {
            lemma_val_in_range(toks, pos + 1);
        },
        Some(TokenKind::Fun) => {
            match peek_at(toks, pos + 1) {
                Some(TokenKind::Id(name)) => {
                    lemma_fun_in_range(toks, pos + 2, name);
                },
                _ => {},
            }
        },
        _ => {},
    }
}

/// The declarations that follow a list of declarations.
#[verifier::spinoff_prover]
pub proof fn lemma_decls_rest_in_range(toks: Seq<TokenKind>, pos: nat, decls: Seq<NodeView>)
    requires
        pos <= toks.len(),
    ensures
        in_range(toks, pos, decls_rest(toks, pos, decls)),
    decreases tokens_left(toks, pos), 16nat,
{
    if peek_at(toks, pos) == Some(TokenKind::SemiColon) {
        lemma_decl_in_range(toks, pos + 1);
        match decl_at(toks, pos + 1) {
            Ok((decl, n)) => {
                lemma_decls_rest_in_range(toks, pos + 1 + n, decls.push(decl));
            },
            Err(_) => {},
        }
    }
}

/// `Decls`.
#[verifier::spinoff_prover]
pub proof fn lemma_decls_in_range(toks: Seq<TokenKind>, pos: nat)
    requires
        pos <= toks.len(),
    ensures
        in_range_nonempty(toks, pos, decls_at(toks, pos)),
    decreases tokens_left(toks, pos), 17nat,
{
    lemma_decl_in_range(toks, pos);
    match decl_at(toks, pos) {
        Ok((decl, n)) => {
            lemma_decls_rest_in_range(toks, pos + n, seq![decl]);
        },
        Err(_) => {},
    }
}

/// The runs of declarations from a position on.
#[verifier::spinoff_prover]
pub proof fn lemma_program_from_in_range(toks: Seq<TokenKind>, pos: nat, decls: Seq<NodeView>)
    requires
        pos <= toks.len(),
    ensures
        in_range_nonempty(toks, pos, program_from(toks, pos, decls)),
        match program_from(toks, pos, decls) {
            Ok((_, n)) => at_end(toks, pos + n),
            Err(_) => true,
        },
    decreases tokens_left(toks, pos),
{
    lemma_program_step(toks, pos, decls);
    lemma_decls_in_range(toks, pos);
    match decls_at(toks, pos) {
        Ok((run, n)) => {
            if !at_end(toks, pos + n) {
                lemma_program_from_in_range(toks, pos + n, decls + run);
            }
        },
        Err(_) => {},
    }
}

/// A program that parses holds no token for which the grammar has no use:
/// every `Error` token of the tokenizer makes the parser fail.
pub proof fn lemma_program_tokens_are_used(toks: Seq<TokenKind>)
    ensures
        match program_from(toks, 0, Seq::empty()) {
            Ok((_, n)) => n <= toks.len() && all_used(toks, 0, n) && at_end(toks, n),
            Err(_) => true,
        },
{
    lemma_program_from_in_range(toks, 0, Seq::empty());
}

/// A program that fails to parse fails with an unexpected token, at the index
/// of a token, or with an unexpected end of the input, at an index up to the
/// length of the sequence.
pub proof fn lemma_program_error_in_range(toks: Seq<TokenKind>)
    ensures
        match program_of(toks) {
            Ok(_) => true,
            Err(e) => error_in_range(toks, 0, e),
        },
{
    lemma_program_from_in_range(toks, 0, Seq::empty());
}

} // verus!
