use crate::ast::{
    clauses_view, lemma_clauses_view_push, AstNode, AstPattern, BinOp, NodeView, PatternView,
};
use crate::grammar::{
    add_level, arms_at, arms_rest, binary_at, binary_rest, clause_at, comp_level, cond_rest,
    expr_at, let_rest, mul_level, tokens_left,
};
use crate::parse_error::{ErrorView, ParseError};
use crate::parser::{clause_step, clauses_step, node_step, Parser};
use crate::token::{lemma_view_mirrors, TokenType};
use vstd::prelude::*;

verus! {

broadcast use lemma_view_mirrors;

impl Parser {
    /// Parses an expression of binary operators up to `level`.
    #[verifier::spinoff_prover]
    #[verifier::rlimit(40)]
    pub fn parse_binary(&mut self, level: u8) -> (r: Result<AstNode, ParseError>)
        ensures
            node_step(
                *old(self),
                *final(self),
                r,
                binary_at(old(self).kinds(), old(self).position(), level as nat),
            ),
        decreases tokens_left(old(self).kinds(), old(self).position()), 2 * level + 4,
    {
        if level == 0 {
            return self.parse_app_expr();
        }
        let start = self.pos;
        let mut left = match self.parse_binary(level - 1) {
            Ok(node) => node,
            Err(e) => {
                return Err(e);
            },
        };
        let ghost toks = self.kinds();
        let ghost goal = binary_at(toks, start as nat, level as nat);
        loop
            invariant
                level > 0,
                self.tokens() == old(self).tokens(),
                toks == old(self).kinds(),
                start == old(self).position(),
                start <= self.position(),
                goal == binary_at(toks, start as nat, level as nat),
                match binary_rest(toks, self.position(), level as nat, left@) {
                    Err(e) => goal == Err::<(NodeView, nat), ErrorView>(e),
                    Ok((node, m)) => goal == Ok::<(NodeView, nat), ErrorView>(
                        (node, (self.position() - start + m) as nat),
                    ),
                },
            decreases tokens_left(toks, self.position()),
        {
            let op = match self.operator(level) {
                Some(op) => op,
                None => {
                    return Ok(left);
                },
            };
            self.consume();
            match self.parse_binary(level - 1) {
                Ok(right) => {
                    left = AstNode::BinOp { left: Box::new(left), op, right: Box::new(right) };
                },
                Err(e) => {
                    self.rewind(start);
                    return Err(e);
                },
            }
        }
    }

    /// Parses a `MulExpr`.
    pub fn parse_mul_expr(&mut self) -> (r: Result<AstNode, ParseError>)
        ensures
            node_step(
                *old(self),
                *final(self),
                r,
                binary_at(old(self).kinds(), old(self).position(), mul_level()),
            ),
    {
        self.parse_binary(1)
    }

    /// Parses an `AddExpr`.
    pub fn parse_add_expr(&mut self) -> (r: Result<AstNode, ParseError>)
        ensures
            node_step(
                *old(self),
                *final(self),
                r,
                binary_at(old(self).kinds(), old(self).position(), add_level()),
            ),
    {
        self.parse_binary(2)
    }

    /// Parses a `CompExpr`.
    pub fn parse_comp_expr(&mut self) -> (r: Result<AstNode, ParseError>)
        ensures
            node_step(
                *old(self),
                *final(self),
                r,
                binary_at(old(self).kinds(), old(self).position(), comp_level()),
            ),
    {
        self.parse_binary(3)
    }

    /// Parses what follows an `if`.
    #[verifier::spinoff_prover]
    #[verifier::rlimit(40)]
    pub fn parse_cond_rest(&mut self) -> (r: Result<AstNode, ParseError>)
        ensures
            node_step(
                *old(self),
                *final(self),
                r,
                cond_rest(old(self).kinds(), old(self).position()),
            ),
        decreases tokens_left(old(self).kinds(), old(self).position()), 20nat,
    {
        let start = self.pos;
        let cond = match self.parse_expr() {
            Ok(node) => node,
            Err(e) => {
                return Err(e);
            },
        };
        if let Err(e) = self.expect(TokenType::Then) {
            self.rewind(start);
            return Err(e);
        }
        let yes = match self.parse_expr() {
            Ok(node) => node,
            Err(e) => {
                self.rewind(start);
                return Err(e);
            },
        };
        if let Err(e) = self.expect(TokenType::Else) {
            self.rewind(start);
            return Err(e);
        }
        match self.parse_expr() {
            Ok(no) => Ok(
                AstNode::If { cond: Box::new(cond), then: Box::new(yes), else_: Box::new(no) },
            ),
            Err(e) => {
                self.rewind(start);
                Err(e)
            },
        }
    }

    /// Parses what follows a `let`.
    #[verifier::spinoff_prover]
    #[verifier::rlimit(40)]
    pub fn parse_let_rest(&mut self) -> (r: Result<AstNode, ParseError>)
        ensures
            node_step(
                *old(self),
                *final(self),
                r,
                let_rest(old(self).kinds(), old(self).position()),
            ),
        decreases tokens_left(old(self).kinds(), old(self).position()), 20nat,
    {
        let start = self.pos;
        let decl = match self.parse_decl() {
            Ok(node) => node,
            Err(e) => {
                return Err(e);
            },
        };
        if let Err(e) = self.expect(TokenType::In) {
            self.rewind(start);
            return Err(e);
        }
        let body = match self.parse_expr() {
            Ok(node) => node,
            Err(e) => {
                self.rewind(start);
                return Err(e);
            },
        };
        if let Err(e) = self.expect(TokenType::End) {
            self.rewind(start);
            return Err(e);
        }
        Ok(AstNode::Let { decl: Box::new(decl), body: Box::new(body) })
    }

    /// Parses an `Expr`.
    #[verifier::spinoff_prover]
    #[verifier::rlimit(40)]
    pub fn parse_expr(&mut self) -> (r: Result<AstNode, ParseError>)
        ensures
            node_step(
                *old(self),
                *final(self),
                r,
                expr_at(old(self).kinds(), old(self).position()),
            ),
        decreases tokens_left(old(self).kinds(), old(self).position()), 11nat,
    {
        let start = self.pos;
        match self.peek() {
            Some(TokenType::If) => {
                self.consume();
                match self.parse_cond_rest() {
                    Ok(node) => Ok(node),
                    Err(e) => {
                        self.rewind(start);
                        Err(e)
                    },
                }
            },
            Some(TokenType::Let) => {
                self.consume();
                match self.parse_let_rest() {
                    Ok(node) => Ok(node),
                    Err(e) => {
                        self.rewind(start);
                        Err(e)
                    },
                }
            },
            Some(TokenType::Fun) => {
                self.consume();
                match self.parse_match() {
                    Ok(clauses) => Ok(AstNode::Fn { clauses }),
                    Err(e) => {
                        self.rewind(start);
                        Err(e)
                    },
                }
            },
            Some(_) => self.parse_binary(3),
            None => Err(self.fail(start, "an expression")),
        }
    }

    /// Parses one clause, `Pattern '=>' Expr`.
    #[verifier::spinoff_prover]
    #[verifier::rlimit(40)]
    pub fn parse_clause(&mut self) -> (r: Result<(AstPattern, Box<AstNode>), ParseError>)
        ensures
            clause_step(
                *old(self),
                *final(self),
                r,
                clause_at(old(self).kinds(), old(self).position()),
            ),
        decreases tokens_left(old(self).kinds(), old(self).position()), 12nat,
    {
        let start = self.pos;
        let pat = match self.parse_pattern() {
            Ok(pat) => pat,
            Err(e) => {
                return Err(e);
            },
        };
        if let Err(e) = self.expect(TokenType::FatArrow) {
            self.rewind(start);
            return Err(e);
        }
        match self.parse_expr() {
            Ok(body) => Ok((pat, Box::new(body))),
            Err(e) => {
                self.rewind(start);
                Err(e)
            },
        }
    }

    /// Parses `MatchArms`: one clause or more, with `|` between them.
    #[verifier::spinoff_prover]
    #[verifier::rlimit(40)]
    pub fn parse_match(&mut self) -> (r: Result<Vec<(AstPattern, Box<AstNode>)>, ParseError>)
        ensures
            clauses_step(
                *old(self),
                *final(self),
                r,
                arms_at(old(self).kinds(), old(self).position()),
            ),
        decreases tokens_left(old(self).kinds(), old(self).position()), 14nat,
    {
        let start = self.pos;
        let mut arms: Vec<(AstPattern, Box<AstNode>)> = Vec::new();
        let clause = match self.parse_clause() {
            Ok(clause) => clause,
            Err(e) => {
                return Err(e);
            },
        };
        proof {
            lemma_clauses_view_push(arms@, clause);
        }
        arms.push(clause);
        assert(clauses_view(arms@) =~= seq![(clause.0@, clause.1.view())]);
        let ghost toks = self.kinds();
        let ghost goal = arms_at(toks, start as nat);
        loop
            invariant
                self.tokens() == old(self).tokens(),
                toks == old(self).kinds(),
                start == old(self).position(),
                start <= self.position(),
                goal == arms_at(toks, start as nat),
                match arms_rest(toks, self.position(), clauses_view(arms@)) {
                    Err(e) => goal == Err::<(Seq<(PatternView, NodeView)>, nat), ErrorView>(e),
                    Ok((all, m)) => goal == Ok::<(Seq<(PatternView, NodeView)>, nat), ErrorView>(
                        (all, (self.position() - start + m) as nat),
                    ),
                },
            decreases tokens_left(toks, self.position()),
        {
            match self.peek() {
                Some(TokenType::Bar) => {
                    self.consume();
                    match self.parse_clause() {
                        Ok(clause) => {
                            proof {
                                lemma_clauses_view_push(arms@, clause);
                            }
                            arms.push(clause);
                        },
                        Err(e) => {
                            self.rewind(start);
                            return Err(e);
                        },
                    }
                },
                _ => {
                    return Ok(arms);
                },
            }
        }
    }
}

} // verus!
