use crate::ast::{lemma_nodes_view_push, nodes_view, AstNode, NodeView};
use crate::grammar::{decl_at, decls_at, decls_rest, fun_rest, tokens_left, val_rest};
use crate::parse_error::{ErrorView, ParseError};
use crate::parser::{node_step, nodes_step, Parser};
use crate::token::{lemma_view_mirrors, TokenType};
use vstd::prelude::*;

verus! {

broadcast use lemma_view_mirrors;

impl Parser {
    /// Parses what follows a `val`.
    #[verifier::spinoff_prover]
    #[verifier::rlimit(40)]
    pub fn parse_val_rest(&mut self) -> (r: Result<AstNode, ParseError>)
        ensures
            node_step(
                *old(self),
                *final(self),
                r,
                val_rest(old(self).kinds(), old(self).position()),
            ),
        decreases tokens_left(old(self).kinds(), old(self).position()), 20nat,
    {
        let start = self.pos;
        let pat = match self.parse_pattern() {
            Ok(pat) => pat,
            Err(e) => {
                return Err(e);
            },
        };
        let typ = match self.parse_annotation() {
            Ok(typ) => typ,
            Err(e) => {
                self.rewind(start);
                return Err(e);
            },
        };
        if let Err(e) = self.expect(TokenType::Equal) {
            self.rewind(start);
            return Err(e);
        }
        match self.parse_expr() {
            Ok(exp) => Ok(AstNode::ValDecl { pat, typ, exp: Box::new(exp) }),
            Err(e) => {
                self.rewind(start);
                Err(e)
            },
        }
    }

    /// Parses what follows `fun` and the name of the function.
    #[verifier::spinoff_prover]
    #[verifier::rlimit(40)]
    pub fn parse_fun_rest(&mut self, name: String) -> (r: Result<AstNode, ParseError>)
        ensures
            node_step(
                *old(self),
                *final(self),
                r,
                fun_rest(old(self).kinds(), old(self).position(), name@),
            ),
        decreases tokens_left(old(self).kinds(), old(self).position()), 20nat,
    {
        let start = self.pos;
        let clauses = match self.parse_match() {
            Ok(clauses) => clauses,
            Err(e) => {
                return Err(e);
            },
        };
        match self.parse_annotation() {
            Ok(typ) => Ok(AstNode::FunDecl { name, clauses, typ }),
            Err(e) => {
                self.rewind(start);
                Err(e)
            },
        }
    }

    /// Parses a `Decl`.
    #[verifier::spinoff_prover]
    #[verifier::rlimit(40)]
    pub fn parse_decl(&mut self) -> (r: Result<AstNode, ParseError>)
        ensures
            node_step(
                *old(self),
                *final(self),
                r,
                decl_at(old(self).kinds(), old(self).position()),
            ),
        decreases tokens_left(old(self).kinds(), old(self).position()), 15nat,
    {
        let start = self.pos;
        match self.peek() {
            Some(TokenType::Val) => {
                self.consume();
                match self.parse_val_rest() {
                    Ok(node) => Ok(node),
                    Err(e) => {
                        self.rewind(start);
                        Err(e)
                    },
                }
            },
            Some(TokenType::Fun) => {
                self.consume();
                let name = match self.peek() {
                    Some(TokenType::Id(name)) => name.clone(),
                    _ => {
                        let e = self.fail(start, "an identifier after 'fun'");
                        self.rewind(start);
                        return Err(e);
                    },
                };
                self.consume();
                match self.parse_fun_rest(name) {
                    Ok(node) => Ok(node),
                    Err(e) => {
                        self.rewind(start);
                        Err(e)
                    },
                }
            },
            _ => Err(self.fail(start, "'val' or 'fun'")),
        }
    }

    /// Parses `Decls`: one declaration or more, with `;` between them.
    #[verifier::spinoff_prover]
    #[verifier::rlimit(40)]
    pub fn parse_decls(&mut self) -> (r: Result<Vec<Box<AstNode>>, ParseError>)
        ensures
            nodes_step(
                *old(self),
                *final(self),
                r,
                decls_at(old(self).kinds(), old(self).position()),
            ),
        decreases tokens_left(old(self).kinds(), old(self).position()), 17nat,
    {
        let start = self.pos;
        let mut decls: Vec<Box<AstNode>> = Vec::new();
        let decl = match self.parse_decl() {
            Ok(decl) => Box::new(decl),
            Err(e) => {
                return Err(e);
            },
        };
        decls.push(decl);
        assert(nodes_view(decls@) =~= seq![decl.view()]);
        let ghost toks = self.kinds();
        let ghost goal = decls_at(toks, start as nat);
        loop
            invariant
                self.tokens() == old(self).tokens(),
                toks == old(self).kinds(),
                start == old(self).position(),
                start <= self.position(),
                goal == decls_at(toks, start as nat),
                match decls_rest(toks, self.position(), nodes_view(decls@)) {
                    Err(e) => goal == Err::<(Seq<NodeView>, nat), ErrorView>(e),
                    Ok((all, m)) => goal == Ok::<(Seq<NodeView>, nat), ErrorView>(
                        (all, (self.position() - start + m) as nat),
                    ),
                },
            decreases tokens_left(toks, self.position()),
        {
            match self.peek() {
                Some(TokenType::SemiColon) => {
                    self.consume();
                    match self.parse_decl() {
                        Ok(decl) => {
                            let decl = Box::new(decl);
                            proof {
                                lemma_nodes_view_push(decls@, decl);
                            }
                            decls.push(decl);
                        },
                        Err(e) => {
                            self.rewind(start);
                            return Err(e);
                        },
                    }
                },
                _ => {
                    return Ok(decls);
                },
            }
        }
    }
}

} // verus!
