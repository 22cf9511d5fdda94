use crate::ast::{lemma_nodes_view_push, nodes_view, AstNode, LiteralValue, NodeView};
use crate::derivation::lemma_parsed_tuple_arity;
use crate::grammar::{
    app_at, app_rest, atom_at, items_rest, lemma_atom_nonempty, lemma_items_rest_grows, list_rest,
    paren_rest, tokens_left,
};
use crate::parse_error::{ErrorView, ParseError};
use crate::parser::{node_step, nodes_step, Parser};
use crate::token::{lemma_view_mirrors, TokenType};
use vstd::prelude::*;

verus! {

broadcast use lemma_view_mirrors;

impl Parser {
    /// Parses `(',' Expr)*` and appends the expressions to `items`.
    #[verifier::spinoff_prover]
    #[verifier::rlimit(40)]
    pub fn parse_items(&mut self, items: Vec<Box<AstNode>>) -> (r: Result<
        Vec<Box<AstNode>>,
        ParseError,
    >)
        ensures
            nodes_step(
                *old(self),
                *final(self),
                r,
                items_rest(old(self).kinds(), old(self).position(), nodes_view(items@)),
            ),
        decreases tokens_left(old(self).kinds(), old(self).position()), 0nat,
    {
        let start = self.pos;
        let ghost toks = self.kinds();
        let ghost goal = items_rest(toks, start as nat, nodes_view(items@));
        let mut list = items;
        loop
            invariant
                self.tokens() == old(self).tokens(),
                toks == old(self).kinds(),
                start == old(self).position(),
                start <= self.position(),
                goal == items_rest(toks, start as nat, nodes_view(items@)),
                match items_rest(toks, self.position(), nodes_view(list@)) {
                    Err(e) => goal == Err::<(Seq<NodeView>, nat), ErrorView>(e),
                    Ok((all, m)) => goal == Ok::<(Seq<NodeView>, nat), ErrorView>(
                        (all, (self.position() - start + m) as nat),
                    ),
                },
            decreases tokens_left(toks, self.position()),
        {
            match self.peek() {
                Some(TokenType::Comma) => {
                    self.consume();
                    match self.parse_expr() {
                        Ok(item) => {
                            let item = Box::new(item);
                            proof {
                                lemma_nodes_view_push(list@, item);
                            }
                            list.push(item);
                        },
                        Err(e) => {
                            self.rewind(start);
                            return Err(e);
                        },
                    }
                },
                _ => {
                    return Ok(list);
                },
            }
        }
    }

    /// Parses what follows a `(`.
    #[verifier::spinoff_prover]
    #[verifier::rlimit(40)]
    pub fn parse_paren_rest(&mut self) -> (r: Result<AstNode, ParseError>)
        ensures
            node_step(
                *old(self),
                *final(self),
                r,
                paren_rest(old(self).kinds(), old(self).position()),
            ),
        decreases tokens_left(old(self).kinds(), old(self).position()), 20nat,
    {
        let start = self.pos;
        if let Some(TokenType::RightParen) = self.peek() {
            self.consume();
            let unit: Vec<Box<AstNode>> = Vec::new();
            assert(nodes_view(unit@) =~= Seq::empty());
            return Ok(AstNode::Tuple(unit));
        }
        let first = match self.parse_expr() {
            Ok(node) => node,
            Err(e) => {
                return Err(e);
            },
        };
        if let Some(TokenType::Comma) = self.peek() {
            let mut items: Vec<Box<AstNode>> = Vec::new();
            items.push(Box::new(first));
            assert(nodes_view(items@) =~= seq![first@]);
            proof {
                lemma_items_rest_grows(self.kinds(), self.position(), seq![first@]);
            }
            let items = match self.parse_items(items) {
                Ok(items) => items,
                Err(e) => {
                    self.rewind(start);
                    return Err(e);
                },
            };
            if let Err(e) = self.expect(TokenType::RightParen) {
                self.rewind(start);
                return Err(e);
            }
            Ok(AstNode::Tuple(items))
        } else {
            if let Err(e) = self.expect(TokenType::RightParen) {
                self.rewind(start);
                return Err(e);
            }
            Ok(first)
        }
    }

    /// Parses what follows a `[`.
    #[verifier::spinoff_prover]
    #[verifier::rlimit(40)]
    pub fn parse_list_rest(&mut self) -> (r: Result<AstNode, ParseError>)
        ensures
            node_step(
                *old(self),
                *final(self),
                r,
                list_rest(old(self).kinds(), old(self).position()),
            ),
        decreases tokens_left(old(self).kinds(), old(self).position()), 20nat,
    {
        let start = self.pos;
        if let Some(TokenType::RightBracket) = self.peek() {
            self.consume();
            let empty: Vec<Box<AstNode>> = Vec::new();
            assert(nodes_view(empty@) =~= Seq::empty());
            return Ok(AstNode::List(empty));
        }
        let first = match self.parse_expr() {
            Ok(node) => node,
            Err(e) => {
                return Err(e);
            },
        };
        let mut items: Vec<Box<AstNode>> = Vec::new();
        items.push(Box::new(first));
        assert(nodes_view(items@) =~= seq![first@]);
        let items = match self.parse_items(items) {
            Ok(items) => items,
            Err(e) => {
                self.rewind(start);
                return Err(e);
            },
        };
        if let Err(e) = self.expect(TokenType::RightBracket) {
            self.rewind(start);
            return Err(e);
        }
        Ok(AstNode::List(items))
    }

    /// Parses an `Atom`. A tuple that it gives has no element, or two or
    /// more.
    #[verifier::spinoff_prover]
    #[verifier::rlimit(40)]
    pub fn parse_atom(&mut self) -> (r: Result<AstNode, ParseError>)
        ensures
            node_step(
                *old(self),
                *final(self),
                r,
                atom_at(old(self).kinds(), old(self).position()),
            ),
            r is Ok && r->Ok_0@ is Tuple ==> r->Ok_0@->Tuple_0.len() != 1,
        decreases tokens_left(old(self).kinds(), old(self).position()), 1nat,
    {
        proof {
            lemma_parsed_tuple_arity(self.kinds(), self.position());
        }
        let start = self.pos;
        match self.peek() {
            Some(TokenType::Integer(text)) => {
                let text = text.clone();
                self.consume();
                Ok(AstNode::Literal(LiteralValue::Integer(text)))
            },
            Some(TokenType::Bool(text)) => {
                let text = text.clone();
                self.consume();
                Ok(AstNode::Literal(LiteralValue::Boolean(text)))
            },
            Some(TokenType::String(text)) => {
                let text = text.clone();
                self.consume();
                Ok(AstNode::Literal(LiteralValue::String(text)))
            },
            Some(TokenType::Id(name)) => {
                let name = name.clone();
                self.consume();
                Ok(AstNode::Id(name))
            },
            Some(TokenType::LeftParen) => {
                self.consume();
                match self.parse_paren_rest() {
                    Ok(node) => Ok(node),
                    Err(e) => {
                        self.rewind(start);
                        Err(e)
                    },
                }
            },
            Some(TokenType::LeftBracket) => {
                self.consume();
                match self.parse_list_rest() {
                    Ok(node) => Ok(node),
                    Err(e) => {
                        self.rewind(start);
                        Err(e)
                    },
                }
            },
            _ => Err(self.fail(start, "an atom")),
        }
    }

    /// Parses an `AppExpr`: an atom, applied to the atoms that follow it.
    #[verifier::spinoff_prover]
    #[verifier::rlimit(40)]
    pub fn parse_app_expr(&mut self) -> (r: Result<AstNode, ParseError>)
        ensures
            node_step(
                *old(self),
                *final(self),
                r,
                app_at(old(self).kinds(), old(self).position()),
            ),
        decreases tokens_left(old(self).kinds(), old(self).position()), 3nat,
    {
        let start = self.pos;
        let mut expr = match self.parse_atom() {
            Ok(node) => node,
            Err(e) => {
                return Err(e);
            },
        };
        let ghost toks = self.kinds();
        let ghost goal = app_at(toks, start as nat);
        while self.could_start_atom()
            invariant
                self.tokens() == old(self).tokens(),
                toks == old(self).kinds(),
                start == old(self).position(),
                start <= self.position(),
                goal == app_at(toks, start as nat),
                match app_rest(toks, self.position(), expr@) {
                    Err(e) => goal == Err::<(NodeView, nat), ErrorView>(e),
                    Ok((node, m)) => goal == Ok::<(NodeView, nat), ErrorView>(
                        (node, (self.position() - start + m) as nat),
                    ),
                },
            decreases tokens_left(toks, self.position()),
        {
            proof {
                lemma_atom_nonempty(toks, self.position());
            }
            match self.parse_atom() {
                Ok(arg) => {
                    expr = AstNode::App { func: Box::new(expr), arg: Box::new(arg) };
                },
                Err(e) => {
                    self.rewind(start);
                    return Err(e);
                },
            }
        }
        Ok(expr)
    }
}

} // verus!
