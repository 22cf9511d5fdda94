use crate::ast::Type;
use crate::grammar::{annotation_at, base_type_at, tokens_left, type_at};
use crate::parse_error::ParseError;
use crate::parser::{annotation_step, type_step, Parser};
use crate::token::{lemma_view_mirrors, TokenType};
use vstd::prelude::*;

verus! {

broadcast use lemma_view_mirrors;

impl Parser {
    /// Parses a `BaseType`.
    pub fn parse_base_type(&mut self) -> (r: Result<Type, ParseError>)
        ensures
            type_step(
                *old(self),
                *final(self),
                r,
                base_type_at(old(self).kinds(), old(self).position()),
            ),
        decreases tokens_left(old(self).kinds(), old(self).position()), 0nat,
    {
        let start = self.pos;
        match self.peek() {
            Some(TokenType::TypeInt) => {
                self.consume();
                Ok(Type::Int)
            },
            Some(TokenType::TypeBool) => {
                self.consume();
                Ok(Type::Bool)
            },
            Some(TokenType::TypeChar) => {
                self.consume();
                Ok(Type::Char)
            },
            Some(TokenType::TypeString) => {
                self.consume();
                Ok(Type::String)
            },
            Some(TokenType::SingleQuote) => {
                self.consume();
                match self.peek() {
                    Some(TokenType::Id(name)) => {
                        let name = name.clone();
                        self.consume();
                        Ok(Type::Var(name))
                    },
                    _ => {
                        let e = self.fail(start, "an identifier for a type name");
                        self.rewind(start);
                        Err(e)
                    },
                }
            },
            Some(TokenType::LeftParen) => {
                self.consume();
                let first = match self.parse_type() {
                    Ok(t) => t,
                    Err(e) => {
                        self.rewind(start);
                        return Err(e);
                    },
                };
                if let Err(e) = self.expect(TokenType::Comma) {
                    self.rewind(start);
                    return Err(e);
                }
                let second = match self.parse_type() {
                    Ok(t) => t,
                    Err(e) => {
                        self.rewind(start);
                        return Err(e);
                    },
                };
                if let Err(e) = self.expect(TokenType::RightParen) {
                    self.rewind(start);
                    return Err(e);
                }
                Ok(Type::Product(Box::new(first), Box::new(second)))
            },
            _ => Err(self.fail(start, "a type")),
        }
    }

    /// Parses a `Type`.
    pub fn parse_type(&mut self) -> (r: Result<Type, ParseError>)
        ensures
            type_step(
                *old(self),
                *final(self),
                r,
                type_at(old(self).kinds(), old(self).position()),
            ),
        decreases tokens_left(old(self).kinds(), old(self).position()), 1nat,
    {
        let start = self.pos;
        let base = match self.parse_base_type() {
            Ok(t) => t,
            Err(e) => {
                return Err(e);
            },
        };
        match self.peek() {
            Some(TokenType::Arrow) => {
                self.consume();
                match self.parse_type() {
                    Ok(codomain) => Ok(Type::Arrow(Box::new(base), Box::new(codomain))),
                    Err(e) => {
                        self.rewind(start);
                        Err(e)
                    },
                }
            },
            Some(TokenType::Multiply) => {
                self.consume();
                match self.parse_type() {
                    Ok(right) => Ok(Type::Product(Box::new(base), Box::new(right))),
                    Err(e) => {
                        self.rewind(start);
                        Err(e)
                    },
                }
            },
            _ => Ok(base),
        }
    }

    /// Parses an optional type annotation, `(':' Type)?`.
    pub fn parse_annotation(&mut self) -> (r: Result<Option<Type>, ParseError>)
        ensures
            annotation_step(
                *old(self),
                *final(self),
                r,
                annotation_at(old(self).kinds(), old(self).position()),
            ),
    {
        let start = self.pos;
        match self.peek() {
            Some(TokenType::Colon) => {
                self.consume();
                match self.parse_type() {
                    Ok(typ) => Ok(Some(typ)),
                    Err(e) => {
                        self.rewind(start);
                        Err(e)
                    },
                }
            },
            _ => Ok(None),
        }
    }
}

} // verus!
