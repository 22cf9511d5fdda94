use crate::ast::AstPattern;
use crate::grammar::{pattern_at, tokens_left};
use crate::parse_error::ParseError;
use crate::parser::{pattern_step, Parser};
use crate::token::{lemma_view_mirrors, TokenType};
use vstd::prelude::*;

verus! {

broadcast use lemma_view_mirrors;

impl Parser {
    /// Parses a `Pattern`.
    pub fn parse_pattern(&mut self) -> (r: Result<AstPattern, ParseError>)
        ensures
            pattern_step(
                *old(self),
                *final(self),
                r,
                pattern_at(old(self).kinds(), old(self).position()),
            ),
        decreases tokens_left(old(self).kinds(), old(self).position()),
    {
        let start = self.pos;
        match self.peek() {
            Some(TokenType::Wildcard) => {
                self.consume();
                Ok(AstPattern::Wildcard)
            },
            Some(TokenType::LeftParen) => {
                self.consume();
                let first = match self.parse_pattern() {
                    Ok(p) => p,
                    Err(e) => {
                        self.rewind(start);
                        return Err(e);
                    },
                };
                if let Err(e) = self.expect(TokenType::Comma) {
                    self.rewind(start);
                    return Err(e);
                }
                let second = match self.parse_pattern() {
                    Ok(p) => p,
                    Err(e) => {
                        self.rewind(start);
                        return Err(e);
                    },
                };
                if let Err(e) = self.expect(TokenType::RightParen) {
                    self.rewind(start);
                    return Err(e);
                }
                Ok(AstPattern::Pair(Box::new(first), Box::new(second)))
            },
            Some(TokenType::Id(name)) => {
                let name = name.clone();
                self.consume();
                Ok(AstPattern::Id(name))
            },
            Some(TokenType::Integer(_)) => {
                self.consume();
                Ok(AstPattern::Literal)
            },
            Some(TokenType::Bool(_)) => {
                self.consume();
                Ok(AstPattern::Literal)
            },
            Some(TokenType::String(_)) => {
                self.consume();
                Ok(AstPattern::Literal)
            },
            Some(TokenType::SingleQuote) => {
                self.consume();
                match self.peek() {
                    Some(TokenType::Id(name)) => {
                        let name = name.clone();
                        self.consume();
                        Ok(AstPattern::Var(name))
                    },
                    _ => {
                        let e = self.fail(start, "an identifier after a single quote in a pattern");
                        self.rewind(start);
                        Err(e)
                    },
                }
            },
            _ => Err(self.fail(start, "a pattern")),
        }
    }
}

} // verus!
