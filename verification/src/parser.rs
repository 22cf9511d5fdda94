use crate::ast::{
    clauses_view, nodes_view, type_option_view, AstNode, AstPattern, BinOp, NodeView, PatternView,
    Type, TypeView,
};
use crate::grammar::{at_end, expect_at, level_op, mismatch, peek_at, program_of, starts_atom};
use crate::parse_error::{ErrKind, ErrorView, ParseError};
use crate::token::{kinds_of, lemma_view_mirrors, Token, TokenKind, TokenType};
use vstd::prelude::*;

mod atoms;
mod decls;
mod exprs;
mod patterns;
mod program;
mod types;

verus! {

broadcast use lemma_view_mirrors;

/// A cursor over a token sequence.
///
/// The parsing methods read from the cursor on. On success they leave it
/// behind the last token of what they parsed; on failure they leave it where
/// it was.
#[derive(Debug)]
pub struct Parser {
    tokens: Vec<Token>,
    pos: usize,
}

/// What a parsing method that gives a type has done, against the rule `rule`
/// evaluated at the cursor before the call.
pub open spec fn type_step(
    before: Parser,
    after: Parser,
    r: Result<Type, ParseError>,
    rule: Result<(TypeView, nat), ErrorView>,
) -> bool {
    &&& after.tokens() == before.tokens()
    &&& match rule {
        Ok((v, n)) => r is Ok && r->Ok_0@ == v && after.position() == before.position() + n,
        Err(e) => r is Err && r->Err_0@ == e && after.position() == before.position(),
    }
}

/// The same for an optional type annotation.
pub open spec fn annotation_step(
    before: Parser,
    after: Parser,
    r: Result<Option<Type>, ParseError>,
    rule: Result<(Option<TypeView>, nat), ErrorView>,
) -> bool {
    &&& after.tokens() == before.tokens()
    &&& match rule {
        Ok((v, n)) => r is Ok && type_option_view(r->Ok_0) == v && after.position()
            == before.position() + n,
        Err(e) => r is Err && r->Err_0@ == e && after.position() == before.position(),
    }
}

/// The same for a pattern.
pub open spec fn pattern_step(
    before: Parser,
    after: Parser,
    r: Result<AstPattern, ParseError>,
    rule: Result<(PatternView, nat), ErrorView>,
) -> bool {
    &&& after.tokens() == before.tokens()
    &&& match rule {
        Ok((v, n)) => r is Ok && r->Ok_0@ == v && after.position() == before.position() + n,
        Err(e) => r is Err && r->Err_0@ == e && after.position() == before.position(),
    }
}

/// The same for a node of the syntax tree.
pub open spec fn node_step(
    before: Parser,
    after: Parser,
    r: Result<AstNode, ParseError>,
    rule: Result<(NodeView, nat), ErrorView>,
) -> bool {
    &&& after.tokens() == before.tokens()
    &&& match rule {
        Ok((v, n)) => r is Ok && r->Ok_0@ == v && after.position() == before.position() + n,
        Err(e) => r is Err && r->Err_0@ == e && after.position() == before.position(),
    }
}

/// The same for a list of nodes.
pub open spec fn nodes_step(
    before: Parser,
    after: Parser,
    r: Result<Vec<Box<AstNode>>, ParseError>,
    rule: Result<(Seq<NodeView>, nat), ErrorView>,
) -> bool {
    &&& after.tokens() == before.tokens()
    &&& match rule {
        Ok((v, n)) => r is Ok && nodes_view(r->Ok_0@) == v && after.position()
            == before.position() + n,
        Err(e) => r is Err && r->Err_0@ == e && after.position() == before.position(),
    }
}

/// The same for one clause.
pub open spec fn clause_step(
    before: Parser,
    after: Parser,
    r: Result<(AstPattern, Box<AstNode>), ParseError>,
    rule: Result<((PatternView, NodeView), nat), ErrorView>,
) -> bool {
    &&& after.tokens() == before.tokens()
    &&& match rule {
        Ok((v, n)) => r is Ok && (r->Ok_0.0@, r->Ok_0.1.view()) == v && after.position()
            == before.position() + n,
        Err(e) => r is Err && r->Err_0@ == e && after.position() == before.position(),
    }
}

/// The same for a list of clauses.
pub open spec fn clauses_step(
    before: Parser,
    after: Parser,
    r: Result<Vec<(AstPattern, Box<AstNode>)>, ParseError>,
    rule: Result<(Seq<(PatternView, NodeView)>, nat), ErrorView>,
) -> bool {
    &&& after.tokens() == before.tokens()
    &&& match rule {
        Ok((v, n)) => r is Ok && clauses_view(r->Ok_0@) == v && after.position()
            == before.position() + n,
        Err(e) => r is Err && r->Err_0@ == e && after.position() == before.position(),
    }
}

/// What `parse` gives for a token sequence: the program that the kinds of
/// the tokens denote, or the error that they give.
pub open spec fn parse_outcome(tokens: Seq<Token>, r: Result<Box<AstNode>, ParseError>) -> bool {
    match program_of(kinds_of(tokens)) {
        Ok(program) => r is Ok && r->Ok_0.view() == program,
        Err(e) => r is Err && r->Err_0@ == e,
    }
}

/// Parsing the same tokens again gives the same tree, or the same error:
/// two outcomes of `parse` for token sequences of the same kinds are equal
/// in value, wherever the tokens stand in their texts.
pub proof fn lemma_parse_is_repeatable(
    a: Seq<Token>,
    b: Seq<Token>,
    first: Result<Box<AstNode>, ParseError>,
    second: Result<Box<AstNode>, ParseError>,
)
    requires
        kinds_of(a) == kinds_of(b),
        parse_outcome(a, first),
        parse_outcome(b, second),
    ensures
        match first {
            Ok(tree) => second is Ok && second->Ok_0.view() == tree.view(),
            Err(e) => second is Err && second->Err_0@ == e@,
        },
{
}

impl Parser {
    #[verifier::type_invariant]
    spec fn cursor_in_range(self) -> bool {
        self.pos <= self.tokens.len()
    }

    /// The tokens.
    pub closed spec fn tokens(&self) -> Seq<Token> {
        self.tokens@
    }

    /// The index of the token under the cursor.
    pub closed spec fn position(&self) -> nat {
        self.pos as nat
    }

    /// The kinds of the tokens: all that parsing looks at.
    pub open spec fn kinds(&self) -> Seq<TokenKind> {
        kinds_of(self.tokens())
    }

    /// A parser at the start of `tokens`.
    pub fn new(tokens: Vec<Token>) -> (r: Self)
        ensures
            r.tokens() == tokens@,
            r.position() == 0,
    {
        Parser { tokens, pos: 0 }
    }

    /// The kind of the token under the cursor.
    fn peek(&self) -> (r: Option<&TokenType>)
        ensures
            match r {
                Some(t) => peek_at(self.kinds(), self.position()) == Some(t@),
                None => peek_at(self.kinds(), self.position()) is None,
            },
            self.position() <= self.tokens().len(),
    {
        proof {
            use_type_invariant(self);
        }
        if self.pos < self.tokens.len() {
            Some(&self.tokens[self.pos].ty)
        } else {
            None
        }
    }

    /// Moves the cursor over one token, if one is left.
    fn consume(&mut self)
        ensures
            final(self).tokens() == old(self).tokens(),
            final(self).position() == if old(self).position() < old(self).tokens().len() {
                old(self).position() + 1
            } else {
                old(self).position()
            },
    {
        proof {
            use_type_invariant(&*self);
        }
        if self.pos < self.tokens.len() {
            self.pos += 1;
        }
    }

    /// Moves the cursor back to `start`.
    fn rewind(&mut self, start: usize)
        requires
            start <= old(self).position(),
        ensures
            final(self).tokens() == old(self).tokens(),
            final(self).position() == start,
    {
        proof {
            use_type_invariant(&*self);
        }
        self.pos = start;
    }

    /// The error of a rule that began at `start` and needed `what` where the
    /// cursor stands.
    fn fail(&self, start: usize, what: &str) -> (r: ParseError)
        ensures
            r@ == mismatch(self.kinds(), start as nat, self.position(), what@),
    {
        proof {
            reveal(mismatch);
        }
        let mut msg = String::from_str("Expected ");
        msg.append(what);
        msg.append(", got ");
        let kind = match self.peek() {
            Some(t) => {
                if t.is_eof() {
                    msg.append("EOF");
                    ErrKind::UnexpectedEOF
                } else {
                    let seen = t.describe();
                    msg.append(seen.as_str());
                    ErrKind::UnexpectedToken
                }
            },
            None => {
                msg.append("EOF");
                ErrKind::UnexpectedEOF
            },
        };
        ParseError::with_pos(kind, msg, start)
    }

    /// Moves over the token under the cursor if it is `expected`, and fails
    /// otherwise.
    fn expect(&mut self, expected: TokenType) -> (r: Result<(), ParseError>)
        ensures
            final(self).tokens() == old(self).tokens(),
            match expect_at(old(self).kinds(), old(self).position(), expected@) {
                None => r is Ok && final(self).position() == old(self).position() + 1,
                Some(e) => r is Err && r->Err_0@ == e && final(self).position() == old(
                    self,
                ).position(),
            },
    {
        let found = match self.peek() {
            Some(t) => *t == expected,
            None => false,
        };
        if found {
            self.consume();
            Ok(())
        } else {
            let mut what = String::from_str("'");
            let name = expected.describe();
            what.append(name.as_str());
            what.append("'");
            Err(self.fail(self.pos, what.as_str()))
        }
    }

    /// Whether the token under the cursor can begin an atom.
    fn could_start_atom(&self) -> (r: bool)
        ensures
            r == starts_atom(peek_at(self.kinds(), self.position())),
    {
        match self.peek() {
            Some(TokenType::Integer(_)) => true,
            Some(TokenType::Bool(_)) => true,
            Some(TokenType::String(_)) => true,
            Some(TokenType::Id(_)) => true,
            Some(TokenType::LeftParen) => true,
            Some(TokenType::LeftBracket) => true,
            _ => false,
        }
    }

    /// Whether the input ends at the cursor.
    fn is_at_end(&self) -> (r: bool)
        ensures
            r == at_end(self.kinds(), self.position()),
    {
        match self.peek() {
            Some(t) => t.is_eof(),
            None => true,
        }
    }

    /// The operator that the token under the cursor denotes at `level`.
    fn operator(&self, level: u8) -> (r: Option<BinOp>)
        ensures
            r == level_op(level as nat, peek_at(self.kinds(), self.position())),
            r is Some ==> self.position() < self.tokens().len(),
    {
        if level == 1 {
            match self.peek() {
                Some(TokenType::Multiply) => Some(BinOp::Mul),
                Some(TokenType::Divide) => Some(BinOp::Div),
                _ => None,
            }
        } else if level == 2 {
            match self.peek() {
                Some(TokenType::Plus) => Some(BinOp::Add),
                Some(TokenType::Minus) => Some(BinOp::Sub),
                _ => None,
            }
        } else if level == 3 {
            match self.peek() {
                Some(TokenType::StrictLess) => Some(BinOp::Lt),
                Some(TokenType::Less) => Some(BinOp::Lte),
                Some(TokenType::StrictGreater) => Some(BinOp::Gt),
                Some(TokenType::Greater) => Some(BinOp::Gte),
                Some(TokenType::Equal) => Some(BinOp::Eq),
                Some(TokenType::CompNotEqual) => Some(BinOp::Eq),
                _ => None,
            }
        } else {
            None
        }
    }
}

} // verus!
