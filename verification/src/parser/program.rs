use crate::ast::{lemma_nodes_view_concat, nodes_view, AstNode, NodeView};
use crate::derivation::{is_program, lemma_program_derives};
use crate::grammar::{
    at_end, lemma_program_is_not_empty, lemma_program_step, program_from, tokens_left,
};
use crate::laws::{
    all_used, error_in_range, lemma_program_error_in_range, lemma_program_tokens_are_used,
};
use crate::parse_error::{ErrorView, ParseError};
use crate::parser::{parse_outcome, Parser};
use crate::token::lemma_view_mirrors;
use vstd::prelude::*;

verus! {

broadcast use lemma_view_mirrors;

impl Parser {
    /// Parses a whole program, from the first token on, whatever the cursor
    /// was: runs of declarations up to the end of the input.
    ///
    /// The result depends on the kinds of the tokens alone. On success the
    /// tokens up to the end of the input read as the program, which holds at
    /// least one declaration, and the cursor stands at the end of the input;
    /// on failure the cursor stands at the first token.
    pub fn parse(&mut self) -> (r: Result<Box<AstNode>, ParseError>)
        ensures
            final(self).tokens() == old(self).tokens(),
            parse_outcome(old(self).tokens(), r),
            r is Ok ==> r->Ok_0.view() is Program && r->Ok_0.view()->Program_0.len() >= 1,
            r is Ok ==> is_program(old(self).kinds(), r->Ok_0.view()),
            r is Ok ==> at_end(old(self).kinds(), final(self).position()) && all_used(
                old(self).kinds(),
                0,
                final(self).position(),
            ),
            r is Err ==> error_in_range(old(self).kinds(), 0, r->Err_0@),
            match program_from(old(self).kinds(), 0, Seq::empty()) {
                Ok((_, n)) => final(self).position() == n,
                Err(_) => final(self).position() == 0,
            },
    {
        proof {
            lemma_program_is_not_empty(self.kinds());
        }
        self.rewind(0);
        let mut decls: Vec<Box<AstNode>> = Vec::new();
        assert(nodes_view(decls@) =~= Seq::empty());
        let ghost toks = self.kinds();
        let ghost goal = program_from(toks, 0, Seq::empty());
        loop
            invariant
                self.tokens() == old(self).tokens(),
                toks == old(self).kinds(),
                goal == program_from(toks, 0, Seq::empty()),
                match program_from(toks, self.position(), nodes_view(decls@)) {
                    Err(e) => goal == Err::<(Seq<NodeView>, nat), ErrorView>(e),
                    Ok((all, m)) => goal == Ok::<(Seq<NodeView>, nat), ErrorView>(
                        (all, self.position() + m),
                    ),
                },
            decreases tokens_left(toks, self.position()),
        {
            proof {
                lemma_program_step(toks, self.position(), nodes_view(decls@));
            }
            let mut run = match self.parse_decls() {
                Ok(run) => run,
                Err(e) => {
                    proof {
                        lemma_program_error_in_range(toks);
                    }
                    self.rewind(0);
                    return Err(e);
                },
            };
            proof {
                lemma_nodes_view_concat(decls@, run@);
            }
            decls.append(&mut run);
            if self.is_at_end() {
                proof {
                    lemma_program_tokens_are_used(toks);
                    lemma_program_derives(toks);
                }
                return Ok(Box::new(AstNode::Program(decls)));
            }
        }
    }
}

} // verus!
