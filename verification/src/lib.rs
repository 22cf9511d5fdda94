//! Front end of a small ML-like expression language: a tokenizer and a
//! recursive-descent parser.
//!
//! [`lexer::Lexer`] cuts a source text into tokens, and [`parser::Parser`]
//! builds the syntax tree of a token sequence or gives the first error. What
//! either computes is stated as a function: [`scan::tokens_of`] for the
//! tokens of a text, and [`grammar::program_of`] for the program that a
//! token sequence denotes. [`derivation`] states the grammar as relations
//! between trees and stretches of tokens, and shows that the parser finds
//! only trees of the grammar; [`positions`] and [`laws`] hold what else is
//! proved of the two functions.
//!
//! Around them stand [`passes`], which walk over a finished tree, and
//! [`symtab`], a table of scopes.
pub mod ast;
pub mod derivation;
pub mod grammar;
pub mod laws;
pub mod lexer;
pub mod parse_error;
pub mod parser;
pub mod passes;
pub mod positions;
pub mod scan;
pub mod symtab;
pub mod text;
pub mod token;
