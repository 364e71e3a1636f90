//! Front end of a small expression-oriented scripting language: a lexer that
//! turns source text into a stream of positioned tokens, and a
//! recursive-descent parser that assembles those tokens into an expression
//! syntax tree. Both stages are specified against mathematical models of the
//! token stream and the grammar, and verified to match them.

#![verifier::loop_isolation(false)]

use vstd::prelude::*;

pub mod errors;
pub mod expr;
pub mod lexer;
pub mod grammar;
pub mod lexing;
pub mod parser;
pub mod render;
pub mod token;

verus! {

} // verus!
