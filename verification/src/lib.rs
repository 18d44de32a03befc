//! Lexical analysis for a small scripting language.
//!
//! A [`scanner::Scanner`] turns source text into the ordered sequence of
//! [`token::Token`]s it contains, or into a [`token::Error`] naming the line
//! of the first invalid construct.  The scan is specified by the model in
//! [`lexing`], and the properties proved of it stand in [`laws`].

pub mod laws;
pub mod lexing;
pub mod scanner;
pub mod token;
