//! Krusty: a small dynamically typed scripting language.
//!
//! Source text is scanned into tokens ([`lexer`]), the tokens are parsed
//! into expressions ([`parser`]), and the expressions are evaluated in a
//! chain of namespaces ([`evaluator`], [`builtins`]). What each stage
//! computes is defined by spec functions over the views of its data
//! ([`block`], [`token`], [`semantics`]), and every executable function is
//! proved to compute exactly that. [`laws`] holds what follows for all
//! programs.
//!
//! Numbers are binary64 values held by their bits ([`number`]). The program
//! around the interpreter is reached through [`evaluator::Host`]: it writes
//! what is printed, says how a number reads ([`render`]), finds and reads
//! the files of modules and loads native libraries. [`host::Recorder`] is
//! the host that keeps everything in memory.

pub mod block;
pub mod builtins;
pub mod compare;
pub mod errors;
pub mod evaluator;
pub mod host;
pub mod laws;
pub mod lexer;
pub mod number;
pub mod parser;
pub mod path;
pub mod pkg;
pub mod prompt;
pub mod render;
pub mod semantics;
pub mod text;
pub mod token;
