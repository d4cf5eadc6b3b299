//! Syntax-analysis core for a JavaScript-family language: a marker-based tree
//! builder, a parser core with scoped grammatical context, the declaration /
//! class / method grammar, and a typed casting layer over the finished tree.

pub mod kind;
pub mod parser;
pub mod decl;
pub mod tree;
pub mod ast;
pub mod builder;
