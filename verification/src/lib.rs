//! A schema compiler for a small interface-definition language: a tokenizer
//! that tracks lines and columns, a recursive-descent parser that builds a
//! declaration tree, and code generators that render the tree as Rust or C#.

pub mod analysis;
pub mod casing;
pub mod codegen;
pub mod compiler;
pub mod csharp;
pub mod error;
pub mod grammar;
pub mod lexer;
pub mod location;
pub mod nodes;
pub mod options;
pub mod parser;
pub mod rust;
pub mod source_file;
pub mod text;
pub mod theorems;
pub mod token;
pub mod tokens;
pub mod types;
pub mod writer;
