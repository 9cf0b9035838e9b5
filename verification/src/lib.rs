use vstd::prelude::*;

pub mod error;
pub mod lexer;
pub mod text;
pub mod notes;
pub mod ast;
pub mod parser;
pub mod metadata;
pub mod rules;
pub mod ode;
pub mod components;
pub mod checks;
pub mod tensor;
pub mod render;
pub mod blocks;
pub mod cli;
pub mod simplify;
pub mod calls;
pub mod instantiate;
pub mod operators;
pub mod sums;
pub mod declarations;
pub mod subjects;
pub mod semantics;
pub mod exactness;
pub mod indexing;
pub mod run;
pub mod number_text;
