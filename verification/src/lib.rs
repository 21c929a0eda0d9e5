//! A small x86_64 C compiler: lexing, parsing and assembly generation, with
//! their behaviour stated as contracts and proved.

pub mod text;
pub mod token;
pub mod compiler;
pub mod lexer;
pub mod paths;
pub mod parse_cli;
pub mod report;
