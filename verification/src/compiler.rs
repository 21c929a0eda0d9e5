//! The compiler proper: lexing, parsing, assembly generation and emission.

pub mod token;
pub mod lexer;
pub mod parser;
pub use lexer::lex;
pub use parser::parse;
pub mod asm_generator;
pub use asm_generator::generate_asm;
pub mod code_emitter;
