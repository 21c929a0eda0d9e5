//! Lexing of preprocessed C source code into [`Token`](crate::token::Token)s, built
//! from a position-tracking source stream and one matcher per kind of token.

pub mod matchers;
pub mod stream;
