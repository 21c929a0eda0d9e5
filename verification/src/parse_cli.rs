//! The command-line interface of the compiler: its options, and the stage at which
//! they stop compilation.

use vstd::prelude::*;

verus! {

/// All available arguments and flags.
#[derive(Clone, Debug)]
pub struct Cli {
    /// Run the lexer, but stop before parsing.
    pub lex: bool,
    /// Run the lexer and parser, but stop before assembly generation.
    pub parse: bool,
    /// Perform lexing, parsing, and assembly generation, but stop before code emission.
    pub codegen: bool,
    /// Emit an assembly file without assembling or linking it.
    pub assembly: bool,
    /// The C file to compile.
    pub input_file: String,
}

/// The last stage that a run of the compiler performs.
#[derive(Clone, Copy, Debug, PartialEq, Eq, Structural)]
pub enum Stage {
    /// Stop after lexing.
    Lex,
    /// Stop after parsing.
    Parse,
    /// Stop after generating assembly.
    Codegen,
    /// Stop after emitting the assembly file.
    Assembly,
    /// Assemble and link the executable.
    Link,
}

impl Cli {
    /// The stage after which this run stops: the earliest stage whose flag is set,
    /// or linking when none is.
    pub fn last_stage(&self) -> (s: Stage)
        ensures
            s == (if self.lex {
                Stage::Lex
            } else if self.parse {
                Stage::Parse
            } else if self.codegen {
                Stage::Codegen
            } else if self.assembly {
                Stage::Assembly
            } else {
                Stage::Link
            }),
    {
        if self.lex {
            Stage::Lex
        } else if self.parse {
            Stage::Parse
        } else if self.codegen {
            Stage::Codegen
        } else if self.assembly {
            Stage::Assembly
        } else {
            Stage::Link
        }
    }
}

} // verus!
