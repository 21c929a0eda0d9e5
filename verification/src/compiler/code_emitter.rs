//! The lines of assembly code that a program is emitted as.

use crate::compiler::asm_generator::{function_header_text, instruction_text, AsmProgram};
use vstd::prelude::*;
use vstd::string::StringExecFns;

verus! {

/// The line that marks the stack as not executable.
pub open spec fn stack_note_text() -> Seq<char> {
    "\t.section .note.GNU-stack,\"\",@progbits"@
}

/// The lines of assembly code for `program`: the function header, one line per
/// instruction, and the stack note.
pub fn get_lines(program: &AsmProgram) -> (lines: Vec<String>)
    ensures
        lines@.map_values(|l: String| l@) == seq![function_header_text(program.function.name@)]
            + program.function.instructions@.map_values(|i| instruction_text(i)) + seq![
            stack_note_text(),
        ],
        lines@.len() == program.function.instructions@.len() + 2,
        lines@[0]@ == "\t.globl "@ + program.function.name@ + "\n"@ + program.function.name@
            + ":"@,
        forall|i: int|
            0 <= i < program.function.instructions@.len() ==> #[trigger] lines@[i + 1]@
                == instruction_text(program.function.instructions@[i]),
        lines@[lines@.len() - 1]@ == "\t.section .note.GNU-stack,\"\",@progbits"@,
{
    let mut lines: Vec<String> = Vec::new();

    lines.push(program.function.name_string_asm());

    let instructions = &program.function.instructions;
    let mut i: usize = 0;
    while i < instructions.len()
        invariant
            instructions == &program.function.instructions,
            i <= instructions.len(),
            lines@.map_values(|l: String| l@) == seq![function_header_text(program.function.name@)]
                + instructions@.take(i as int).map_values(|i| instruction_text(i)),
        decreases instructions.len() - i,
    {
        let ghost before = lines@.map_values(|l: String| l@);
        lines.push(instructions[i].to_string());
        proof {
            assert(instructions@.take(i + 1) =~= instructions@.take(i as int).push(
                instructions@[i as int],
            ));
            assert(lines@.map_values(|l: String| l@) =~= before.push(
                instruction_text(instructions@[i as int]),
            ));
            assert(instructions@.take(i + 1).map_values(|i| instruction_text(i)) =~= instructions@.take(
                i as int,
            ).map_values(|i| instruction_text(i)).push(instruction_text(instructions@[i as int])));
        }
        i = i + 1;
    }
    let ghost before = lines@.map_values(|l: String| l@);
    let mut note = String::new();
    note.append("\t.section .note.GNU-stack,\"\",@progbits");
    lines.push(note);
    proof {
        assert(instructions@.take(i as int) =~= instructions@);
        assert(lines@.map_values(|l: String| l@) =~= before.push(stack_note_text()));
        let m = lines@.map_values(|l: String| l@);
        let n = instructions@.len() as int;
        assert(m.len() == n + 2);
        assert(lines@[0]@ == m[0]);
        assert forall|j: int| 0 <= j < n implies #[trigger] lines@[j + 1]@ == instruction_text(
            instructions@[j],
        ) by {
            assert(lines@[j + 1]@ == m[j + 1]);
        }
        assert(lines@[n + 1]@ == m[n + 1]);
    }
    lines
}

} // verus!
