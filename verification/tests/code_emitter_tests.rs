use cfern::compiler::asm_generator::{AsmProgram, Function, Instruction, Operand, Register};
use cfern::compiler::code_emitter::get_lines;

#[test]
fn return_2_to_lines() {
    let program = AsmProgram {
        function: Function {
            name: "main",
            instructions: vec![
                Instruction::Mov {
                    source: Operand::ImmediateInt(2),
                    destination: Operand::Register(Register::Eax),
                },
                Instruction::Ret,
            ],
        },
    };
    let expected = vec![
        String::from("\t.globl main\nmain:"),
        String::from("\tmovl $2, %eax"),
        String::from("\tret"),
        String::from("\t.section .note.GNU-stack,\"\",@progbits"),
    ];
    assert_eq!(get_lines(&program), expected);
}

#[test]
fn lines_without_instructions() {
    let program = AsmProgram {
        function: Function {
            name: "f",
            instructions: vec![],
        },
    };
    assert_eq!(
        get_lines(&program),
        vec![
            String::from("\t.globl f\nf:"),
            String::from("\t.section .note.GNU-stack,\"\",@progbits"),
        ]
    );
}
