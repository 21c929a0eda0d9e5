use cfern::compiler::asm_generator::{
    generate_asm, parse_isize, AsmGenerationError, Instruction, Operand, Register,
};
use cfern::compiler::parser::{Expression, Function, Program, Statement};

#[test]
fn display_reg() {
    assert_eq!(Operand::Register(Register::Eax).to_string(), "%eax");
}

#[test]
fn display_imm() {
    assert_eq!(Operand::ImmediateInt(-4).to_string(), "$-4");
    assert_eq!(Operand::ImmediateInt(256).to_string(), "$256");
}

#[test]
fn display_mov() {
    assert_eq!(
        Instruction::Mov {
            source: Operand::ImmediateInt(1234),
            destination: Operand::Register(Register::Eax)
        }
        .to_string(),
        "\tmovl $1234, %eax"
    );
}

#[test]
fn display_ret() {
    assert_eq!(Instruction::Ret.to_string(), "\tret");
}

#[test]
fn display_extreme_immediates() {
    assert_eq!(Operand::ImmediateInt(0).to_string(), "$0");
    assert_eq!(Operand::ImmediateInt(isize::MIN).to_string(), format!("${}", isize::MIN));
    assert_eq!(Operand::ImmediateInt(isize::MAX).to_string(), format!("${}", isize::MAX));
}

#[test]
fn generate_return_constant() {
    let program = Program {
        function: Function {
            name: "main",
            body: Statement::Return(Expression::Constant("2")),
        },
    };
    let generated = generate_asm(&program).unwrap();
    assert_eq!(generated.function.name, "main");
    assert_eq!(
        generated.function.instructions,
        vec![
            Instruction::Mov {
                source: Operand::ImmediateInt(2),
                destination: Operand::Register(Register::Eax),
            },
            Instruction::Ret,
        ]
    );
}

#[test]
fn generate_constant_too_large() {
    let program = Program {
        function: Function {
            name: "main",
            body: Statement::Return(Expression::Constant("99999999999999999999999")),
        },
    };
    let err = generate_asm(&program).unwrap_err();
    assert_eq!(
        err,
        AsmGenerationError::IntParseError {
            input: "99999999999999999999999".to_string()
        }
    );
    assert_eq!(
        err.to_string(),
        "failed to parse string \"99999999999999999999999\" as int"
    );
}

#[test]
fn parse_isize_matches_std() {
    let cases = [
        "0", "7", "-7", "+7", "", "-", "+", "12a", "a12", " 1", "1 ", "--1", "+-1",
        "9223372036854775807", "9223372036854775808", "-9223372036854775808",
        "-9223372036854775809", "000123", "-0",
    ];
    for case in cases {
        assert_eq!(parse_isize(case), case.parse::<isize>().ok(), "input {case:?}");
    }
}

#[test]
fn print_then_parse_round_trip() {
    for v in [0isize, 1, -1, 42, -42, isize::MIN, isize::MAX, 1000000] {
        let text = Operand::ImmediateInt(v).to_string();
        assert_eq!(parse_isize(&text[1..]), Some(v));
    }
}
