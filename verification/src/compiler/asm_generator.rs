//! Generation of an assembly abstract syntax tree from a C abstract syntax tree.

use crate::compiler::parser::{self, Expression, ExpressionView, Program, ProgramView, Statement, StatementView};
use crate::text::{
    char_is_ascii_digit, decimal, is_ascii_digit, push_signed_decimal, signed_decimal, str_chars,
};
use vstd::prelude::*;
use vstd::string::StringExecFns;

verus! {

/// Generates an assembly abstract syntax tree from a [`Program`] abstract syntax tree.
///
/// For `return CONSTANT;` it succeeds exactly when the constant is an integer literal
/// whose value fits in `isize`, and then the function keeps its name and has exactly two
/// instructions: a `movl` of that value as an immediate into `%eax`, then `ret`.
/// Otherwise the error carries the constant's text.
pub fn generate_asm<'a>(ast: &Program<'a>) -> (r: Result<AsmProgram<'a>, AsmGenerationError>)
    ensures
        is_generated(asm_of(ast@), r),
        match ast@.function.body {
            StatementView::Return(ExpressionView::Constant(c)) => {
                &&& (r is Ok <==> (int_literal_value(c) matches Some(v) && isize::MIN <= v
                    <= isize::MAX))
                &&& (r matches Ok(a) ==> {
                    &&& a@.function.name == ast@.function.name
                    &&& a@.function.instructions.len() == 2
                    &&& a@.function.instructions[0] == Instruction::Mov {
                        source: Operand::ImmediateInt((int_literal_value(c)->0) as isize),
                        destination: Operand::Register(Register::Eax),
                    }
                    &&& a@.function.instructions[1] == Instruction::Ret
                    &&& (int_literal_value(c)->0) as isize == int_literal_value(c)->0
                })
                &&& (r matches Err(AsmGenerationError::IntParseError { input }) ==> input@ == c)
            },
        },
{
    parse_program(ast)
}

/// The root node of an ASM abstract syntax tree. Represents an ASM program.
#[derive(Clone, Debug, PartialEq, Eq)]
pub struct AsmProgram<'a> {
    /// The program's only function.
    pub function: Function<'a>,
}

/// Represents a function within an ASM abstract syntax tree.
#[derive(Clone, Debug, PartialEq, Eq)]
pub struct Function<'a> {
    /// The function's name.
    pub name: &'a str,
    /// The function's instructions, in order.
    pub instructions: Vec<Instruction>,
}

/// Represents an ASM instruction within an ASM abstract syntax tree.
#[derive(Clone, Debug, PartialEq, Eq, Structural)]
pub enum Instruction {
    /// `movl source, destination`.
    Mov {
        /// The operand read.
        source: Operand,
        /// The operand written.
        destination: Operand,
    },
    /// `ret`.
    Ret,
}

/// Represents an operand used in an ASM instruction within an ASM abstract syntax tree.
#[derive(Clone, Debug, PartialEq, Eq, Structural)]
pub enum Operand {
    /// A register.
    Register(Register),
    /// An immediate integer.
    ImmediateInt(isize),
}

/// Represents a particular register used as an operand within an ASM abstract syntax tree.
#[derive(Copy, Clone, Debug, PartialEq, Eq, Structural)]
pub enum Register {
    /// The `eax` register.
    Eax,
}

/// An error which can occur whilst generating assembly from a [`Program`].
#[derive(Clone, Debug, PartialEq, Eq)]
pub enum AsmGenerationError {
    /// A constant that does not parse as an `isize`.
    IntParseError {
        /// The text of the constant.
        input: String,
    },
}

/// The mathematical value of an assembly [`Function`].
pub struct AsmFunctionView {
    /// The function's name.
    pub name: Seq<char>,
    /// The function's instructions, in order.
    pub instructions: Seq<Instruction>,
}

/// The mathematical value of an [`AsmProgram`].
pub struct AsmProgramView {
    /// The program's only function.
    pub function: AsmFunctionView,
}

impl<'a> View for Function<'a> {
    type V = AsmFunctionView;

    open spec fn view(&self) -> AsmFunctionView {
        AsmFunctionView { name: self.name@, instructions: self.instructions@ }
    }
}

impl<'a> View for AsmProgram<'a> {
    type V = AsmProgramView;

    open spec fn view(&self) -> AsmProgramView {
        AsmProgramView { function: self.function@ }
    }
}

/// The value of a sequence of decimal digits.
pub open spec fn digits_value(d: Seq<char>) -> int
    decreases d.len(),
{
    if d.len() == 0 {
        0
    } else {
        digits_value(d.drop_last()) * 10 + (d.last() as int - '0' as int)
    }
}

/// Every character of `d` is a decimal digit.
pub open spec fn all_digits(d: Seq<char>) -> bool {
    forall|i: int| 0 <= i < d.len() ==> is_ascii_digit(#[trigger] d[i])
}

/// The value of the integer literal `s`: an optional `+` or `-` sign followed by one or
/// more decimal digits.
pub open spec fn int_literal_value(s: Seq<char>) -> Option<int> {
    let signed = s.len() > 0 && (s[0] == '-' || s[0] == '+');
    let d = if signed {
        s.drop_first()
    } else {
        s
    };
    if d.len() > 0 && all_digits(d) {
        if signed && s[0] == '-' {
            Some(-digits_value(d))
        } else {
            Some(digits_value(d))
        }
    } else {
        None
    }
}

/// The `isize` that `s` spells, as parsing a string into an `isize` gives it: an
/// integer literal whose value fits in `isize`.
pub open spec fn isize_value(s: Seq<char>) -> Option<isize> {
    match int_literal_value(s) {
        Some(v) => if isize::MIN <= v <= isize::MAX {
            Some(v as isize)
        } else {
            None
        },
        None => None,
    }
}

/// The assembly that a C program compiles to: its function's name, then a `movl` of the
/// returned constant into `%eax` and a `ret`; or the text of a constant that is not an `isize`.
pub open spec fn asm_of(p: ProgramView) -> Result<AsmProgramView, Seq<char>> {
    match p.function.body {
        StatementView::Return(ExpressionView::Constant(c)) => match isize_value(c) {
            Some(v) => Ok(
                AsmProgramView {
                    function: AsmFunctionView {
                        name: p.function.name,
                        instructions: seq![
                            Instruction::Mov {
                                source: Operand::ImmediateInt(v),
                                destination: Operand::Register(Register::Eax),
                            },
                            Instruction::Ret,
                        ],
                    },
                },
            ),
            None => Err(c),
        },
    }
}

/// `r` is the result that `g` describes.
pub open spec fn is_generated<'a>(
    g: Result<AsmProgramView, Seq<char>>,
    r: Result<AsmProgram<'a>, AsmGenerationError>,
) -> bool {
    match g {
        Ok(v) => r matches Ok(p) && p@ == v,
        Err(input) => r matches Err(AsmGenerationError::IntParseError { input: i }) && i@ == input,
    }
}

/// The value of the digits of a prefix is at most that of the whole.
proof fn lemma_digits_value_prefix(d: Seq<char>, j: int)
    requires
        0 <= j <= d.len(),
        all_digits(d),
    ensures
        0 <= digits_value(d.take(j)) <= digits_value(d),
    decreases d.len(),
{
    if j < d.len() {
        assert(d.drop_last().take(j) =~= d.take(j));
        assert(all_digits(d.drop_last())) by {
            assert forall|i: int| 0 <= i < d.drop_last().len() implies is_ascii_digit(
                #[trigger] d.drop_last()[i],
            ) by {
                assert(d.drop_last()[i] == d[i]);
            }
        }
        lemma_digits_value_prefix(d.drop_last(), j);
        assert(is_ascii_digit(d[d.len() - 1]));
    } else {
        assert(d.take(j) =~= d);
        lemma_digits_value_nonneg(d);
    }
}

/// The value of digits is not negative.
proof fn lemma_digits_value_nonneg(d: Seq<char>)
    requires
        all_digits(d),
    ensures
        digits_value(d) >= 0,
    decreases d.len(),
{
    if d.len() > 0 {
        assert(all_digits(d.drop_last())) by {
            assert forall|i: int| 0 <= i < d.drop_last().len() implies is_ascii_digit(
                #[trigger] d.drop_last()[i],
            ) by {
                assert(d.drop_last()[i] == d[i]);
            }
        }
        lemma_digits_value_nonneg(d.drop_last());
        assert(is_ascii_digit(d[d.len() - 1]));
    }
}

/// A digit's character is a decimal digit with that value.
proof fn lemma_digit_char(d: nat)
    requires
        d < 10,
    ensures
        is_ascii_digit(crate::text::digit_char(d)),
        crate::text::digit_char(d) as int - '0' as int == d,
{
}

/// The decimal numeral of `n` is a non-empty run of digits whose value is `n`.
pub proof fn lemma_decimal_value(n: nat)
    ensures
        decimal(n).len() > 0,
        all_digits(decimal(n)),
        digits_value(decimal(n)) == n,
    decreases n,
{
    lemma_digit_char(n % 10);
    if n < 10 {
        assert(n % 10 == n);
        assert(decimal(n).drop_last() =~= Seq::<char>::empty());
        assert(digits_value(Seq::<char>::empty()) == 0);
        assert(decimal(n).last() == crate::text::digit_char(n));
        assert(is_ascii_digit(decimal(n)[0]));
    }
    if n >= 10 {
        lemma_decimal_value(n / 10);
        let d = decimal(n);
        assert(d.drop_last() =~= decimal(n / 10));
        assert forall|i: int| 0 <= i < d.len() implies is_ascii_digit(#[trigger] d[i]) by {
            if i < d.len() - 1 {
                assert(d[i] == decimal(n / 10)[i]);
            }
        }
        assert(d.last() == crate::text::digit_char(n % 10));
        assert(digits_value(d) == digits_value(d.drop_last()) * 10 + (d.last() as int - '0' as int));
        assert(digits_value(d) == (n / 10) * 10 + (n % 10) as int);
        assert(n == (n / 10) * 10 + n % 10);
    }
}

/// Writing an `isize` in decimal and parsing it back gives the same `isize`: the text
/// of an immediate operand reads back as its value.
pub proof fn lemma_isize_round_trip(v: isize)
    ensures
        isize_value(signed_decimal(v as int)) == Some(v),
{
    if v < 0 {
        let m = (-v) as nat;
        lemma_decimal_value(m);
        let s = seq!['-'] + decimal(m);
        assert(s.drop_first() =~= decimal(m));
        assert(s[0] == '-');
    } else {
        lemma_decimal_value(v as nat);
        let d = decimal(v as nat);
        assert(is_ascii_digit(d[0]));
    }
}

/// Parses `s` as an `isize`, as parsing a string into an `isize` does.
pub fn parse_isize(s: &str) -> (r: Option<isize>)
    ensures
        r == isize_value(s@),
{
    let v = str_chars(s);
    let ghost sv = s@;
    let mut start: usize = 0;
    let mut negative = false;
    if v.len() > 0 && (v[0] == '-' || v[0] == '+') {
        negative = v[0] == '-';
        start = 1;
    }
    let ghost d = sv.skip(start as int);
    proof {
        if start == 1 {
            assert(d =~= sv.drop_first());
        } else {
            assert(d =~= sv);
        }
    }
    if start == v.len() {
        return None;
    }
    assert(int_literal_value(sv) == (if all_digits(d) {
        Some(
            if negative {
                -digits_value(d)
            } else {
                digits_value(d)
            },
        )
    } else {
        None::<int>
    }));
    assert(d.take(0) =~= Seq::<char>::empty());
    let mut acc: i128 = 0;
    let mut i: usize = start;
    let limit: i128 = isize::MAX as i128 + 1;
    while i < v.len()
        invariant
            v@ == sv,
            sv == s@,
            start <= i <= v.len(),
            d == sv.skip(start as int),
            d.len() > 0,
            int_literal_value(sv) == (if all_digits(d) {
                Some(
                    if negative {
                        -digits_value(d)
                    } else {
                        digits_value(d)
                    },
                )
            } else {
                None::<int>
            }),
            limit == isize::MAX as i128 + 1,
            all_digits(d.take(i - start)),
            acc == digits_value(d.take(i - start)),
            0 <= acc <= limit,
        decreases v.len() - i,
    {
        let c = v[i];
        if !char_is_ascii_digit(c) {
            proof {
                assert(d[i - start] == c);
                assert(!is_ascii_digit(d[i - start]));
                assert(!all_digits(d));
            }
            return None;
        }
        let ghost j = i - start;
        proof {
            assert(d.take(j + 1).drop_last() =~= d.take(j));
            assert(d.take(j + 1).last() == c);
            assert forall|k: int| 0 <= k < j + 1 implies is_ascii_digit(#[trigger] d.take(j + 1)[k]) by {
                if k < j {
                    assert(d.take(j + 1)[k] == d.take(j)[k]);
                }
            }
        }
        acc = acc * 10 + (c as u32 - '0' as u32) as i128;
        assert(acc == digits_value(d.take(j + 1)));
        i = i + 1;
        if acc > limit {
            proof {
                assert(d.take(i - start) =~= d.take(j + 1));
                if all_digits(d) {
                    lemma_digits_value_prefix(d, j + 1);
                    assert(digits_value(d) > limit);
                }
            }
            return None;
        }
    }
    proof {
        assert(d.take(i - start) =~= d);
    }
    if negative {
        Some((-acc) as isize)
    } else if acc < limit {
        Some(acc as isize)
    } else {
        None
    }
}

impl Operand {
    /// The immediate integer that an expression's constant gives.
    pub fn try_parse_imm_int(expr: &Expression<'_>) -> (r: Result<Self, AsmGenerationError>)
        ensures
            match expr@ {
                ExpressionView::Constant(c) => match isize_value(c) {
                    Some(v) => r == Ok::<Operand, AsmGenerationError>(Operand::ImmediateInt(v)),
                    None => r matches Err(AsmGenerationError::IntParseError { input }) && input@
                        == c,
                },
            },
    {
        match expr {
            Expression::Constant(s) => match parse_isize(s) {
                Some(v) => Ok(Operand::ImmediateInt(v)),
                None => Err(AsmGenerationError::IntParseError { input: String::from_str(s) }),
            },
        }
    }
}

fn parse_program<'a>(ast: &Program<'a>) -> (r: Result<AsmProgram<'a>, AsmGenerationError>)
    ensures
        is_generated(asm_of(ast@), r),
{
    Ok(AsmProgram { function: parse_function(&ast.function)? })
}

fn parse_function<'a>(function: &parser::Function<'a>) -> (r: Result<
    Function<'a>,
    AsmGenerationError,
>)
    ensures
        is_generated(asm_of(ProgramView { function: function@ }), match r {
            Ok(f) => Ok(AsmProgram { function: f }),
            Err(e) => Err(e),
        }),
{
    Ok(Function { name: function.name, instructions: parse_instructions(&function.body)? })
}

fn parse_instructions(body: &Statement<'_>) -> (r: Result<Vec<Instruction>, AsmGenerationError>)
    ensures
        match body@ {
            StatementView::Return(ExpressionView::Constant(c)) => match isize_value(c) {
                Some(v) => r matches Ok(is) && is@ == seq![
                    Instruction::Mov {
                        source: Operand::ImmediateInt(v),
                        destination: Operand::Register(Register::Eax),
                    },
                    Instruction::Ret,
                ],
                None => r matches Err(AsmGenerationError::IntParseError { input }) && input@ == c,
            },
        },
{
    match body {
        Statement::Return(expr) => Ok(
            vec![
                Instruction::Mov {
                    source: Operand::try_parse_imm_int(expr)?,
                    destination: Operand::Register(Register::Eax),
                },
                Instruction::Ret,
            ],
        ),
    }
}

/// The text of a register operand.
pub open spec fn register_text(r: Register) -> Seq<char> {
    match r {
        Register::Eax => "%eax"@,
    }
}

/// The text of an operand.
pub open spec fn operand_text(o: Operand) -> Seq<char> {
    match o {
        Operand::Register(r) => register_text(r),
        Operand::ImmediateInt(i) => "$"@ + signed_decimal(i as int),
    }
}

/// The text of an instruction, as one line of assembly.
pub open spec fn instruction_text(i: Instruction) -> Seq<char> {
    match i {
        Instruction::Mov { source, destination } => "\tmovl "@ + operand_text(source) + ", "@
            + operand_text(destination),
        Instruction::Ret => "\tret"@,
    }
}

/// How instructions are written: a `movl` line is a tab, `movl `, the source operand's
/// text, `, ` and the destination operand's text, for every pair of operands; an
/// immediate is `$` followed by a decimal that reads back as its value; `%eax` is
/// written `%eax`; and `ret` is a tab and `ret`.
pub proof fn lemma_instruction_text(source: Operand, destination: Operand, i: isize)
    ensures
        instruction_text(Instruction::Mov { source, destination }) == "\tmovl "@ + operand_text(
            source,
        ) + ", "@ + operand_text(destination),
        operand_text(Operand::ImmediateInt(i)) == "$"@ + signed_decimal(i as int),
        operand_text(Operand::ImmediateInt(i)).len() > 1,
        operand_text(Operand::ImmediateInt(i))[0] == '$',
        isize_value(operand_text(Operand::ImmediateInt(i)).drop_first()) == Some(i),
        operand_text(Operand::Register(Register::Eax)) == "%eax"@,
        instruction_text(Instruction::Ret) == "\tret"@,
{
    reveal_strlit("$");
    let t = operand_text(Operand::ImmediateInt(i));
    assert(t.drop_first() =~= signed_decimal(i as int));
    lemma_isize_round_trip(i);
    if i < 0 {
        lemma_decimal_value((-i) as nat);
    } else {
        lemma_decimal_value(i as nat);
    }
}

/// The lines that declare a function and label its start.
pub open spec fn function_header_text(name: Seq<char>) -> Seq<char> {
    "\t.globl "@ + name + "\n"@ + name + ":"@
}

impl Register {
    /// The text of this register, as `Display` would write it.
    pub fn to_string(&self) -> (s: String)
        ensures
            s@ == register_text(*self),
    {
        let mut s = String::new();
        match self {
            Register::Eax => s.append("%eax"),
        }
        s
    }
}

impl Operand {
    /// The text of this operand, as `Display` would write it.
    pub fn to_string(&self) -> (s: String)
        ensures
            s@ == operand_text(*self),
            *self matches Operand::ImmediateInt(i) ==> s@ == "$"@ + signed_decimal(i as int),
            *self matches Operand::Register(Register::Eax) ==> s@ == "%eax"@,
    {
        match self {
            Operand::Register(r) => r.to_string(),
            Operand::ImmediateInt(i) => {
                let mut s = String::new();
                s.append("$");
                push_signed_decimal(&mut s, *i as i128);
                s
            },
        }
    }
}

impl Instruction {
    /// The text of this instruction, as `Display` would write it.
    pub fn to_string(&self) -> (s: String)
        ensures
            s@ == instruction_text(*self),
            *self matches Instruction::Mov { source, destination } ==> s@ == "\tmovl "@
                + operand_text(source) + ", "@ + operand_text(destination),
            *self matches Instruction::Mov {
                source: Operand::ImmediateInt(i),
                destination: Operand::Register(Register::Eax),
            } ==> s@ == "\tmovl $"@ + signed_decimal(i as int) + ", %eax"@,
            *self is Ret ==> s@ == "\tret"@,
    {
        let mut s = String::new();
        match self {
            Instruction::Mov { source, destination } => {
                s.append("\tmovl ");
                let src = source.to_string();
                s.append(src.as_str());
                s.append(", ");
                let dst = destination.to_string();
                s.append(dst.as_str());
                proof {
                    if let Operand::ImmediateInt(i) = *source {
                        if *destination == Operand::Register(Register::Eax) {
                            reveal_strlit("\tmovl $");
                            reveal_strlit("\tmovl ");
                            reveal_strlit("$");
                            reveal_strlit(", %eax");
                            reveal_strlit(", ");
                            reveal_strlit("%eax");
                            assert(s@ =~= "\tmovl $"@ + signed_decimal(i as int) + ", %eax"@);
                        }
                    }
                }
            },
            Instruction::Ret => s.append("\tret"),
        }
        s
    }
}

impl<'a> Function<'a> {
    /// The assembly lines that declare this function global and label its start.
    pub fn name_string_asm(&self) -> (s: String)
        ensures
            s@ == function_header_text(self.name@),
            s@ == "\t.globl "@ + self.name@ + "\n"@ + self.name@ + ":"@,
    {
        let mut s = String::new();
        s.append("\t.globl ");
        s.append(self.name);
        s.append("\n");
        s.append(self.name);
        s.append(":");
        s
    }
}

impl AsmGenerationError {
    /// The message that describes this error.
    pub fn to_string(&self) -> (s: String)
        ensures
            s@ == (match self {
                AsmGenerationError::IntParseError { input } => "failed to parse string \""@
                    + input@ + "\" as int"@,
            }),
    {
        let mut s = String::new();
        match self {
            AsmGenerationError::IntParseError { input } => {
                s.append("failed to parse string \"");
                s.append(input.as_str());
                s.append("\" as int");
            },
        }
        s
    }
}

} // verus!
