//! A translator from the mnemonic language to instruction bytes.
//!
//! Each line holds three whitespace-separated words, `OPCODE LEFT RIGHT`, and
//! becomes the three bytes (opcode, left, right) in that order.

use vstd::prelude::*;
use crate::arch::{str_eq, Registers, VMConsts};

verus! {

/// Why a line could not be assembled; `line` counts from 0.
#[derive(Clone, Debug)]
pub enum InvalidInstruction {
    InvalidRegister { register: String, line: usize },
    InvalidOperation { operation: String, line: usize },
    InvalidNumber { number: String, line: usize },
    InvalidNumberOfParts { lines: usize, line: usize },
}

/// An assembly error with its text as characters.
pub enum AssemblyError {
    InvalidRegister { register: Seq<char>, line: usize },
    InvalidOperation { operation: Seq<char>, line: usize },
    InvalidNumber { number: Seq<char>, line: usize },
    InvalidNumberOfParts { lines: usize, line: usize },
}

impl View for InvalidInstruction {
    type V = AssemblyError;

    open spec fn view(&self) -> AssemblyError {
        match self {
            InvalidInstruction::InvalidRegister { register, line } => AssemblyError::InvalidRegister {
                register: register@,
                line: *line,
            },
            InvalidInstruction::InvalidOperation { operation, line } => AssemblyError::InvalidOperation {
                operation: operation@,
                line: *line,
            },
            InvalidInstruction::InvalidNumber { number, line } => AssemblyError::InvalidNumber {
                number: number@,
                line: *line,
            },
            InvalidInstruction::InvalidNumberOfParts { lines, line } => AssemblyError::InvalidNumberOfParts {
                lines: *lines,
                line: *line,
            },
        }
    }
}

pub open spec fn result_view(r: Result<Vec<u8>, InvalidInstruction>) -> Result<Seq<u8>, AssemblyError> {
    match r {
        Ok(v) => Ok(v@),
        Err(e) => Err(e@),
    }
}

/// The lines of a text, as `str::lines` splits it.
pub uninterp spec fn lines_of(s: Seq<char>) -> Seq<Seq<char>>;

/// The words of a line, as `str::split_whitespace` splits it.
pub uninterp spec fn words_of(s: Seq<char>) -> Seq<Seq<char>>;

pub open spec fn is_digit(ch: char) -> bool {
    '0' <= ch && ch <= '9'
}

/// Value of a string of decimal digits.
pub open spec fn digits_value(s: Seq<char>) -> nat
    decreases s.len(),
{
    if s.len() == 0 {
        0
    } else {
        digits_value(s.drop_last()) * 10 + (s.last() as nat - '0' as nat) as nat
    }
}

/// A decimal number in 0..=255: an optional `+`, then one or more digits.
pub open spec fn decimal_u8(s: Seq<char>) -> Option<u8> {
    let digits = if s.len() > 0 && s[0] == '+' {
        s.drop_first()
    } else {
        s
    };
    if digits.len() > 0 && (forall|k: int| 0 <= k < digits.len() ==> is_digit(#[trigger] digits[k]))
        && digits_value(digits) <= 255 {
        Some(digits_value(digits) as u8)
    } else {
        None
    }
}

/// Relies on `str::lines`: the lines of the text, each without its line ending.
#[verifier::external_body]
fn split_lines(s: &str) -> (r: Vec<String>)
    ensures
        r.deep_view() == lines_of(s@),
{
    s.lines().map(str::to_owned).collect()
}

/// Relies on `str::split_whitespace`: the words of a line.
#[verifier::external_body]
fn split_words(s: &str) -> (r: Vec<String>)
    ensures
        r.deep_view() == words_of(s@),
{
    s.split_whitespace().map(str::to_owned).collect()
}

/// Relies on `<u8 as FromStr>::from_str`, which takes an optional `+` sign
/// followed by decimal digits, and fails on anything else or on a value over 255.
#[verifier::external_body]
fn parse_u8(s: &str) -> (r: Option<u8>)
    ensures
        r == decimal_u8(s@),
{
    s.parse::<u8>().ok()
}

pub open spec fn number_of(s: Seq<char>, line: usize) -> Result<u8, AssemblyError> {
    match decimal_u8(s) {
        Some(v) => Ok(v),
        None => Err(AssemblyError::InvalidNumber { number: s, line }),
    }
}

pub open spec fn register_of(s: Seq<char>, registers: Registers, line: usize) -> Result<u8, AssemblyError> {
    match registers.byte_of(s) {
        Some(v) => Ok(v),
        None => Err(AssemblyError::InvalidRegister { register: s, line }),
    }
}

/// The three bytes of an opcode and two operands, or the first operand's error.
pub open spec fn encoded(op: u8, left: Result<u8, AssemblyError>, right: Result<u8, AssemblyError>) -> Result<
    Seq<u8>,
    AssemblyError,
> {
    match left {
        Err(e) => Err(e),
        Ok(l) => match right {
            Err(e) => Err(e),
            Ok(r) => Ok(seq![op, l, r]),
        },
    }
}

/// Bytes of one line given as its words. `SYS` takes a number and a register;
/// `IMM` and `ADD` a register and a number; `CMP`, `STK`, `LDM` and `STM` two
/// registers. `JMP` is not assembled.
pub open spec fn line_bytes(words: Seq<Seq<char>>, line: usize, ctx: VMConsts) -> Result<
    Seq<u8>,
    AssemblyError,
> {
    let ops = ctx.opcodes;
    let regs = ctx.registers;
    if words.len() != 3 {
        Err(AssemblyError::InvalidNumberOfParts { lines: words.len() as usize, line })
    } else {
        let (op, left, right) = (words[0], words[1], words[2]);
        if op == "SYS"@ {
            encoded(ops.sys, number_of(left, line), register_of(right, regs, line))
        } else if op == "CMP"@ {
            encoded(ops.cmp, register_of(left, regs, line), register_of(right, regs, line))
        } else if op == "STK"@ {
            encoded(ops.stk, register_of(left, regs, line), register_of(right, regs, line))
        } else if op == "LDM"@ {
            encoded(ops.ldm, register_of(left, regs, line), register_of(right, regs, line))
        } else if op == "STM"@ {
            encoded(ops.stm, register_of(left, regs, line), register_of(right, regs, line))
        } else if op == "IMM"@ {
            encoded(ops.imm, register_of(left, regs, line), number_of(right, line))
        } else if op == "ADD"@ {
            encoded(ops.add, register_of(left, regs, line), number_of(right, line))
        } else {
            Err(AssemblyError::InvalidOperation { operation: op, line })
        }
    }
}

/// Bytes of a program given as the words of each line: the lines' bytes in
/// order, or the error of the first line that fails.
pub open spec fn program_bytes(lines: Seq<Seq<Seq<char>>>, ctx: VMConsts) -> Result<Seq<u8>, AssemblyError>
    decreases lines.len(),
{
    if lines.len() == 0 {
        Ok(Seq::empty())
    } else {
        match program_bytes(lines.drop_last(), ctx) {
            Err(e) => Err(e),
            Ok(prefix) => match line_bytes(lines.last(), (lines.len() - 1) as usize, ctx) {
                Err(e) => Err(e),
                Ok(bytes) => Ok(prefix + bytes),
            },
        }
    }
}

fn parse_num(num: &str, line: usize) -> (r: Result<u8, InvalidInstruction>)
    ensures
        match r {
            Ok(v) => number_of(num@, line) == Ok::<u8, AssemblyError>(v),
            Err(e) => number_of(num@, line) == Err::<u8, AssemblyError>(e@),
        },
{
    match parse_u8(num) {
        Some(parsed) => Ok(parsed),
        None => Err(InvalidInstruction::InvalidNumber { number: num.to_owned(), line }),
    }
}

fn parse_reg(reg: &str, registers: &Registers, line: usize) -> (r: Result<u8, InvalidInstruction>)
    ensures
        match r {
            Ok(v) => register_of(reg@, *registers, line) == Ok::<u8, AssemblyError>(v),
            Err(e) => register_of(reg@, *registers, line) == Err::<u8, AssemblyError>(e@),
        },
{
    match registers.reg_str_to_byte(reg) {
        Some(res) => Ok(res),
        None => Err(InvalidInstruction::InvalidRegister { register: reg.to_owned(), line }),
    }
}

/// Assembles one line given as its words.
pub fn assemble_line(parts: &Vec<String>, line: usize, ctx: &VMConsts) -> (r: Result<
    Vec<u8>,
    InvalidInstruction,
>)
    ensures
        result_view(r) == line_bytes(parts.deep_view(), line, *ctx),
{
    if parts.len() != 3 {
        return Err(InvalidInstruction::InvalidNumberOfParts { lines: parts.len(), line });
    }
    let op = parts[0].as_str();
    let left = parts[1].as_str();
    let right = parts[2].as_str();
    assert(parts.deep_view()[0] == op@ && parts.deep_view()[1] == left@ && parts.deep_view()[2] == right@);
    let regs = &ctx.registers;
    let (code, l, r) = if str_eq(op, "SYS") {
        (ctx.opcodes.sys, parse_num(left, line)?, parse_reg(right, regs, line)?)
    } else if str_eq(op, "CMP") {
        (ctx.opcodes.cmp, parse_reg(left, regs, line)?, parse_reg(right, regs, line)?)
    } else if str_eq(op, "STK") {
        (ctx.opcodes.stk, parse_reg(left, regs, line)?, parse_reg(right, regs, line)?)
    } else if str_eq(op, "LDM") {
        (ctx.opcodes.ldm, parse_reg(left, regs, line)?, parse_reg(right, regs, line)?)
    } else if str_eq(op, "STM") {
        (ctx.opcodes.stm, parse_reg(left, regs, line)?, parse_reg(right, regs, line)?)
    } else if str_eq(op, "IMM") {
        (ctx.opcodes.imm, parse_reg(left, regs, line)?, parse_num(right, line)?)
    } else if str_eq(op, "ADD") {
        (ctx.opcodes.add, parse_reg(left, regs, line)?, parse_num(right, line)?)
    } else {
        return Err(InvalidInstruction::InvalidOperation { operation: op.to_owned(), line });
    };
    let bytes = vec![code, l, r];
    assert(bytes@ =~= seq![code, l, r]);
    Ok(bytes)
}

/// Assembles a program given as the words of each line.
pub fn assemble_parsed(lines: &Vec<Vec<String>>, ctx: &VMConsts) -> (r: Result<
    Vec<u8>,
    InvalidInstruction,
>)
    ensures
        result_view(r) == program_bytes(lines.deep_view(), *ctx),
{
    let mut result: Vec<u8> = Vec::new();
    let mut i: usize = 0;
    while i < lines.len()
        invariant
            i <= lines.len(),
            program_bytes(lines.deep_view().take(i as int), *ctx) == Ok::<Seq<u8>, AssemblyError>(result@),
        decreases lines.len() - i,
    {
        assert(lines.deep_view().take(i + 1).drop_last() =~= lines.deep_view().take(i as int));
        let bytes = match assemble_line(&lines[i], i, ctx) {
            Ok(b) => b,
            Err(e) => {
                assert(program_bytes(lines.deep_view().take(i + 1), *ctx) == Err::<Seq<u8>, AssemblyError>(e@));
                proof { lemma_first_error_stays(lines.deep_view(), (i + 1) as int, *ctx); }
                return Err(e);
            },
        };
        let ghost before = result@;
        let mut more = bytes;
        result.append(&mut more);
        i = i + 1;
    }
    assert(lines.deep_view().take(lines.len() as int) =~= lines.deep_view());
    Ok(result)
}

/// An error in a prefix of the lines is the program's error.
proof fn lemma_first_error_stays(lines: Seq<Seq<Seq<char>>>, k: int, ctx: VMConsts)
    requires
        0 <= k <= lines.len(),
        program_bytes(lines.take(k), ctx) is Err,
    ensures
        program_bytes(lines, ctx) == program_bytes(lines.take(k), ctx),
    decreases lines.len() - k,
{
    if k < lines.len() {
        assert(lines.take(k + 1).drop_last() =~= lines.take(k));
        lemma_first_error_stays(lines, k + 1, ctx);
    } else {
        assert(lines.take(k) =~= lines);
    }
}

/// Assembles a program: one instruction per line.
pub fn assemble(code: String, ctx: VMConsts) -> (r: Result<Vec<u8>, InvalidInstruction>)
    ensures
        result_view(r) == program_bytes(
            Seq::new(lines_of(code@).len(), |k: int| words_of(lines_of(code@)[k])),
            ctx,
        ),
{
    let text = split_lines(code.as_str());
    let mut lines: Vec<Vec<String>> = Vec::new();
    let mut i: usize = 0;
    while i < text.len()
        invariant
            i <= text.len(),
            text.deep_view() == lines_of(code@),
            lines@.len() == i,
            lines.deep_view() =~= Seq::new(i as nat, |k: int| words_of(lines_of(code@)[k])),
        decreases text.len() - i,
    {
        let words = split_words(text[i].as_str());
        assert(text.deep_view()[i as int] == text[i as int]@);
        let ghost prev = lines@;
        let ghost prev_deep = lines.deep_view();
        let ghost added = words.deep_view();
        assert(added == words_of(lines_of(code@)[i as int]));
        lines.push(words);
        assert(lines@ =~= prev.push(lines@[i as int]));
        assert(lines.deep_view()[i as int] == added);
        assert(forall|k: int| 0 <= k < i ==> lines.deep_view()[k] == prev_deep[k]);
        assert forall|k: int| 0 <= k <= i implies lines.deep_view()[k] == words_of(lines_of(code@)[k]) by {
            if k < i {
                assert(prev_deep[k] == Seq::new(i as nat, |k: int| words_of(lines_of(code@)[k]))[k]);
            }
        }
        i = i + 1;
        assert(lines.deep_view() =~= Seq::new(i as nat, |k: int| words_of(lines_of(code@)[k])));
    }
    assemble_parsed(&lines, &ctx)
}

} // verus!
