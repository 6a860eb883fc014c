//! Configuration of the target's encoding, and the instruction decoder.

use vstd::prelude::*;

verus! {

/// Byte value of each of the eight operation kinds.
#[derive(Clone, Copy, Debug, PartialEq, Eq, Structural)]
pub struct InstructionOpcodes {
    pub imm: u8,
    pub add: u8,
    pub stk: u8,
    pub stm: u8,
    pub ldm: u8,
    pub cmp: u8,
    pub jmp: u8,
    pub sys: u8,
}

/// Numbers of the three host syscalls.
#[derive(Clone, Copy, Debug, PartialEq, Eq, Structural)]
pub struct Syscalls {
    pub open: u8,
    pub read_memory: u8,
    pub write: u8,
}

/// The whole encoding scheme of a target.
#[derive(Clone, Copy, Debug, PartialEq, Eq, Structural)]
pub struct VMConsts {
    pub opcodes: InstructionOpcodes,
    pub syscalls: Syscalls,
    pub registers: Registers,
    pub instruction_indices: InstructionDecodeIndices,
    pub cmp_flags: CmpFlags,
}

/// Bitmasks that a comparison ORs into the flags register.
#[derive(Clone, Copy, Debug, PartialEq, Eq, Structural)]
pub struct CmpFlags {
    /// left < right
    pub smaller: u8,
    /// left > right
    pub bigger: u8,
    /// left == right
    pub equals: u8,
    /// left != right
    pub not_equals: u8,
    /// left == 0 && right == 0
    pub zero: u8,
}

/// Identifier byte of each register; `none` is the sentinel 0.
#[derive(Clone, Copy, Debug, PartialEq, Eq, Structural)]
pub struct Registers {
    pub a: u8,
    pub b: u8,
    pub c: u8,
    pub d: u8,
    pub s: u8,
    pub i: u8,
    pub f: u8,
    pub none: u8,
}

/// The identifier that names no register.
pub const REG_NONE: u8 = 0;

/// Address of register `a` in the unified memory; the others follow it.
pub const REGISTER_BANK: u16 = 0x400;

/// Address that the sentinel register resolves to: never inside a real buffer's bank.
pub const NONE_LOCATION: u16 = 0xffff;

impl Registers {
    /// The seven real identifiers are nonzero and pairwise distinct.
    pub open spec fn valid(&self) -> bool {
        &&& self.a != REG_NONE
        &&& self.b != REG_NONE
        &&& self.c != REG_NONE
        &&& self.d != REG_NONE
        &&& self.s != REG_NONE
        &&& self.i != REG_NONE
        &&& self.f != REG_NONE
        &&& self.a != self.b
        &&& self.a != self.c
        &&& self.a != self.d
        &&& self.a != self.s
        &&& self.a != self.i
        &&& self.a != self.f
        &&& self.b != self.c
        &&& self.b != self.d
        &&& self.b != self.s
        &&& self.b != self.i
        &&& self.b != self.f
        &&& self.c != self.d
        &&& self.c != self.s
        &&& self.c != self.i
        &&& self.c != self.f
        &&& self.d != self.s
        &&& self.d != self.i
        &&& self.d != self.f
        &&& self.s != self.i
        &&& self.s != self.f
        &&& self.i != self.f
    }

    /// Mnemonic of an identifier; the first register that matches wins.
    pub open spec fn name_of(&self, r: u8) -> Seq<char> {
        if r == self.a {
            "a"@
        } else if r == self.b {
            "b"@
        } else if r == self.c {
            "c"@
        } else if r == self.d {
            "d"@
        } else if r == self.s {
            "s"@
        } else if r == self.i {
            "i"@
        } else if r == self.f {
            "f"@
        } else if r == REG_NONE {
            "NONE"@
        } else {
            "Unknown"@
        }
    }

    /// Identifier named by a mnemonic.
    pub open spec fn byte_of(&self, s: Seq<char>) -> Option<u8> {
        if s == "a"@ {
            Some(self.a)
        } else if s == "b"@ {
            Some(self.b)
        } else if s == "c"@ {
            Some(self.c)
        } else if s == "d"@ {
            Some(self.d)
        } else if s == "s"@ {
            Some(self.s)
        } else if s == "i"@ {
            Some(self.i)
        } else if s == "f"@ {
            Some(self.f)
        } else if s == "NONE"@ {
            Some(REG_NONE)
        } else {
            None
        }
    }

    /// Address in the unified memory of the register an identifier names.
    pub open spec fn location_of(&self, r: u8) -> Option<u16> {
        if r == self.a {
            Some(0x400u16)
        } else if r == self.b {
            Some(0x401u16)
        } else if r == self.c {
            Some(0x402u16)
        } else if r == self.d {
            Some(0x403u16)
        } else if r == self.s {
            Some(0x404u16)
        } else if r == self.i {
            Some(0x405u16)
        } else if r == self.f {
            Some(0x406u16)
        } else if r == REG_NONE {
            Some(NONE_LOCATION)
        } else {
            None
        }
    }

    pub fn reg_byte_to_str(&self, reg_value: u8) -> (r: &'static str)
        ensures
            r@ == self.name_of(reg_value),
    {
        if reg_value == self.a {
            "a"
        } else if reg_value == self.b {
            "b"
        } else if reg_value == self.c {
            "c"
        } else if reg_value == self.d {
            "d"
        } else if reg_value == self.s {
            "s"
        } else if reg_value == self.i {
            "i"
        } else if reg_value == self.f {
            "f"
        } else if reg_value == REG_NONE {
            "NONE"
        } else {
            "Unknown"
        }
    }

    pub fn reg_str_to_byte(&self, reg_str: &str) -> (r: Option<u8>)
        ensures
            r == self.byte_of(reg_str@),
    {
        if str_eq(reg_str, "a") {
            Some(self.a)
        } else if str_eq(reg_str, "b") {
            Some(self.b)
        } else if str_eq(reg_str, "c") {
            Some(self.c)
        } else if str_eq(reg_str, "d") {
            Some(self.d)
        } else if str_eq(reg_str, "s") {
            Some(self.s)
        } else if str_eq(reg_str, "i") {
            Some(self.i)
        } else if str_eq(reg_str, "f") {
            Some(self.f)
        } else if str_eq(reg_str, "NONE") {
            Some(REG_NONE)
        } else {
            None
        }
    }

    pub fn reg_to_mem_location(&self, reg_value: u8) -> (r: Option<u16>)
        ensures
            r == self.location_of(reg_value),
    {
        if reg_value == self.a {
            Some(REGISTER_BANK)
        } else if reg_value == self.b {
            Some(REGISTER_BANK + 1)
        } else if reg_value == self.c {
            Some(REGISTER_BANK + 2)
        } else if reg_value == self.d {
            Some(REGISTER_BANK + 3)
        } else if reg_value == self.s {
            Some(REGISTER_BANK + 4)
        } else if reg_value == self.i {
            Some(REGISTER_BANK + 5)
        } else if reg_value == self.f {
            Some(REGISTER_BANK + 6)
        } else if reg_value == REG_NONE {
            Some(NONE_LOCATION)
        } else {
            None
        }
    }
}

/// Relies on `<str as PartialEq>::eq`: two string slices are equal exactly
/// when they hold the same characters.
#[verifier::external_body]
pub(crate) fn str_eq(x: &str, y: &str) -> (r: bool)
    ensures
        r == (x@ == y@),
{
    x == y
}

/// A decoded instruction, with its two raw operand bytes.
#[derive(Clone, Copy, Debug, PartialEq, Eq, Structural)]
pub enum Instruction {
    /// Calls syscall `num` and stores its result in register `dst`.
    Sys { num: u8, dst: u8 },
    /// Compares register `left` with register `right`.
    Cmp { left: u8, right: u8 },
    /// Pushes register `push`, then pops into register `pop`.
    Stk { pop: u8, push: u8 },
    /// Loads into `dst` the RAM byte at the offset held in `src`.
    Ldm { dst: u8, src: u8 },
    /// Stores `src` at the RAM offset held in `dst`.
    Stm { dst: u8, src: u8 },
    /// Loads the literal `val` into `dst`.
    Imm { dst: u8, val: u8 },
    /// Jumps to the index held in `dst` when `flags` is 0 or meets the flags register.
    Jmp { flags: u8, dst: u8 },
    /// Adds `src` into `dst`, modulo 256.
    Add { dst: u8, src: u8 },
}

/// Positions of the opcode and of the two operands within an instruction's three bytes.
#[derive(Clone, Copy, Debug, PartialEq, Eq, Structural)]
pub struct InstructionDecodeIndices {
    pub opcode: usize,
    pub left_param: usize,
    pub right_param: usize,
}

impl InstructionDecodeIndices {
    /// Every position lies within an instruction.
    pub open spec fn in_range(&self) -> bool {
        self.opcode < 3 && self.left_param < 3 && self.right_param < 3
    }

    /// The three positions are a permutation of 0, 1, 2.
    pub open spec fn is_permutation(&self) -> bool {
        &&& self.in_range()
        &&& self.opcode != self.left_param
        &&& self.opcode != self.right_param
        &&& self.left_param != self.right_param
    }
}

/// The instruction that an opcode byte and two operand bytes stand for;
/// the opcodes are tried in the order sys, cmp, stk, ldm, stm, imm, jmp, add.
pub open spec fn instruction_of(op: u8, left: u8, right: u8, opcodes: InstructionOpcodes) -> Option<
    Instruction,
> {
    if op == opcodes.sys {
        Some(Instruction::Sys { num: left, dst: right })
    } else if op == opcodes.cmp {
        Some(Instruction::Cmp { left, right })
    } else if op == opcodes.stk {
        Some(Instruction::Stk { pop: left, push: right })
    } else if op == opcodes.ldm {
        Some(Instruction::Ldm { dst: left, src: right })
    } else if op == opcodes.stm {
        Some(Instruction::Stm { dst: left, src: right })
    } else if op == opcodes.imm {
        Some(Instruction::Imm { dst: left, val: right })
    } else if op == opcodes.jmp {
        Some(Instruction::Jmp { flags: left, dst: right })
    } else if op == opcodes.add {
        Some(Instruction::Add { dst: left, src: right })
    } else {
        None
    }
}

/// Decoding of three bytes under a field order and an opcode table.
pub open spec fn decode(
    bytes: Seq<u8>,
    indices: InstructionDecodeIndices,
    opcodes: InstructionOpcodes,
) -> Option<Instruction> {
    if bytes.len() != 3 {
        None
    } else {
        instruction_of(
            bytes[indices.opcode as int],
            bytes[indices.left_param as int],
            bytes[indices.right_param as int],
            opcodes,
        )
    }
}

impl Instruction {
    pub fn from_bytes(
        instruction_bytes: &[u8],
        indices: InstructionDecodeIndices,
        opcodes: InstructionOpcodes,
    ) -> (r: Option<Self>)
        requires
            indices.in_range(),
        ensures
            r == decode(instruction_bytes@, indices, opcodes),
    {
        if instruction_bytes.len() != 3 {
            return None;
        }
        let opcode = instruction_bytes[indices.opcode];
        let left_param = instruction_bytes[indices.left_param];
        let right_param = instruction_bytes[indices.right_param];

        if opcode == opcodes.sys {
            Some(Instruction::Sys { num: left_param, dst: right_param })
        } else if opcode == opcodes.cmp {
            Some(Instruction::Cmp { left: left_param, right: right_param })
        } else if opcode == opcodes.stk {
            Some(Instruction::Stk { pop: left_param, push: right_param })
        } else if opcode == opcodes.ldm {
            Some(Instruction::Ldm { dst: left_param, src: right_param })
        } else if opcode == opcodes.stm {
            Some(Instruction::Stm { dst: left_param, src: right_param })
        } else if opcode == opcodes.imm {
            Some(Instruction::Imm { dst: left_param, val: right_param })
        } else if opcode == opcodes.jmp {
            Some(Instruction::Jmp { flags: left_param, dst: right_param })
        } else if opcode == opcodes.add {
            Some(Instruction::Add { dst: left_param, src: right_param })
        } else {
            None
        }
    }
}

/// Decoding depends on the bytes, the field order and the opcode table alone:
/// moving each byte of an instruction to a new position, and each field
/// position along with it, yields the same instruction.
pub proof fn lemma_decode_permutation_invariant(
    bytes: Seq<u8>,
    moved: Seq<u8>,
    perm: Seq<int>,
    indices: InstructionDecodeIndices,
    opcodes: InstructionOpcodes,
    moved_indices: InstructionDecodeIndices,
)
    requires
        bytes.len() == 3,
        moved.len() == 3,
        perm.len() == 3,
        forall|k: int| 0 <= k < 3 ==> 0 <= #[trigger] perm[k] < 3,
        forall|k: int, l: int| 0 <= k < l < 3 ==> perm[k] != perm[l],
        forall|k: int| 0 <= k < 3 ==> moved[#[trigger] perm[k]] == bytes[k],
        indices.is_permutation(),
        moved_indices.opcode == perm[indices.opcode as int],
        moved_indices.left_param == perm[indices.left_param as int],
        moved_indices.right_param == perm[indices.right_param as int],
    ensures
        moved_indices.is_permutation(),
        decode(moved, moved_indices, opcodes) == decode(bytes, indices, opcodes),
{
    assert(moved[perm[indices.opcode as int]] == bytes[indices.opcode as int]);
    assert(moved[perm[indices.left_param as int]] == bytes[indices.left_param as int]);
    assert(moved[perm[indices.right_param as int]] == bytes[indices.right_param as int]);
}

} // verus!
