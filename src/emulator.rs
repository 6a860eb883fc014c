//! The execution engine: a unified memory that maps code, RAM and the
//! register bank, and the fetch-decode-execute step over it.
//!
//! Host syscalls are not made here: a `Sys` instruction yields a
//! [`HostCall`] that the caller performs, and the caller hands the host's
//! result back through one of the `finish_*` methods.

use vstd::prelude::*;
use crate::arch::{decode, CmpFlags, Instruction, Registers, VMConsts, REG_NONE};

verus! {

/// Why an access or a step failed.
#[derive(Clone, Copy, Debug, PartialEq, Eq, Structural)]
pub enum EmulationError {
    InvalidRegister { register: u8 },
    InvalidInstruction { instruction: u8 },
    InvalidMemoryAddress { address: u16 },
    InvalidSyscall { syscall: u8 },
    OtherError,
}

/// Address of RAM offset 0.
pub const RAM_BASE: u16 = 0x300;

/// Number of bytes in the RAM window.
pub const RAM_SIZE: usize = 0x100;

/// Bytes per instruction in the code region.
pub const INSTRUCTION_SIZE: usize = 3;

/// Address of the flags register in the bank.
pub const FLAGS_LOCATION: u16 = 0x406;

/// Address of the instruction pointer in the bank.
pub const IP_LOCATION: u16 = 0x405;

/// Address of the stack pointer in the bank.
pub const SP_LOCATION: u16 = 0x404;

/// Reading one byte of the buffer.
pub open spec fn raw_read(m: Seq<u8>, loc: u16) -> Result<u8, EmulationError> {
    if (loc as int) < m.len() {
        Ok(m[loc as int])
    } else {
        Err(EmulationError::InvalidMemoryAddress { address: loc })
    }
}

/// The buffer after writing one byte of it.
pub open spec fn raw_write(m: Seq<u8>, loc: u16, val: u8) -> Result<Seq<u8>, EmulationError> {
    if (loc as int) < m.len() {
        Ok(m.update(loc as int, val))
    } else {
        Err(EmulationError::InvalidMemoryAddress { address: loc })
    }
}

/// Address of a RAM offset.
pub open spec fn ram_address(offset: u8) -> u16 {
    (offset + RAM_BASE) as u16
}

pub open spec fn ram_read(m: Seq<u8>, offset: u8) -> Result<u8, EmulationError> {
    raw_read(m, ram_address(offset))
}

pub open spec fn ram_write(m: Seq<u8>, offset: u8, val: u8) -> Result<Seq<u8>, EmulationError> {
    raw_write(m, ram_address(offset), val)
}

pub open spec fn reg_read(m: Seq<u8>, regs: Registers, r: u8) -> Result<u8, EmulationError> {
    match regs.location_of(r) {
        Some(loc) => raw_read(m, loc),
        None => Err(EmulationError::InvalidRegister { register: r }),
    }
}

pub open spec fn reg_write(m: Seq<u8>, regs: Registers, r: u8, val: u8) -> Result<
    Seq<u8>,
    EmulationError,
> {
    match regs.location_of(r) {
        Some(loc) => raw_write(m, loc, val),
        None => Err(EmulationError::InvalidRegister { register: r }),
    }
}

/// A write described by `effect` took place: `after` and `r` are what it gives,
/// and on failure the buffer is as it was.
pub open spec fn applied(
    before: Seq<u8>,
    effect: Result<Seq<u8>, EmulationError>,
    after: Seq<u8>,
    r: Result<(), EmulationError>,
) -> bool {
    match effect {
        Ok(m) => r == Ok::<(), EmulationError>(()) && after == m,
        Err(e) => r == Err::<(), EmulationError>(e) && after == before,
    }
}

/// The null-terminated string at a RAM offset, one character per byte.
pub open spec fn string_at(m: Seq<u8>, offset: u8) -> Result<Seq<char>, EmulationError>
    decreases 255 - offset,
{
    match ram_read(m, offset) {
        Err(e) => Err(e),
        Ok(b) => if b == 0 {
            Ok(Seq::empty())
        } else if offset == 255 {
            Err(EmulationError::OtherError)
        } else {
            match string_at(m, (offset + 1) as u8) {
                Ok(rest) => Ok(seq![b as char] + rest),
                Err(e) => Err(e),
            }
        },
    }
}

/// The flags byte of a comparison: the OR of the masks whose condition holds.
pub open spec fn compare_flags(left: u8, right: u8, masks: CmpFlags) -> u8 {
    (if left == 0 && right == 0 {
        masks.zero
    } else {
        0u8
    }) | (if left < right {
        masks.smaller
    } else {
        0u8
    }) | (if left == right {
        masks.equals
    } else {
        0u8
    }) | (if left > right {
        masks.bigger
    } else {
        0u8
    }) | (if left != right {
        masks.not_equals
    } else {
        0u8
    })
}

/// A jump with these flags is taken given the flags register's value.
pub open spec fn jump_taken(flags: u8, current: u8) -> bool {
    flags == 0 || current & flags != 0
}

/// Bytes that a transfer starting at a RAM offset may move without leaving the window.
pub open spec fn clamp_len(requested: u8, offset: u8) -> usize {
    if (requested as int) < RAM_SIZE - offset {
        requested as usize
    } else {
        (RAM_SIZE - offset) as usize
    }
}

/// A host syscall that an instruction asks for, in terms of plain values.
pub enum HostRequest {
    Write { fd: u8, data: Seq<u8>, dst: u8 },
    Read { fd: u8, offset: u8, len: usize, dst: u8 },
    Open { path: Seq<char>, flags: u8, mode: u8, dst: u8 },
}

/// A host syscall that a `Sys` instruction asks the caller to perform.
#[derive(Clone, Debug)]
pub enum HostCall {
    /// Write `data` to descriptor `fd`, then pass the count to `finish_write`.
    Write { fd: u8, data: Vec<u8>, dst: u8 },
    /// Read up to `len` bytes from `fd`, then pass them to `finish_read`.
    Read { fd: u8, offset: u8, len: usize, dst: u8 },
    /// Open `path`, then pass the descriptor to `finish_open`.
    Open { path: String, flags: u8, mode: u8, dst: u8 },
}

impl View for HostCall {
    type V = HostRequest;

    open spec fn view(&self) -> HostRequest {
        match self {
            HostCall::Write { fd, data, dst } => HostRequest::Write { fd: *fd, data: data@, dst: *dst },
            HostCall::Read { fd, offset, len, dst } => HostRequest::Read {
                fd: *fd,
                offset: *offset,
                len: *len,
                dst: *dst,
            },
            HostCall::Open { path, flags, mode, dst } => HostRequest::Open {
                path: path@,
                flags: *flags,
                mode: *mode,
                dst: *dst,
            },
        }
    }
}

pub open spec fn outcome_view(r: Result<Option<HostCall>, EmulationError>) -> Result<
    Option<HostRequest>,
    EmulationError,
> {
    match r {
        Ok(Some(h)) => Ok(Some(h@)),
        Ok(None) => Ok(None),
        Err(e) => Err(e),
    }
}

/// What a `Sys` instruction asks for; it reads registers and RAM only.
pub open spec fn syscall_request(m: Seq<u8>, c: VMConsts, num: u8, dst: u8) -> Result<
    Option<HostRequest>,
    EmulationError,
> {
    let regs = c.registers;
    if num == c.syscalls.write {
        match reg_read(m, regs, regs.a) {
            Err(e) => Err(e),
            Ok(fd) => match reg_read(m, regs, regs.b) {
                Err(e) => Err(e),
                Ok(offset) => match reg_read(m, regs, regs.c) {
                    Err(e) => Err(e),
                    Ok(n) => {
                        let start = RAM_BASE + offset;
                        let len = clamp_len(n, offset);
                        if start + len <= m.len() {
                            Ok(
                                Some(
                                    HostRequest::Write {
                                        fd,
                                        data: m.subrange(start, start + len),
                                        dst,
                                    },
                                ),
                            )
                        } else {
                            Err(EmulationError::InvalidMemoryAddress { address: start as u16 })
                        }
                    },
                },
            },
        }
    } else if num == c.syscalls.read_memory {
        match reg_read(m, regs, regs.a) {
            Err(e) => Err(e),
            Ok(fd) => match reg_read(m, regs, regs.b) {
                Err(e) => Err(e),
                Ok(offset) => match reg_read(m, regs, regs.c) {
                    Err(e) => Err(e),
                    Ok(n) => Ok(
                        Some(HostRequest::Read { fd, offset, len: clamp_len(n, offset), dst }),
                    ),
                },
            },
        }
    } else if num == c.syscalls.open {
        match reg_read(m, regs, regs.a) {
            Err(e) => Err(e),
            Ok(at) => match string_at(m, at) {
                Err(e) => Err(e),
                Ok(path) => match reg_read(m, regs, regs.b) {
                    Err(e) => Err(e),
                    Ok(flags) => match reg_read(m, regs, regs.c) {
                        Err(e) => Err(e),
                        Ok(mode) => Ok(Some(HostRequest::Open { path, flags, mode, dst })),
                    },
                },
            },
        }
    } else {
        Err(EmulationError::InvalidSyscall { syscall: num })
    }
}

/// The push half of `Stk`: raise the stack pointer, then store register `push` there.
pub open spec fn push_effect(m: Seq<u8>, c: VMConsts, push: u8) -> (Seq<u8>, Result<(), EmulationError>) {
    let regs = c.registers;
    if push == REG_NONE {
        (m, Ok(()))
    } else {
        match reg_read(m, regs, regs.s) {
            Err(e) => (m, Err(e)),
            Ok(sp) => match reg_write(m, regs, regs.s, ((sp + 1) % 256) as u8) {
                Err(e) => (m, Err(e)),
                Ok(m1) => match reg_read(m1, regs, push) {
                    Err(e) => (m1, Err(e)),
                    Ok(val) => match reg_read(m1, regs, regs.s) {
                        Err(e) => (m1, Err(e)),
                        Ok(top) => match ram_write(m1, top, val) {
                            Err(e) => (m1, Err(e)),
                            Ok(m2) => (m2, Ok(())),
                        },
                    },
                },
            },
        }
    }
}

/// The pop half of `Stk`: load the byte at the stack pointer into `pop`, then lower the pointer.
pub open spec fn pop_effect(m: Seq<u8>, c: VMConsts, pop: u8) -> (Seq<u8>, Result<(), EmulationError>) {
    let regs = c.registers;
    if pop == REG_NONE {
        (m, Ok(()))
    } else {
        match reg_read(m, regs, regs.s) {
            Err(e) => (m, Err(e)),
            Ok(top) => match ram_read(m, top) {
                Err(e) => (m, Err(e)),
                Ok(val) => match reg_write(m, regs, pop, val) {
                    Err(e) => (m, Err(e)),
                    Ok(m1) => match reg_read(m1, regs, regs.s) {
                        Err(e) => (m1, Err(e)),
                        Ok(sp) => match reg_write(m1, regs, regs.s, ((sp + 255) % 256) as u8) {
                            Err(e) => (m1, Err(e)),
                            Ok(m2) => (m2, Ok(())),
                        },
                    },
                },
            },
        }
    }
}

/// A write's result as the memory and outcome of an instruction.
pub open spec fn as_step(m: Seq<u8>, effect: Result<Seq<u8>, EmulationError>) -> (
    Seq<u8>,
    Result<Option<HostRequest>, EmulationError>,
) {
    match effect {
        Ok(m1) => (m1, Ok(None)),
        Err(e) => (m, Err(e)),
    }
}

/// Memory after an instruction, and what it returns.
pub open spec fn interpret(m: Seq<u8>, c: VMConsts, ins: Instruction) -> (
    Seq<u8>,
    Result<Option<HostRequest>, EmulationError>,
) {
    let regs = c.registers;
    match ins {
        Instruction::Imm { dst, val } => as_step(m, reg_write(m, regs, dst, val)),
        Instruction::Add { dst, src } => match reg_read(m, regs, dst) {
            Err(e) => (m, Err(e)),
            Ok(x) => match reg_read(m, regs, src) {
                Err(e) => (m, Err(e)),
                Ok(y) => as_step(m, reg_write(m, regs, dst, ((x + y) % 256) as u8)),
            },
        },
        Instruction::Stk { pop, push } => {
            let (m1, r1) = push_effect(m, c, push);
            match r1 {
                Err(e) => (m1, Err(e)),
                Ok(_) => {
                    let (m2, r2) = pop_effect(m1, c, pop);
                    match r2 {
                        Err(e) => (m2, Err(e)),
                        Ok(_) => (m2, Ok(None)),
                    }
                },
            }
        },
        Instruction::Stm { dst, src } => match reg_read(m, regs, dst) {
            Err(e) => (m, Err(e)),
            Ok(offset) => match reg_read(m, regs, src) {
                Err(e) => (m, Err(e)),
                Ok(val) => as_step(m, ram_write(m, offset, val)),
            },
        },
        Instruction::Ldm { dst, src } => match reg_read(m, regs, src) {
            Err(e) => (m, Err(e)),
            Ok(offset) => match ram_read(m, offset) {
                Err(e) => (m, Err(e)),
                Ok(val) => as_step(m, reg_write(m, regs, dst, val)),
            },
        },
        Instruction::Cmp { left, right } => match reg_read(m, regs, left) {
            Err(e) => (m, Err(e)),
            Ok(x) => match reg_read(m, regs, right) {
                Err(e) => (m, Err(e)),
                Ok(y) => as_step(m, reg_write(m, regs, regs.f, compare_flags(x, y, c.cmp_flags))),
            },
        },
        Instruction::Jmp { flags, dst } => {
            if flags == 0 {
                match reg_read(m, regs, dst) {
                    Err(e) => (m, Err(e)),
                    Ok(target) => as_step(m, reg_write(m, regs, regs.i, target)),
                }
            } else {
                match reg_read(m, regs, regs.f) {
                    Err(e) => (m, Err(e)),
                    Ok(current) => if jump_taken(flags, current) {
                        match reg_read(m, regs, dst) {
                            Err(e) => (m, Err(e)),
                            Ok(target) => as_step(m, reg_write(m, regs, regs.i, target)),
                        }
                    } else {
                        (m, Ok(None))
                    },
                }
            }
        },
        Instruction::Sys { num, dst } => (m, syscall_request(m, c, num, dst)),
    }
}

/// Memory after one step from `m`, and what the step returns.
pub open spec fn step(m: Seq<u8>, c: VMConsts) -> (Seq<u8>, Result<Option<HostRequest>, EmulationError>) {
    let regs = c.registers;
    match reg_read(m, regs, regs.i) {
        Err(e) => (m, Err(e)),
        Ok(ip) => if ip == 255 {
            (m, Err(EmulationError::OtherError))
        } else {
            match reg_write(m, regs, regs.i, (ip + 1) as u8) {
                Err(e) => (m, Err(e)),
                Ok(m1) => {
                    let start = ip * 3;
                    if start + 3 <= m1.len() {
                        match decode(m1.subrange(start, start + 3), c.instruction_indices, c.opcodes) {
                            None => (m1, Err(EmulationError::InvalidInstruction { instruction: m1[start] })),
                            Some(ins) => interpret(m1, c, ins),
                        }
                    } else {
                        (m1, Err(EmulationError::InvalidMemoryAddress { address: start as u16 }))
                    }
                },
            }
        },
    }
}

/// Memory after the bytes that a host read returned are copied in at a RAM
/// offset, as far as the buffer reaches, and whether all of them fitted.
pub open spec fn fill_ram(m: Seq<u8>, offset: u8, data: Seq<u8>) -> (Seq<u8>, Result<(), EmulationError>) {
    let start = RAM_BASE + offset;
    let after = Seq::new(
        m.len(),
        |j: int|
            if start <= j < start + data.len() {
                data[j - start]
            } else {
                m[j]
            },
    );
    if data.len() == 0 || start + data.len() <= m.len() {
        (after, Ok(()))
    } else if start < m.len() {
        (after, Err(EmulationError::InvalidMemoryAddress { address: m.len() as u16 }))
    } else {
        (after, Err(EmulationError::InvalidMemoryAddress { address: start as u16 }))
    }
}

/// The engine: the unified memory and the encoding it runs under.
#[derive(Debug)]
pub struct Emulator {
    mem: Vec<u8>,
    consts: VMConsts,
}

impl Emulator {
    /// The unified memory.
    pub closed spec fn memory(&self) -> Seq<u8> {
        self.mem@
    }

    /// The encoding the engine runs under.
    pub closed spec fn config(&self) -> VMConsts {
        self.consts
    }

    pub fn new(mem: Vec<u8>, consts: VMConsts) -> (r: Self)
        ensures
            r.memory() == mem@,
            r.config() == consts,
    {
        Self { mem, consts }
    }

    pub fn read_memory_raw(&self, location: u16) -> (r: Result<u8, EmulationError>)
        ensures
            r == raw_read(self.memory(), location),
    {
        if (location as usize) < self.mem.len() {
            Ok(self.mem[location as usize])
        } else {
            Err(EmulationError::InvalidMemoryAddress { address: location })
        }
    }

    pub fn read_memory(&self, location: u8) -> (r: Result<u8, EmulationError>)
        ensures
            r == ram_read(self.memory(), location),
    {
        self.read_memory_raw(location as u16 + RAM_BASE)
    }

    pub fn read_register(&self, register: u8) -> (r: Result<u8, EmulationError>)
        ensures
            r == reg_read(self.memory(), self.config().registers, register),
    {
        match self.consts.registers.reg_to_mem_location(register) {
            Some(location) => self.read_memory_raw(location),
            None => Err(EmulationError::InvalidRegister { register }),
        }
    }

    pub fn write_memory_raw(&mut self, location: u16, val: u8) -> (r: Result<(), EmulationError>)
        ensures
            applied(old(self).memory(), raw_write(old(self).memory(), location, val), final(self).memory(), r),
            location as int >= old(self).memory().len() ==> r == Err::<(), EmulationError>(
                EmulationError::InvalidMemoryAddress { address: location },
            ) && final(self).memory() == old(self).memory(),
            final(self).config() == old(self).config(),
    {
        if (location as usize) < self.mem.len() {
            self.mem[location as usize] = val;
            Ok(())
        } else {
            Err(EmulationError::InvalidMemoryAddress { address: location })
        }
    }

    pub fn write_memory(&mut self, location: u8, val: u8) -> (r: Result<(), EmulationError>)
        ensures
            applied(old(self).memory(), ram_write(old(self).memory(), location, val), final(self).memory(), r),
            ram_address(location) as int >= old(self).memory().len() ==> r == Err::<(), EmulationError>(
                EmulationError::InvalidMemoryAddress { address: ram_address(location) },
            ) && final(self).memory() == old(self).memory(),
            final(self).config() == old(self).config(),
    {
        self.write_memory_raw(location as u16 + RAM_BASE, val)
    }

    pub fn write_register(&mut self, register: u8, val: u8) -> (r: Result<(), EmulationError>)
        ensures
            applied(
                old(self).memory(),
                reg_write(old(self).memory(), old(self).config().registers, register, val),
                final(self).memory(),
                r,
            ),
            old(self).config().registers.location_of(register) is None ==> r == Err::<(), EmulationError>(
                EmulationError::InvalidRegister { register },
            ) && final(self).memory() == old(self).memory(),
            final(self).config() == old(self).config(),
    {
        match self.consts.registers.reg_to_mem_location(register) {
            Some(location) => self.write_memory_raw(location, val),
            None => Err(EmulationError::InvalidRegister { register }),
        }
    }
}

/// Relies on `String::push`: appends one character at the end.
#[verifier::external_body]
fn push_char(s: &mut String, ch: char)
    ensures
        final(s)@ == old(s)@.push(ch),
{
    s.push(ch);
}

impl Emulator {
    /// The engine's configuration allows decoding.
    pub open spec fn wf(&self) -> bool {
        self.config().instruction_indices.in_range()
    }

    /// Reads the null-terminated string at a RAM offset.
    pub fn read_string(&self, offset: u8) -> (r: Result<String, EmulationError>)
        ensures
            match r {
                Ok(s) => string_at(self.memory(), offset) == Ok::<Seq<char>, EmulationError>(s@),
                Err(e) => string_at(self.memory(), offset) == Err::<Seq<char>, EmulationError>(e),
            },
    {
        let mut result = String::new();
        let mut current_offset: u8 = offset;
        loop
            invariant
                string_at(self.memory(), offset) == match string_at(self.memory(), current_offset) {
                    Ok(rest) => Ok::<Seq<char>, EmulationError>(result@ + rest),
                    Err(e) => Err(e),
                },
            decreases 255 - current_offset,
        {
            let c = self.read_memory(current_offset)?;
            if c == 0 {
                assert(result@ + Seq::<char>::empty() =~= result@);
                return Ok(result);
            }
            if current_offset == 255 {
                return Err(EmulationError::OtherError);
            }
            let ghost before = result@;
            push_char(&mut result, c as char);
            assert(forall|rest: Seq<char>| before + (seq![c as char] + rest) =~= result@ + rest);
            current_offset = current_offset + 1;
        }
    }

    pub fn parse_instruction(&self, instruction_bytes: &[u8; 3]) -> (r: Result<
        Instruction,
        EmulationError,
    >)
        requires
            self.wf(),
        ensures
            match decode(instruction_bytes@, self.config().instruction_indices, self.config().opcodes) {
                Some(ins) => r == Ok::<Instruction, EmulationError>(ins),
                None => r == Err::<Instruction, EmulationError>(
                    EmulationError::InvalidInstruction { instruction: instruction_bytes@[0] },
                ),
            },
    {
        match Instruction::from_bytes(
            instruction_bytes.as_slice(),
            self.consts.instruction_indices,
            self.consts.opcodes,
        ) {
            Some(instruction) => Ok(instruction),
            None => Err(EmulationError::InvalidInstruction { instruction: instruction_bytes[0] }),
        }
    }

    /// Copies the RAM bytes of a host write, failing where they leave the buffer.
    fn ram_slice(&self, offset: u8, len: usize) -> (r: Result<Vec<u8>, EmulationError>)
        requires
            len <= RAM_SIZE - offset,
        ensures
            ({
                let start = RAM_BASE + offset;
                if start + len <= self.memory().len() {
                    r matches Ok(v) && v@ == self.memory().subrange(start, start + len)
                } else {
                    r == Err::<Vec<u8>, EmulationError>(
                        EmulationError::InvalidMemoryAddress { address: start as u16 },
                    )
                }
            }),
    {
        let start: usize = RAM_BASE as usize + offset as usize;
        if start + len > self.mem.len() {
            return Err(EmulationError::InvalidMemoryAddress { address: start as u16 });
        }
        let mut data: Vec<u8> = Vec::new();
        let mut k: usize = 0;
        while k < len
            invariant
                k <= len,
                start == RAM_BASE + offset,
                len <= RAM_SIZE - offset,
                start as int + len as int <= self.mem@.len(),
                data@ == self.mem@.subrange(start as int, start + k),
            decreases len - k,
        {
            data.push(self.mem[start + k]);
            k = k + 1;
            assert(data@ =~= self.mem@.subrange(start as int, start + k));
        }
        Ok(data)
    }

    fn syscall(&self, num: u8, dst: u8) -> (r: Result<Option<HostCall>, EmulationError>)
        ensures
            outcome_view(r) == syscall_request(self.memory(), self.config(), num, dst),
    {
        let regs = self.consts.registers;
        if num == self.consts.syscalls.write {
            let fd = self.read_register(regs.a)?;
            let origin_offset = self.read_register(regs.b)?;
            let requested = self.read_register(regs.c)?;
            let max_bytes: usize = RAM_SIZE - origin_offset as usize;
            let n_bytes: usize = if (requested as usize) < max_bytes {
                requested as usize
            } else {
                max_bytes
            };
            let data = self.ram_slice(origin_offset, n_bytes)?;
            Ok(Some(HostCall::Write { fd, data, dst }))
        } else if num == self.consts.syscalls.read_memory {
            let fd = self.read_register(regs.a)?;
            let dest_offset = self.read_register(regs.b)?;
            let requested = self.read_register(regs.c)?;
            let max_bytes: usize = RAM_SIZE - dest_offset as usize;
            let n_bytes: usize = if (requested as usize) < max_bytes {
                requested as usize
            } else {
                max_bytes
            };
            Ok(Some(HostCall::Read { fd, offset: dest_offset, len: n_bytes, dst }))
        } else if num == self.consts.syscalls.open {
            let at = self.read_register(regs.a)?;
            let path = self.read_string(at)?;
            let flags = self.read_register(regs.b)?;
            let mode = self.read_register(regs.c)?;
            Ok(Some(HostCall::Open { path, flags, mode, dst }))
        } else {
            Err(EmulationError::InvalidSyscall { syscall: num })
        }
    }

    fn compare(left: u8, right: u8, masks: CmpFlags) -> (r: u8)
        ensures
            r == compare_flags(left, right, masks),
    {
        let zero: u8 = if left == 0 && right == 0 {
            masks.zero
        } else {
            0
        };
        let smaller: u8 = if left < right {
            masks.smaller
        } else {
            0
        };
        let equals: u8 = if left == right {
            masks.equals
        } else {
            0
        };
        let bigger: u8 = if left > right {
            masks.bigger
        } else {
            0
        };
        let not_equals: u8 = if left != right {
            masks.not_equals
        } else {
            0
        };
        zero | smaller | equals | bigger | not_equals
    }

    fn push(&mut self, push: u8) -> (r: Result<(), EmulationError>)
        ensures
            (final(self).memory(), r) == push_effect(old(self).memory(), old(self).config(), push),
            final(self).config() == old(self).config(),
    {
        if push != REG_NONE {
            let regs = self.consts.registers;
            let sp = self.read_register(regs.s)?;
            self.write_register(regs.s, ((sp as u16 + 1) % 256) as u8)?;
            let val = self.read_register(push)?;
            let top = self.read_register(regs.s)?;
            self.write_memory(top, val)?;
        }
        Ok(())
    }

    fn pop(&mut self, pop: u8) -> (r: Result<(), EmulationError>)
        ensures
            (final(self).memory(), r) == pop_effect(old(self).memory(), old(self).config(), pop),
            final(self).config() == old(self).config(),
    {
        if pop != REG_NONE {
            let regs = self.consts.registers;
            let top = self.read_register(regs.s)?;
            let val = self.read_memory(top)?;
            self.write_register(pop, val)?;
            let sp = self.read_register(regs.s)?;
            self.write_register(regs.s, ((sp as u16 + 255) % 256) as u8)?;
        }
        Ok(())
    }

    /// Carries out one decoded instruction; a `Sys` instruction yields the
    /// host call it asks for and changes nothing.
    pub fn interpret_instruction(&mut self, instruction: Instruction) -> (r: Result<
        Option<HostCall>,
        EmulationError,
    >)
        ensures
            final(self).memory() == interpret(old(self).memory(), old(self).config(), instruction).0,
            outcome_view(r) == interpret(old(self).memory(), old(self).config(), instruction).1,
            final(self).config() == old(self).config(),
    {
        let regs = self.consts.registers;
        match instruction {
            Instruction::Imm { dst, val } => {
                self.write_register(dst, val)?;
                Ok(None)
            },
            Instruction::Add { dst, src } => {
                let x = self.read_register(dst)?;
                let y = self.read_register(src)?;
                self.write_register(dst, ((x as u16 + y as u16) % 256) as u8)?;
                Ok(None)
            },
            Instruction::Stk { pop, push } => {
                self.push(push)?;
                self.pop(pop)?;
                Ok(None)
            },
            Instruction::Stm { dst, src } => {
                let offset = self.read_register(dst)?;
                let val = self.read_register(src)?;
                self.write_memory(offset, val)?;
                Ok(None)
            },
            Instruction::Ldm { dst, src } => {
                let offset = self.read_register(src)?;
                let val = self.read_memory(offset)?;
                self.write_register(dst, val)?;
                Ok(None)
            },
            Instruction::Cmp { left, right } => {
                let x = self.read_register(left)?;
                let y = self.read_register(right)?;
                let flags = Self::compare(x, y, self.consts.cmp_flags);
                self.write_register(regs.f, flags)?;
                Ok(None)
            },
            Instruction::Jmp { flags, dst } => {
                let taken = if flags == 0 {
                    true
                } else {
                    let current = self.read_register(regs.f)?;
                    current & flags != 0
                };
                if taken {
                    let target = self.read_register(dst)?;
                    self.write_register(regs.i, target)?;
                }
                Ok(None)
            },
            Instruction::Sys { num, dst } => self.syscall(num, dst),
        }
    }

    /// Fetches, decodes and carries out the instruction at the instruction
    /// pointer, which it first advances.
    pub fn execute_next_instruction(&mut self) -> (r: Result<Option<HostCall>, EmulationError>)
        requires
            old(self).wf(),
        ensures
            final(self).memory() == step(old(self).memory(), old(self).config()).0,
            outcome_view(r) == step(old(self).memory(), old(self).config()).1,
            final(self).config() == old(self).config(),
    {
        let regs = self.consts.registers;
        let ip = self.read_register(regs.i)?;
        let next = match ip.checked_add(1) {
            Some(v) => v,
            None => return Err(EmulationError::OtherError),
        };
        self.write_register(regs.i, next)?;
        let start: usize = ip as usize * INSTRUCTION_SIZE;
        if start + INSTRUCTION_SIZE > self.mem.len() {
            return Err(EmulationError::InvalidMemoryAddress { address: start as u16 });
        }
        let instruction_bytes: [u8; 3] = [self.mem[start], self.mem[start + 1], self.mem[start + 2]];
        assert(instruction_bytes@ =~= self.mem@.subrange(start as int, start + 3));
        let instruction = self.parse_instruction(&instruction_bytes)?;
        self.interpret_instruction(instruction)
    }

    /// Stores what a host write returned: a byte count, narrowed to 8 bits,
    /// into `dst`; a negative result (a host failure) changes nothing.
    pub fn finish_write(&mut self, dst: u8, written: isize) -> (r: Result<(), EmulationError>)
        ensures
            written < 0 ==> r == Ok::<(), EmulationError>(()) && final(self).memory() == old(self).memory(),
            written >= 0 ==> applied(
                old(self).memory(),
                reg_write(old(self).memory(), old(self).config().registers, dst, (written % 256) as u8),
                final(self).memory(),
                r,
            ),
            final(self).config() == old(self).config(),
    {
        if written >= 0 {
            self.write_register(dst, (written % 256) as u8)
        } else {
            Ok(())
        }
    }

    /// Copies the bytes that a host read returned into RAM at `offset`,
    /// one at a time; more bytes than the window holds from there is an error.
    pub fn finish_read(&mut self, offset: u8, received: &[u8]) -> (r: Result<(), EmulationError>)
        ensures
            received@.len() > RAM_SIZE - offset ==> r == Err::<(), EmulationError>(EmulationError::OtherError)
                && final(self).memory() == old(self).memory(),
            received@.len() <= RAM_SIZE - offset ==> (final(self).memory(), r) == fill_ram(
                old(self).memory(),
                offset,
                received@,
            ),
            final(self).config() == old(self).config(),
    {
        let len = received.len();
        if len > RAM_SIZE - offset as usize {
            return Err(EmulationError::OtherError);
        }
        let ghost m0 = self.mem@;
        let ghost start = RAM_BASE + offset;
        let mut k: usize = 0;
        while k < len
            invariant
                len == received@.len(),
                len <= RAM_SIZE - offset,
                k <= len,
                start == RAM_BASE + offset,
                k == 0 || start + k <= m0.len(),
                self.consts == old(self).consts,
                m0 == old(self).mem@,
                self.mem@ == Seq::new(
                    m0.len(),
                    |j: int|
                        if start <= j < start + k {
                            received@[j - start]
                        } else {
                            m0[j]
                        },
                ),
            decreases len - k,
        {
            let at: u8 = (offset as usize + k) as u8;
            let res = self.write_memory(at, received[k]);
            if res.is_err() {
                assert(self.mem@ =~= fill_ram(m0, offset, received@).0);
                return res;
            }
            k = k + 1;
            assert(self.mem@ =~= Seq::new(
                m0.len(),
                |j: int|
                    if start <= j < start + k {
                        received@[j - start]
                    } else {
                        m0[j]
                    },
            ));
        }
        assert(self.mem@ =~= fill_ram(m0, offset, received@).0);
        Ok(())
    }

    /// Stores the descriptor that a host open returned into `dst`; one that
    /// does not fit in 8 bits (a host failure among them) is an error.
    pub fn finish_open(&mut self, dst: u8, fd: i32) -> (r: Result<(), EmulationError>)
        ensures
            !(0 <= fd <= 255) ==> r == Err::<(), EmulationError>(EmulationError::OtherError)
                && final(self).memory() == old(self).memory(),
            0 <= fd <= 255 ==> applied(
                old(self).memory(),
                reg_write(old(self).memory(), old(self).config().registers, dst, fd as u8),
                final(self).memory(),
                r,
            ),
            final(self).config() == old(self).config(),
    {
        if 0 <= fd && fd <= 255 {
            self.write_register(dst, fd as u8)
        } else {
            Err(EmulationError::OtherError)
        }
    }
}

} // verus!
