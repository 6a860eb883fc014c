//! Laws of the engine, stated over the models that its functions' contracts use.

use vstd::prelude::*;
use crate::arch::{CmpFlags, Instruction, VMConsts, REG_NONE};
use crate::emulator::{
    compare_flags, interpret, ram_read, ram_write, ram_address, reg_read,
    reg_write, EmulationError, HostRequest, FLAGS_LOCATION, IP_LOCATION, SP_LOCATION,
};

verus! {

/// Of any two bytes exactly one of smaller, bigger and equal holds, not-equal
/// holds exactly when equal does not, zero exactly when both are 0; and the
/// flags byte a comparison stores is the OR of the masks whose condition holds.
pub proof fn lemma_compare_total(left: u8, right: u8, masks: CmpFlags)
    ensures
        (left < right) as int + (left > right) as int + (left == right) as int == 1,
        (left != right) <==> !(left == right),
        left < right ==> compare_flags(left, right, masks) == masks.smaller | masks.not_equals,
        left > right ==> compare_flags(left, right, masks) == masks.bigger | masks.not_equals,
        left == right && left != 0 ==> compare_flags(left, right, masks) == masks.equals,
        left == 0 && right == 0 ==> compare_flags(left, right, masks) == masks.zero | masks.equals,
{
    assert(forall|x: u8| #![auto] 0u8 | x == x && x | 0u8 == x) by (bit_vector);
}

/// A jump with flags 0 is always taken; one with flags `F` is taken exactly
/// when the flags register ANDed with `F` is nonzero. A taken jump sets the
/// instruction pointer to the value of register `dst`; one not taken changes nothing.
pub proof fn lemma_jump(m: Seq<u8>, c: VMConsts, flags: u8, dst: u8)
    requires
        c.registers.valid(),
        m.len() >= 0x407,
        dst != REG_NONE,
        c.registers.location_of(dst) is Some,
    ensures
        ({
            let target = m[c.registers.location_of(dst).unwrap() as int];
            if flags == 0 || m[FLAGS_LOCATION as int] & flags != 0 {
                interpret(m, c, Instruction::Jmp { flags, dst }) == (
                    m.update(IP_LOCATION as int, target),
                    Ok::<Option<HostRequest>, EmulationError>(None),
                )
            } else {
                interpret(m, c, Instruction::Jmp { flags, dst }) == (
                    m,
                    Ok::<Option<HostRequest>, EmulationError>(None),
                )
            }
        }),
{
    let regs = c.registers;
    assert(regs.location_of(regs.f) == Some(FLAGS_LOCATION));
    assert(regs.location_of(regs.i) == Some(IP_LOCATION));
}

/// Pushing register `x` and then popping into register `y` leaves `y` holding
/// what `x` held before the push, and the stack pointer as it was.
pub proof fn lemma_push_pop_round_trip(m: Seq<u8>, c: VMConsts, x: u8, y: u8)
    requires
        c.registers.valid(),
        m.len() >= 0x407,
        x != REG_NONE,
        y != REG_NONE,
        c.registers.location_of(x) is Some,
        c.registers.location_of(y) is Some,
        x != c.registers.s,
        y != c.registers.s,
    ensures
        ({
            let (m1, r1) = interpret(m, c, Instruction::Stk { pop: REG_NONE, push: x });
            let (m2, r2) = interpret(m1, c, Instruction::Stk { pop: y, push: REG_NONE });
            &&& r1 == Ok::<Option<HostRequest>, EmulationError>(None)
            &&& r2 == Ok::<Option<HostRequest>, EmulationError>(None)
            &&& reg_read(m2, c.registers, y) == reg_read(m, c.registers, x)
            &&& reg_read(m2, c.registers, c.registers.s) == reg_read(m, c.registers, c.registers.s)
        }),
{
    let regs = c.registers;
    assert(regs.location_of(regs.s) == Some(SP_LOCATION));
    let lx = regs.location_of(x).unwrap();
    let ly = regs.location_of(y).unwrap();
    assert(0x400 <= lx <= 0x406 && lx != 0x404);
    assert(0x400 <= ly <= 0x406 && ly != 0x404);
    let sp = m[SP_LOCATION as int];
    let top = ((sp + 1) % 256) as u8;
    let m1 = m.update(SP_LOCATION as int, top).update(ram_address(top) as int, m[lx as int]);
    assert(interpret(m, c, Instruction::Stk { pop: REG_NONE, push: x }).0 == m1);
    assert(m1[SP_LOCATION as int] == top);
    assert(m1[ram_address(top) as int] == m[lx as int]);
    let m2 = m1.update(ly as int, m[lx as int]);
    assert(m2[SP_LOCATION as int] == top);
    assert(((top + 255) % 256) as u8 == sp);
}

/// An access that resolves outside the buffer fails with an address error,
/// and a write that does so yields no new memory.
pub proof fn lemma_out_of_range_access(m: Seq<u8>, c: VMConsts, r: u8, offset: u8, val: u8)
    ensures
        ({
            let loc = c.registers.location_of(r).unwrap();
            c.registers.location_of(r) is Some && loc as int >= m.len() ==> {
                &&& reg_read(m, c.registers, r) == Err::<u8, EmulationError>(
                    EmulationError::InvalidMemoryAddress { address: loc },
                )
                &&& reg_write(m, c.registers, r, val) == Err::<Seq<u8>, EmulationError>(
                    EmulationError::InvalidMemoryAddress { address: loc },
                )
            }
        }),
        ram_address(offset) as int >= m.len() ==> {
            &&& ram_read(m, offset) == Err::<u8, EmulationError>(
                EmulationError::InvalidMemoryAddress { address: ram_address(offset) },
            )
            &&& ram_write(m, offset, val) == Err::<Seq<u8>, EmulationError>(
                EmulationError::InvalidMemoryAddress { address: ram_address(offset) },
            )
        },
{
}

} // verus!
