use vmemu::arch::{
    CmpFlags, Instruction, InstructionDecodeIndices, InstructionOpcodes, Registers, Syscalls,
    VMConsts,
};
use vmemu::emulator::{EmulationError, Emulator, HostCall};

const A: u8 = 0x20;
const B: u8 = 0x4;
const C: u8 = 0x10;
const D: u8 = 0x40;
const S: u8 = 0x1;
const I: u8 = 0x2;
const F: u8 = 0x8;

const SYS: u8 = 0x1;
const CMP: u8 = 0x2;
const STK: u8 = 0x4;
const LDM: u8 = 0x8;
const STM: u8 = 0x10;
const IMM: u8 = 0x20;
const JMP: u8 = 0x40;
const ADD: u8 = 0x80;

fn consts() -> VMConsts {
    VMConsts {
        opcodes: InstructionOpcodes {
            imm: IMM,
            add: ADD,
            stk: STK,
            stm: STM,
            ldm: LDM,
            cmp: CMP,
            jmp: JMP,
            sys: SYS,
        },
        syscalls: Syscalls { open: 0x1, read_memory: 0x2, write: 0x4 },
        registers: Registers { a: A, b: B, c: C, d: D, s: S, i: I, f: F, none: 0 },
        instruction_indices: InstructionDecodeIndices { opcode: 0, left_param: 1, right_param: 2 },
        cmp_flags: CmpFlags { smaller: 0x1, bigger: 0x2, equals: 0x4, not_equals: 0x8, zero: 0x10 },
    }
}

fn machine(code: &[u8]) -> Emulator {
    let mut mem = vec![0u8; 0x407];
    mem[..code.len()].copy_from_slice(code);
    Emulator::new(mem, consts())
}

fn reg(e: &Emulator, r: u8) -> u8 {
    e.read_register(r).unwrap()
}

#[test]
fn end_to_end_imm_imm_add() {
    let mut e = machine(&[IMM, A, 5, IMM, B, 3, ADD, A, B]);
    for _ in 0..3 {
        assert!(matches!(e.execute_next_instruction(), Ok(None)));
    }
    assert_eq!(reg(&e, A), 8);
    assert_eq!(reg(&e, B), 3);
    assert_eq!(reg(&e, I), 3);
}

#[test]
fn add_wraps_modulo_256() {
    let mut e = machine(&[IMM, A, 250, IMM, B, 10, ADD, A, B]);
    for _ in 0..3 {
        e.execute_next_instruction().unwrap();
    }
    assert_eq!(reg(&e, A), 4);
}

#[test]
fn cmp_sets_flags_for_each_relation() {
    let mut e = machine(&[]);
    e.write_register(A, 1).unwrap();
    e.write_register(B, 2).unwrap();
    e.interpret_instruction(Instruction::Cmp { left: A, right: B }).unwrap();
    assert_eq!(reg(&e, F), 0x1 | 0x8);
    e.interpret_instruction(Instruction::Cmp { left: B, right: A }).unwrap();
    assert_eq!(reg(&e, F), 0x2 | 0x8);
    e.interpret_instruction(Instruction::Cmp { left: B, right: B }).unwrap();
    assert_eq!(reg(&e, F), 0x4);
    e.interpret_instruction(Instruction::Cmp { left: C, right: D }).unwrap();
    assert_eq!(reg(&e, F), 0x10 | 0x4);
}

#[test]
fn jmp_unconditional_and_conditional() {
    let mut e = machine(&[]);
    e.write_register(D, 7).unwrap();
    e.interpret_instruction(Instruction::Jmp { flags: 0, dst: D }).unwrap();
    assert_eq!(reg(&e, I), 7);

    e.write_register(I, 1).unwrap();
    e.write_register(F, 0x4).unwrap();
    e.interpret_instruction(Instruction::Jmp { flags: 0x8, dst: D }).unwrap();
    assert_eq!(reg(&e, I), 1);
    e.interpret_instruction(Instruction::Jmp { flags: 0xc, dst: D }).unwrap();
    assert_eq!(reg(&e, I), 7);
}

#[test]
fn stk_push_then_pop_round_trip() {
    let mut e = machine(&[]);
    e.write_register(A, 42).unwrap();
    e.write_register(S, 9).unwrap();
    e.interpret_instruction(Instruction::Stk { pop: 0, push: A }).unwrap();
    assert_eq!(reg(&e, S), 10);
    assert_eq!(e.read_memory(10).unwrap(), 42);
    e.interpret_instruction(Instruction::Stk { pop: B, push: 0 }).unwrap();
    assert_eq!(reg(&e, B), 42);
    assert_eq!(reg(&e, S), 9);
}

#[test]
fn stk_pointer_wraps() {
    let mut e = machine(&[]);
    e.write_register(S, 255).unwrap();
    e.write_register(A, 3).unwrap();
    e.interpret_instruction(Instruction::Stk { pop: 0, push: A }).unwrap();
    assert_eq!(reg(&e, S), 0);
    assert_eq!(e.read_memory(0).unwrap(), 3);
    e.interpret_instruction(Instruction::Stk { pop: C, push: 0 }).unwrap();
    assert_eq!(reg(&e, S), 255);
    assert_eq!(reg(&e, C), 3);
}

#[test]
fn stm_and_ldm_are_register_indirect() {
    let mut e = machine(&[]);
    e.write_register(A, 0x20).unwrap();
    e.write_register(B, 99).unwrap();
    e.interpret_instruction(Instruction::Stm { dst: A, src: B }).unwrap();
    assert_eq!(e.read_memory(0x20).unwrap(), 99);
    assert_eq!(e.read_memory_raw(0x320).unwrap(), 99);
    e.interpret_instruction(Instruction::Ldm { dst: C, src: A }).unwrap();
    assert_eq!(reg(&e, C), 99);
}

#[test]
fn register_locations_in_bank() {
    let mut e = machine(&[]);
    e.write_register(F, 5).unwrap();
    assert_eq!(e.read_memory_raw(0x406).unwrap(), 5);
    e.write_memory_raw(0x400, 6).unwrap();
    assert_eq!(reg(&e, A), 6);
}

#[test]
fn out_of_range_accesses_fail_without_writing() {
    let mut e = Emulator::new(vec![0u8; 0x401], consts());
    assert_eq!(
        e.write_register(B, 1),
        Err(EmulationError::InvalidMemoryAddress { address: 0x401 })
    );
    assert_eq!(
        e.read_register(B),
        Err(EmulationError::InvalidMemoryAddress { address: 0x401 })
    );
    assert_eq!(e.write_register(A, 4), Ok(()));
    assert_eq!(reg(&e, A), 4);
    let mut small = Emulator::new(vec![0u8; 0x300], consts());
    assert_eq!(
        small.write_memory(0, 1),
        Err(EmulationError::InvalidMemoryAddress { address: 0x300 })
    );
    assert_eq!(
        small.read_memory(5),
        Err(EmulationError::InvalidMemoryAddress { address: 0x305 })
    );
    assert_eq!(
        small.read_memory_raw(0x2ff),
        Ok(0)
    );
}

#[test]
fn none_and_unknown_registers() {
    let mut e = machine(&[]);
    assert_eq!(e.read_register(0x3), Err(EmulationError::InvalidRegister { register: 0x3 }));
    assert_eq!(e.write_register(0x3, 1), Err(EmulationError::InvalidRegister { register: 0x3 }));
    assert_eq!(e.read_register(0), Err(EmulationError::InvalidMemoryAddress { address: 0xffff }));
}

#[test]
fn unknown_opcode_is_invalid_instruction() {
    let mut e = machine(&[0x3, A, B]);
    assert_eq!(
        e.execute_next_instruction().unwrap_err(),
        EmulationError::InvalidInstruction { instruction: 0x3 }
    );
    assert_eq!(reg(&e, I), 1);
}

#[test]
fn fetch_past_buffer_end() {
    let mut e = Emulator::new(vec![0u8; 0x407], consts());
    e.write_register(I, 254).unwrap();
    let mut short = Emulator::new(vec![IMM, A, 1], consts());
    assert_eq!(
        short.execute_next_instruction().unwrap_err(),
        EmulationError::InvalidMemoryAddress { address: 0x405 }
    );
    assert_eq!(
        e.execute_next_instruction().unwrap_err(),
        EmulationError::InvalidInstruction { instruction: 0 }
    );
    assert_eq!(reg(&e, I), 255);
}

#[test]
fn instruction_pointer_overflow_is_an_error() {
    let mut e = machine(&[]);
    e.write_register(I, 255).unwrap();
    assert_eq!(e.execute_next_instruction().unwrap_err(), EmulationError::OtherError);
    assert_eq!(reg(&e, I), 255);
}

#[test]
fn parse_instruction_uses_field_order() {
    let mut c = consts();
    c.instruction_indices = InstructionDecodeIndices { opcode: 2, left_param: 0, right_param: 1 };
    let e = Emulator::new(vec![0u8; 0x407], c);
    assert_eq!(
        e.parse_instruction(&[A, 9, IMM]),
        Ok(Instruction::Imm { dst: A, val: 9 })
    );
    assert_eq!(
        e.parse_instruction(&[A, 9, 0x3]),
        Err(EmulationError::InvalidInstruction { instruction: A })
    );
}

#[test]
fn read_string_until_zero() {
    let mut e = machine(&[]);
    for (k, b) in b"hi/x".iter().enumerate() {
        e.write_memory(10 + k as u8, *b).unwrap();
    }
    assert_eq!(e.read_string(10).unwrap(), "hi/x");
    assert_eq!(e.read_string(14).unwrap(), "");
}

#[test]
fn read_string_unterminated() {
    let mut e = machine(&[]);
    e.write_memory(254, b'a').unwrap();
    e.write_memory(255, b'b').unwrap();
    assert_eq!(e.read_string(254), Err(EmulationError::OtherError));
    let short = Emulator::new(vec![1u8; 0x302], consts());
    assert_eq!(
        short.read_string(0),
        Err(EmulationError::InvalidMemoryAddress { address: 0x302 })
    );
}

#[test]
fn sys_write_requests_clamped_ram_slice() {
    let mut e = machine(&[]);
    e.write_memory(250, 7).unwrap();
    e.write_memory(255, 9).unwrap();
    e.write_register(A, 1).unwrap();
    e.write_register(B, 250).unwrap();
    e.write_register(C, 100).unwrap();
    match e.interpret_instruction(Instruction::Sys { num: 0x4, dst: D }) {
        Ok(Some(HostCall::Write { fd, data, dst })) => {
            assert_eq!(fd, 1);
            assert_eq!(data, vec![7, 0, 0, 0, 0, 9]);
            assert_eq!(dst, D);
        }
        _ => panic!("expected a write request"),
    }
    e.finish_write(D, 300).unwrap();
    assert_eq!(reg(&e, D), 44);
    e.finish_write(C, -1).unwrap();
    assert_eq!(reg(&e, C), 100);
}

#[test]
fn sys_write_past_buffer_end() {
    let mut e = Emulator::new(vec![0u8; 0x407], consts());
    e.write_register(B, 0).unwrap();
    e.write_register(C, 4).unwrap();
    let mut short = Emulator::new(vec![0u8; 0x302], consts());
    assert_eq!(
        short.interpret_instruction(Instruction::Sys { num: 0x4, dst: D }).unwrap_err(),
        EmulationError::InvalidMemoryAddress { address: 0x400 }
    );
    assert!(e.interpret_instruction(Instruction::Sys { num: 0x4, dst: D }).is_ok());
}

#[test]
fn sys_read_requests_and_fills_ram() {
    let mut e = machine(&[]);
    e.write_register(A, 0).unwrap();
    e.write_register(B, 253).unwrap();
    e.write_register(C, 10).unwrap();
    match e.interpret_instruction(Instruction::Sys { num: 0x2, dst: D }) {
        Ok(Some(HostCall::Read { fd, offset, len, dst })) => {
            assert_eq!((fd, offset, len, dst), (0, 253, 3, D));
        }
        _ => panic!("expected a read request"),
    }
    e.finish_read(253, &[1, 2, 3]).unwrap();
    assert_eq!(e.read_memory(253).unwrap(), 1);
    assert_eq!(e.read_memory(254).unwrap(), 2);
    assert_eq!(e.read_memory(255).unwrap(), 3);
    assert_eq!(e.finish_read(253, &[1, 2, 3, 4]), Err(EmulationError::OtherError));
}

#[test]
fn finish_read_stops_at_buffer_end() {
    let mut e = Emulator::new(vec![0u8; 0x302], consts());
    assert_eq!(
        e.finish_read(0, &[5, 6, 7]),
        Err(EmulationError::InvalidMemoryAddress { address: 0x302 })
    );
    assert_eq!(e.read_memory(0).unwrap(), 5);
    assert_eq!(e.read_memory(1).unwrap(), 6);
}

#[test]
fn sys_open_requests_path_and_stores_descriptor() {
    let mut e = machine(&[]);
    for (k, b) in b"/flag\0".iter().enumerate() {
        e.write_memory(0x40 + k as u8, *b).unwrap();
    }
    e.write_register(A, 0x40).unwrap();
    e.write_register(B, 2).unwrap();
    e.write_register(C, 3).unwrap();
    match e.interpret_instruction(Instruction::Sys { num: 0x1, dst: D }) {
        Ok(Some(HostCall::Open { path, flags, mode, dst })) => {
            assert_eq!(path, "/flag");
            assert_eq!((flags, mode, dst), (2, 3, D));
        }
        _ => panic!("expected an open request"),
    }
    e.finish_open(D, 5).unwrap();
    assert_eq!(reg(&e, D), 5);
    assert_eq!(e.finish_open(D, -1), Err(EmulationError::OtherError));
    assert_eq!(e.finish_open(D, 256), Err(EmulationError::OtherError));
    assert_eq!(reg(&e, D), 5);
}

#[test]
fn unknown_syscall() {
    let mut e = machine(&[]);
    assert_eq!(
        e.interpret_instruction(Instruction::Sys { num: 0x9, dst: D }).unwrap_err(),
        EmulationError::InvalidSyscall { syscall: 0x9 }
    );
}
