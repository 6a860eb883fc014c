use vmemu::arch::{Instruction, InstructionDecodeIndices, InstructionOpcodes, Registers};

fn opcodes() -> InstructionOpcodes {
    InstructionOpcodes {
        imm: 0x20,
        add: 0x80,
        stk: 0x4,
        stm: 0x10,
        ldm: 0x8,
        cmp: 0x2,
        jmp: 0x40,
        sys: 0x1,
    }
}

fn registers() -> Registers {
    Registers { a: 0x20, b: 0x4, c: 0x10, d: 0x40, s: 0x1, i: 0x2, f: 0x8, none: 0 }
}

#[test]
fn decode_default_order() {
    let idx = InstructionDecodeIndices { opcode: 0, left_param: 1, right_param: 2 };
    assert_eq!(
        Instruction::from_bytes(&[0x1, 4, 0x40], idx, opcodes()),
        Some(Instruction::Sys { num: 4, dst: 0x40 })
    );
    assert_eq!(
        Instruction::from_bytes(&[0x40, 0x3, 0x20], idx, opcodes()),
        Some(Instruction::Jmp { flags: 0x3, dst: 0x20 })
    );
    assert_eq!(
        Instruction::from_bytes(&[0x4, 0x20, 0x4], idx, opcodes()),
        Some(Instruction::Stk { pop: 0x20, push: 0x4 })
    );
    assert_eq!(Instruction::from_bytes(&[0x3, 0, 0], idx, opcodes()), None);
    assert_eq!(Instruction::from_bytes(&[0x1, 0], idx, opcodes()), None);
}

#[test]
fn decode_permuted_bytes_and_order_agree() {
    let bytes = [0x80u8, 0x20, 0x4];
    let idx = InstructionDecodeIndices { opcode: 0, left_param: 1, right_param: 2 };
    // byte k moves to position perm[k]
    let perm = [2usize, 0, 1];
    let mut moved = [0u8; 3];
    for k in 0..3 {
        moved[perm[k]] = bytes[k];
    }
    let moved_idx = InstructionDecodeIndices {
        opcode: perm[idx.opcode],
        left_param: perm[idx.left_param],
        right_param: perm[idx.right_param],
    };
    let a = Instruction::from_bytes(&bytes, idx, opcodes());
    let b = Instruction::from_bytes(&moved, moved_idx, opcodes());
    assert_eq!(a, Some(Instruction::Add { dst: 0x20, src: 0x4 }));
    assert_eq!(a, b);
}

#[test]
fn register_names() {
    let r = registers();
    assert_eq!(r.reg_byte_to_str(0x20), "a");
    assert_eq!(r.reg_byte_to_str(0x8), "f");
    assert_eq!(r.reg_byte_to_str(0), "NONE");
    assert_eq!(r.reg_byte_to_str(0x3), "Unknown");
    assert_eq!(r.reg_str_to_byte("d"), Some(0x40));
    assert_eq!(r.reg_str_to_byte("NONE"), Some(0));
    assert_eq!(r.reg_str_to_byte("A"), None);
    assert_eq!(r.reg_str_to_byte("ab"), None);
}

#[test]
fn register_addresses() {
    let r = registers();
    assert_eq!(r.reg_to_mem_location(0x20), Some(0x400));
    assert_eq!(r.reg_to_mem_location(0x1), Some(0x404));
    assert_eq!(r.reg_to_mem_location(0x8), Some(0x406));
    assert_eq!(r.reg_to_mem_location(0), Some(0xffff));
    assert_eq!(r.reg_to_mem_location(0x3), None);
}
