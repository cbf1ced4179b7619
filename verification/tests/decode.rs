use tiny_cpu::isa::{decode, split, Fault, Instruction, Register};
use tiny_cpu::isa::Register::{R0, R1, R2, R3};

fn supported(byte: u8) -> bool {
    let arg = byte & 0x0F;
    match byte >> 4 {
        0x0 | 0x5 | 0x8 | 0xF => true,
        0x1 => matches!(arg, 0 | 1),
        0x2 | 0x4 => matches!(arg, 0 | 1 | 2 | 3),
        0x3 => matches!(arg, 1 | 2 | 3),
        0x6 | 0x7 => matches!(arg, 0x1 | 0x2 | 0x3 | 0x8 | 0xA | 0xB),
        _ => false,
    }
}

#[test]
fn split_gives_high_and_low_nibble() {
    assert_eq!(split(0x00), (0x0, 0x0));
    assert_eq!(split(0x1F), (0x1, 0xF));
    assert_eq!(split(0xA5), (0xA, 0x5));
    assert_eq!(split(0xFF), (0xF, 0xF));
}

#[test]
fn nop_decodes_for_every_operand() {
    for arg in 0..16u8 {
        assert_eq!(decode(arg), Ok(Instruction::Nop));
    }
}

#[test]
fn halt_decodes_for_every_operand() {
    for arg in 0..16u8 {
        assert_eq!(decode(0xF0 | arg), Ok(Instruction::Halt));
    }
}

#[test]
fn reserved_slots_decode_for_every_operand() {
    for arg in 0..16u8 {
        assert_eq!(decode(0x50 | arg), Ok(Instruction::Reserved));
        assert_eq!(decode(0x80 | arg), Ok(Instruction::Reserved));
    }
}

#[test]
fn load_immediate_selects_r0_or_r1() {
    assert_eq!(decode(0x10), Ok(Instruction::LoadImmediate { dst: R0 }));
    assert_eq!(decode(0x11), Ok(Instruction::LoadImmediate { dst: R1 }));
    assert_eq!(decode(0x12), Err(Fault::UnknownArgument(0x2)));
    assert_eq!(decode(0x1F), Err(Fault::UnknownArgument(0xF)));
}

#[test]
fn load_indirect_pairs_registers() {
    assert_eq!(decode(0x20), Ok(Instruction::LoadIndirect { dst: R0, high: R3, low: R2 }));
    assert_eq!(decode(0x21), Ok(Instruction::LoadIndirect { dst: R1, high: R3, low: R2 }));
    assert_eq!(decode(0x22), Ok(Instruction::LoadIndirect { dst: R2, high: R1, low: R0 }));
    assert_eq!(decode(0x23), Ok(Instruction::LoadIndirect { dst: R3, high: R1, low: R0 }));
    assert_eq!(decode(0x24), Err(Fault::UnknownArgument(0x4)));
}

#[test]
fn store_indirect_table() {
    assert_eq!(decode(0x30), Err(Fault::UnknownArgument(0x0)));
    assert_eq!(decode(0x31), Ok(Instruction::StoreIndirect { src: R0, high: R3, low: R2 }));
    assert_eq!(decode(0x32), Ok(Instruction::StoreIndirect { src: R2, high: R1, low: R0 }));
    assert_eq!(decode(0x33), Ok(Instruction::StoreIndirect { src: R3, high: R1, low: R0 }));
    assert_eq!(decode(0x34), Err(Fault::UnknownArgument(0x4)));
}

#[test]
fn alu_table() {
    assert_eq!(decode(0x40), Ok(Instruction::Add { dst: R0, src: R2 }));
    assert_eq!(decode(0x41), Ok(Instruction::Add { dst: R1, src: R3 }));
    assert_eq!(decode(0x42), Ok(Instruction::AddWithCarry { dst: R0, src: R2 }));
    assert_eq!(decode(0x43), Ok(Instruction::AddWithCarry { dst: R1, src: R3 }));
    for arg in 4..16u8 {
        assert_eq!(decode(0x40 | arg), Err(Fault::UnknownArgument(arg)));
    }
}

#[test]
fn move_into_primary_table() {
    let mv = |dst: Register, src: Register| Ok(Instruction::Move { dst, src });
    assert_eq!(decode(0x61), mv(R0, R1));
    assert_eq!(decode(0x62), mv(R0, R2));
    assert_eq!(decode(0x63), mv(R0, R3));
    assert_eq!(decode(0x68), mv(R1, R0));
    assert_eq!(decode(0x6A), mv(R1, R2));
    assert_eq!(decode(0x6B), mv(R1, R3));
    for arg in [0x0u8, 0x4, 0x5, 0x6, 0x7, 0x9, 0xC, 0xD, 0xE, 0xF] {
        assert_eq!(decode(0x60 | arg), Err(Fault::UnknownArgument(arg)));
    }
}

#[test]
fn move_from_primary_table() {
    let mv = |dst: Register, src: Register| Ok(Instruction::Move { dst, src });
    assert_eq!(decode(0x71), mv(R1, R0));
    assert_eq!(decode(0x72), mv(R2, R0));
    assert_eq!(decode(0x73), mv(R3, R0));
    assert_eq!(decode(0x78), mv(R0, R1));
    assert_eq!(decode(0x7A), mv(R2, R1));
    assert_eq!(decode(0x7B), mv(R3, R1));
    for arg in [0x0u8, 0x4, 0x5, 0x6, 0x7, 0x9, 0xC, 0xD, 0xE, 0xF] {
        assert_eq!(decode(0x70 | arg), Err(Fault::UnknownArgument(arg)));
    }
}

#[test]
fn unknown_opcodes_report_the_whole_byte() {
    for opcode in 0x9..=0xEu8 {
        for arg in 0..16u8 {
            let byte = opcode << 4 | arg;
            assert_eq!(decode(byte), Err(Fault::UnknownInstruction(byte)));
        }
    }
}

#[test]
fn every_byte_decodes_exactly_when_the_table_holds_it() {
    let mut good = 0;
    for byte in 0..=255u8 {
        assert_eq!(decode(byte).is_ok(), supported(byte), "byte {:02X}", byte);
        if supported(byte) {
            good += 1;
        }
    }
    assert_eq!(good, 4 * 16 + 2 + 4 + 3 + 4 + 6 + 6);
}

#[test]
fn no_refused_byte_is_a_silent_nop() {
    for byte in 0..=255u8 {
        if !supported(byte) {
            assert_ne!(decode(byte), Ok(Instruction::Nop));
            assert_ne!(decode(byte), Ok(Instruction::Reserved));
            assert!(decode(byte).is_err());
        }
    }
}
