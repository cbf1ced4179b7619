//! The instruction set: one byte per instruction, an opcode in the high
//! nibble and an operand in the low nibble.
//!
//! | Opcode | Operand | Meaning |
//! |---|---|---|
//! | `0` | any | no operation |
//! | `1` | `0`, `1` | load the next program byte into R0, R1 |
//! | `2` | `0`, `1` | load R0, R1 from the cell at `[R3 R2]` |
//! | `2` | `2`, `3` | load R2, R3 from the cell at `[R1 R0]` |
//! | `3` | `1` | store R0 to the cell at `[R3 R2]` |
//! | `3` | `2`, `3` | store R2, R3 to the cell at `[R1 R0]` |
//! | `4` | `0`, `1` | add R2 to R0, R3 to R1 |
//! | `4` | `2`, `3` | the same, plus the carry flag |
//! | `5`, `8` | any | reserved: nothing happens |
//! | `6` | `1`, `2`, `3` | copy R1, R2, R3 to R0 |
//! | `6` | `8`, `A`, `B` | copy R0, R2, R3 to R1 |
//! | `7` | `1`, `2`, `3` | copy R0 to R1, R2, R3 |
//! | `7` | `8`, `A`, `B` | copy R1 to R0, R2, R3 |
//! | `F` | any | halt |
//!
//! Every other byte is refused: nothing outside this table runs as a silent
//! no-operation.

use vstd::prelude::*;

verus! {

/// One of the four general-purpose registers.
#[derive(Clone, Copy, Debug, PartialEq, Eq, Structural)]
pub enum Register {
    R0,
    R1,
    R2,
    R3,
}

/// What one instruction byte asks of the processor.
#[derive(Clone, Copy, Debug, PartialEq, Eq, Structural)]
pub enum Instruction {
    /// Nothing changes.
    Nop,
    /// The next program byte goes into `dst`.
    LoadImmediate { dst: Register },
    /// The cell whose address the pair `high`, `low` forms goes into `dst`.
    LoadIndirect { dst: Register, high: Register, low: Register },
    /// `src` goes into the cell whose address the pair `high`, `low` forms.
    StoreIndirect { src: Register, high: Register, low: Register },
    /// `dst` becomes `dst + src`; all four flags are set from the sum.
    Add { dst: Register, src: Register },
    /// `dst` becomes `dst + src + carry`; all four flags are set from the sum.
    AddWithCarry { dst: Register, src: Register },
    /// A slot kept for later instructions. Nothing changes.
    Reserved,
    /// `dst` becomes `src`.
    Move { dst: Register, src: Register },
    /// The processor stops for good.
    Halt,
}

/// Why the processor refused to go on.
#[derive(Clone, Copy, Debug, PartialEq, Eq, Structural)]
pub enum Fault {
    /// The opcode of this instruction byte is not in the table.
    UnknownInstruction(u8),
    /// The opcode is in the table, but not with this operand.
    UnknownArgument(u8),
    /// The program counter would leave the sixteen-bit address space.
    ProgramCounterOutOfRange,
}

/// The high nibble of an instruction byte.
pub open spec fn opcode_of(instr: u8) -> u8 {
    instr / 16
}

/// The low nibble of an instruction byte.
pub open spec fn operand_of(instr: u8) -> u8 {
    instr % 16
}

/// The table of the instruction set: what each byte means, or why it is refused.
pub open spec fn decoded(instr: u8) -> Result<Instruction, Fault> {
    let arg = operand_of(instr);
    let unknown = Err::<Instruction, Fault>(Fault::UnknownArgument(arg));
    match opcode_of(instr) {
        0x0 => Ok(Instruction::Nop),
        0x1 => match arg {
            0x0 => Ok(Instruction::LoadImmediate { dst: Register::R0 }),
            0x1 => Ok(Instruction::LoadImmediate { dst: Register::R1 }),
            _ => unknown,
        },
        0x2 => match arg {
            0x0 => Ok(
                Instruction::LoadIndirect {
                    dst: Register::R0,
                    high: Register::R3,
                    low: Register::R2,
                },
            ),
            0x1 => Ok(
                Instruction::LoadIndirect {
                    dst: Register::R1,
                    high: Register::R3,
                    low: Register::R2,
                },
            ),
            0x2 => Ok(
                Instruction::LoadIndirect {
                    dst: Register::R2,
                    high: Register::R1,
                    low: Register::R0,
                },
            ),
            0x3 => Ok(
                Instruction::LoadIndirect {
                    dst: Register::R3,
                    high: Register::R1,
                    low: Register::R0,
                },
            ),
            _ => unknown,
        },
        0x3 => match arg {
            0x1 => Ok(
                Instruction::StoreIndirect {
                    src: Register::R0,
                    high: Register::R3,
                    low: Register::R2,
                },
            ),
            0x2 => Ok(
                Instruction::StoreIndirect {
                    src: Register::R2,
                    high: Register::R1,
                    low: Register::R0,
                },
            ),
            0x3 => Ok(
                Instruction::StoreIndirect {
                    src: Register::R3,
                    high: Register::R1,
                    low: Register::R0,
                },
            ),
            _ => unknown,
        },
        0x4 => match arg {
            0x0 => Ok(Instruction::Add { dst: Register::R0, src: Register::R2 }),
            0x1 => Ok(Instruction::Add { dst: Register::R1, src: Register::R3 }),
            0x2 => Ok(Instruction::AddWithCarry { dst: Register::R0, src: Register::R2 }),
            0x3 => Ok(Instruction::AddWithCarry { dst: Register::R1, src: Register::R3 }),
            _ => unknown,
        },
        0x5 => Ok(Instruction::Reserved),
        0x6 => match arg {
            0x1 => Ok(Instruction::Move { dst: Register::R0, src: Register::R1 }),
            0x2 => Ok(Instruction::Move { dst: Register::R0, src: Register::R2 }),
            0x3 => Ok(Instruction::Move { dst: Register::R0, src: Register::R3 }),
            0x8 => Ok(Instruction::Move { dst: Register::R1, src: Register::R0 }),
            0xA => Ok(Instruction::Move { dst: Register::R1, src: Register::R2 }),
            0xB => Ok(Instruction::Move { dst: Register::R1, src: Register::R3 }),
            _ => unknown,
        },
        0x7 => match arg {
            0x1 => Ok(Instruction::Move { dst: Register::R1, src: Register::R0 }),
            0x2 => Ok(Instruction::Move { dst: Register::R2, src: Register::R0 }),
            0x3 => Ok(Instruction::Move { dst: Register::R3, src: Register::R0 }),
            0x8 => Ok(Instruction::Move { dst: Register::R0, src: Register::R1 }),
            0xA => Ok(Instruction::Move { dst: Register::R2, src: Register::R1 }),
            0xB => Ok(Instruction::Move { dst: Register::R3, src: Register::R1 }),
            _ => unknown,
        },
        0x8 => Ok(Instruction::Reserved),
        0xF => Ok(Instruction::Halt),
        _ => Err(Fault::UnknownInstruction(instr)),
    }
}

/// True for the bytes that the table holds.
pub open spec fn is_supported(instr: u8) -> bool {
    let arg = operand_of(instr);
    match opcode_of(instr) {
        0x0 | 0x5 | 0x8 | 0xF => true,
        0x1 => arg <= 1,
        0x2 | 0x4 => arg <= 3,
        0x3 => 1 <= arg <= 3,
        0x6 | 0x7 => arg == 0x1 || arg == 0x2 || arg == 0x3 || arg == 0x8 || arg == 0xA || arg
            == 0xB,
        _ => false,
    }
}

/// The fault that a byte outside the table is refused with: its operand,
/// where the opcode is one of the table, and the whole byte where it is not.
pub open spec fn refusal(instr: u8) -> Fault {
    if opcode_of(instr) <= 8 {
        Fault::UnknownArgument(operand_of(instr))
    } else {
        Fault::UnknownInstruction(instr)
    }
}

/// What the opcode alone tells of a byte: it decodes exactly when the table
/// holds it, to a halt exactly under opcode `F`, and to an addition only
/// under opcode `4`; and a byte that does not decode is refused with its
/// refusal.
pub proof fn decoded_by_opcode(instr: u8)
    ensures
        decoded(instr) is Ok <==> is_supported(instr),
        decoded(instr) == Ok::<Instruction, Fault>(Instruction::Halt) <==> opcode_of(instr) == 0xF,
        (decoded(instr) matches Ok(i) && (i is Add || i is AddWithCarry)) ==> opcode_of(instr)
            == 0x4,
        decoded(instr) is Err ==> decoded(instr) == Err::<Instruction, Fault>(refusal(instr)),
{
}

/// Splits an instruction byte into opcode and operand.
pub fn split(instr: u8) -> (parts: (u8, u8))
    ensures
        parts.0 == opcode_of(instr),
        parts.1 == operand_of(instr),
        parts.0 < 16,
        parts.1 < 16,
{
    let opcode: u8 = instr >> 4;
    let arg: u8 = instr & 0x0F;
    assert(instr >> 4 == instr / 16 && instr & 0x0F == instr % 16 && instr / 16 < 16) by (bit_vector);
    (opcode, arg)
}

/// The register whose number the two low bits of `n` give.
pub open spec fn numbered(n: u8) -> Register {
    match n % 4 {
        0 => Register::R0,
        1 => Register::R1,
        2 => Register::R2,
        _ => Register::R3,
    }
}

/// The register that the two low bits of `n` select.
fn register(n: u8) -> (r: Register)
    ensures
        r == numbered(n),
{
    match n % 4 {
        0 => Register::R0,
        1 => Register::R1,
        2 => Register::R2,
        _ => Register::R3,
    }
}

/// Looks an instruction byte up in the table.
///
/// The byte decodes exactly when the table holds it. A byte whose opcode the
/// table lacks is refused as an unknown instruction and reported whole; a
/// byte whose opcode is there, but not with that operand, is refused as an
/// unknown argument and its operand is reported.
pub fn decode(instr: u8) -> (r: Result<Instruction, Fault>)
    ensures
        r == decoded(instr),
        r is Ok <==> is_supported(instr),
        r is Err ==> r == Err::<Instruction, Fault>(refusal(instr)),
{
    let (opcode, arg) = split(instr);
    let pair_high = if arg < 2 {
        Register::R3
    } else {
        Register::R1
    };
    let pair_low = if arg < 2 {
        Register::R2
    } else {
        Register::R0
    };
    let primary = if arg < 8 {
        Register::R0
    } else {
        Register::R1
    };
    let valid_move = arg == 0x1 || arg == 0x2 || arg == 0x3 || arg == 0x8 || arg == 0xA || arg
        == 0xB;
    let unknown: Result<Instruction, Fault> = Err(Fault::UnknownArgument(arg));
    match opcode {
        0x0 => Ok(Instruction::Nop),
        0x1 => if arg <= 1 {
            Ok(Instruction::LoadImmediate { dst: register(arg) })
        } else {
            unknown
        },
        0x2 => if arg <= 3 {
            Ok(Instruction::LoadIndirect { dst: register(arg), high: pair_high, low: pair_low })
        } else {
            unknown
        },
        0x3 => if arg == 1 {
            Ok(Instruction::StoreIndirect { src: Register::R0, high: pair_high, low: pair_low })
        } else if arg == 2 || arg == 3 {
            Ok(Instruction::StoreIndirect { src: register(arg), high: pair_high, low: pair_low })
        } else {
            unknown
        },
        0x4 => if arg <= 1 {
            Ok(Instruction::Add { dst: register(arg), src: register(arg + 2) })
        } else if arg <= 3 {
            Ok(Instruction::AddWithCarry { dst: register(arg - 2), src: register(arg) })
        } else {
            unknown
        },
        0x5 | 0x8 => Ok(Instruction::Reserved),
        0x6 => if valid_move {
            Ok(Instruction::Move { dst: primary, src: register(arg) })
        } else {
            unknown
        },
        0x7 => if valid_move {
            Ok(Instruction::Move { dst: register(arg), src: primary })
        } else {
            unknown
        },
        0xF => Ok(Instruction::Halt),
        _ => Err(Fault::UnknownInstruction(instr)),
    }
}

} // verus!
