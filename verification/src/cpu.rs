//! The processor core: registers, flags, program counter, and the
//! fetch-decode-execute cycle.
//!
//! The core never touches memory itself. It says which cell it wants to read
//! next ([`CPU::awaits`]), takes the byte that the cell holds ([`CPU::step`]),
//! and hands back the write, if any, that the instruction asks for. Whoever
//! owns the memory runs the loop:
//!
//! 1. ask `awaits()`; stop when it is `None`;
//! 2. read that cell;
//! 3. call `step` with the byte, and perform the write it returns.
//!
//! The program counter only ever goes up. A fetch at the last address of the
//! sixteen-bit address space is refused rather than wrapped, so every run
//! ends: by a halt, by a fault, or at the top of the address space.

use vstd::prelude::*;
use vstd::string::*;
use crate::isa::{
    decode, decoded, decoded_by_opcode, is_supported, opcode_of, operand_of, split, Fault,
    Instruction, Register,
};

verus! {

/// Bit of the status word that holds the zero flag.
pub const ZF: u8 = 0x80;

/// Bit of the status word that holds the negative flag.
pub const NF: u8 = 0x40;

/// Bit of the status word that holds the carry flag.
pub const CF: u8 = 0x20;

/// Bit of the status word that holds the signed-overflow flag.
pub const VF: u8 = 0x10;

/// The four condition flags.
#[derive(Clone, Copy, Debug, PartialEq, Eq, Structural)]
pub struct Flags {
    /// Zero: the last sum was zero.
    pub z: bool,
    /// Negative: the last sum had its top bit set.
    pub n: bool,
    /// Carry: the last sum did not fit in eight bits.
    pub c: bool,
    /// Overflow: the last sum, read as signed, did not fit in eight bits.
    pub v: bool,
}

/// What the core is waiting for.
#[derive(Clone, Copy, Debug, PartialEq, Eq, Structural)]
pub enum Phase {
    /// The next instruction byte, at the program counter.
    Fetch,
    /// The immediate byte of a load, at the program counter, bound for `dst`.
    Immediate { dst: Register },
    /// The cell at `address`, bound for `dst`.
    Load { dst: Register, address: u16 },
}

/// A write to memory that an instruction asks for.
#[derive(Clone, Copy, Debug, PartialEq, Eq, Structural)]
pub struct MemoryWrite {
    pub address: u16,
    pub value: u8,
}

/// The whole state of the processor.
#[derive(Clone, Copy, Debug, PartialEq, Eq, Structural)]
pub struct CPU {
    /// Program counter: the address of the next byte of the program.
    pub pc: u16,
    pub r0: u8,
    pub r1: u8,
    pub r2: u8,
    pub r3: u8,
    /// Stack pointer. No instruction uses it yet.
    pub sp: u16,
    pub flags: Flags,
    /// Set by the halt instruction, and never cleared.
    pub halted: bool,
    /// The byte fetched last.
    pub instr: u8,
    /// High nibble of the instruction executed last.
    pub opcode: u8,
    /// Low nibble of the instruction executed last.
    pub arg: u8,
    pub phase: Phase,
}

/// One for a set carry, zero for a clear one.
pub open spec fn carry_value(carry: bool) -> int {
    if carry {
        1
    } else {
        0
    }
}

/// The sum of two bytes and a carry, as a number: it may exceed a byte.
pub open spec fn wide_sum(a: u8, b: u8, carry: bool) -> int {
    a + b + carry_value(carry)
}

/// A byte read as a two's-complement number, from -128 to 127.
pub open spec fn signed(x: u8) -> int {
    if x < 128 {
        x as int
    } else {
        x - 256
    }
}

/// The byte that an addition leaves: the sum modulo 256.
pub open spec fn sum_byte(a: u8, b: u8, carry: bool) -> u8 {
    (wide_sum(a, b, carry) % 256) as u8
}

/// The flags that an addition leaves.
///
/// Carry tells that the unsigned sum left the range of a byte, overflow that
/// the signed sum did.
pub open spec fn sum_flags(a: u8, b: u8, carry: bool) -> Flags {
    let signed_sum = signed(a) + signed(b) + carry_value(carry);
    Flags {
        z: sum_byte(a, b, carry) == 0,
        n: sum_byte(a, b, carry) >= 128,
        c: wide_sum(a, b, carry) > 255,
        v: signed_sum < -128 || signed_sum > 127,
    }
}

/// The address that a register pair forms: the high register shifted left by
/// four bits, or-ed with the low register.
pub open spec fn indirect_address(high: u8, low: u8) -> u16 {
    ((high as u16) << 4) | (low as u16)
}

impl Flags {
    /// The status word: Z in bit 7, N in bit 6, C in bit 5, V in bit 4, the
    /// low nibble clear.
    pub open spec fn word(self) -> u8 {
        ((if self.z {
            128int
        } else {
            0
        }) + (if self.n {
            64int
        } else {
            0
        }) + (if self.c {
            32int
        } else {
            0
        }) + (if self.v {
            16int
        } else {
            0
        })) as u8
    }

    /// The flags that a status word holds in its four high bits.
    pub open spec fn of_word(sr: u8) -> Flags {
        Flags {
            z: sr as int / 128 % 2 == 1,
            n: sr as int / 64 % 2 == 1,
            c: sr as int / 32 % 2 == 1,
            v: sr as int / 16 % 2 == 1,
        }
    }

    /// The four-character mask: the letter of each set flag, a dash for each
    /// clear one.
    pub open spec fn mask(self) -> Seq<char> {
        seq![
            if self.z {
                'Z'
            } else {
                '-'
            },
            if self.n {
                'N'
            } else {
                '-'
            },
            if self.c {
                'C'
            } else {
                '-'
            },
            if self.v {
                'V'
            } else {
                '-'
            },
        ]
    }
}

/// Saving the flags in a status word and restoring them gives the same flags.
pub proof fn status_word_restores_flags(flags: Flags)
    ensures
        Flags::of_word(flags.word()) == flags,
{
}

/// Restoring flags from a byte and saving them keeps the high nibble of the
/// byte and clears the low one.
pub proof fn status_word_keeps_high_nibble(sr: u8)
    ensures
        Flags::of_word(sr).word() == sr - sr % 16,
{
}

/// The overflow flag is set exactly when both operands have the same sign and
/// the result has the other one.
pub proof fn overflow_is_sign_change(a: u8, b: u8, carry: bool)
    ensures
        sum_flags(a, b, carry).v <==> ((a >= 128) == (b >= 128) && (sum_byte(a, b, carry) >= 128)
            != (a >= 128)),
{
}

/// A register pair reaches only the first 4096 cells.
pub proof fn indirect_address_is_twelve_bits(high: u8, low: u8)
    ensures
        indirect_address(high, low) < 0x1000,
{
    assert((((high as u16) << 4) | (low as u16)) < 0x1000) by (bit_vector);
}

impl CPU {
    /// The state at power-on: everything zero, nothing halted, waiting for the
    /// instruction at address zero.
    pub open spec fn initial() -> CPU {
        CPU {
            pc: 0,
            r0: 0,
            r1: 0,
            r2: 0,
            r3: 0,
            sp: 0,
            flags: Flags { z: false, n: false, c: false, v: false },
            halted: false,
            instr: 0,
            opcode: 0,
            arg: 0,
            phase: Phase::Fetch,
        }
    }

    /// The value of a register.
    pub open spec fn reg(self, r: Register) -> u8 {
        match r {
            Register::R0 => self.r0,
            Register::R1 => self.r1,
            Register::R2 => self.r2,
            Register::R3 => self.r3,
        }
    }

    /// This state with one register replaced.
    pub open spec fn with_reg(self, r: Register, value: u8) -> CPU {
        match r {
            Register::R0 => CPU { r0: value, ..self },
            Register::R1 => CPU { r1: value, ..self },
            Register::R2 => CPU { r2: value, ..self },
            Register::R3 => CPU { r3: value, ..self },
        }
    }

    /// This state after a fetch of `byte`: the byte is the pending
    /// instruction and the program counter is one higher.
    pub open spec fn fetched(self, byte: u8) -> CPU
        recommends
            self.pc < 0xFFFF,
    {
        CPU { instr: byte, pc: (self.pc + 1) as u16, ..self }
    }

    /// This state after the instruction `i`, and the write that `i` asks for.
    pub open spec fn applied(self, i: Instruction) -> (CPU, Option<MemoryWrite>) {
        match i {
            Instruction::Nop | Instruction::Reserved => (self, None),
            Instruction::LoadImmediate { dst } => (
                CPU { phase: Phase::Immediate { dst }, ..self },
                None,
            ),
            Instruction::LoadIndirect { dst, high, low } => (
                CPU {
                    phase: Phase::Load {
                        dst,
                        address: indirect_address(self.reg(high), self.reg(low)),
                    },
                    ..self
                },
                None,
            ),
            Instruction::StoreIndirect { src, high, low } => (
                self,
                Some(
                    MemoryWrite {
                        address: indirect_address(self.reg(high), self.reg(low)),
                        value: self.reg(src),
                    },
                ),
            ),
            Instruction::Add { dst, src } => (
                CPU {
                    flags: sum_flags(self.reg(dst), self.reg(src), false),
                    ..self.with_reg(dst, sum_byte(self.reg(dst), self.reg(src), false))
                },
                None,
            ),
            Instruction::AddWithCarry { dst, src } => (
                CPU {
                    flags: sum_flags(self.reg(dst), self.reg(src), self.flags.c),
                    ..self.with_reg(dst, sum_byte(self.reg(dst), self.reg(src), self.flags.c))
                },
                None,
            ),
            Instruction::Move { dst, src } => (self.with_reg(dst, self.reg(src)), None),
            Instruction::Halt => (CPU { halted: true, ..self }, None),
        }
    }

    /// This state after the pending instruction is decoded and executed, and
    /// what the execution returns. A byte that does not decode changes nothing
    /// but the recorded opcode and operand.
    pub open spec fn executed(self) -> (CPU, Result<Option<MemoryWrite>, Fault>) {
        let split = CPU { opcode: opcode_of(self.instr), arg: operand_of(self.instr), ..self };
        match decoded(self.instr) {
            Ok(i) => (split.applied(i).0, Ok(split.applied(i).1)),
            Err(fault) => (split, Err(fault)),
        }
    }

    /// The address of the cell that the core wants to read next; `None` once
    /// it has halted.
    pub open spec fn awaited(self) -> Option<u16> {
        if self.halted {
            None
        } else {
            match self.phase {
                Phase::Fetch | Phase::Immediate { .. } => Some(self.pc),
                Phase::Load { address, .. } => Some(address),
            }
        }
    }

    /// A bound on the steps that a running core can still take: three for
    /// each address above the program counter, and one more while a load is
    /// pending.
    pub open spec fn steps_left(self) -> nat {
        (3 * (0xFFFF - self.pc) + match self.phase {
            Phase::Fetch => 0int,
            _ => 1int,
        }) as nat
    }

    /// This state after the awaited byte has arrived, and what the step
    /// returns.
    pub open spec fn stepped(self, byte: u8) -> (CPU, Result<Option<MemoryWrite>, Fault>) {
        if self.halted {
            (self, Ok(None))
        } else {
            match self.phase {
                Phase::Fetch => if self.pc == 0xFFFF {
                    (self, Err(Fault::ProgramCounterOutOfRange))
                } else {
                    self.fetched(byte).executed()
                },
                Phase::Immediate { dst } => if self.pc == 0xFFFF {
                    (self, Err(Fault::ProgramCounterOutOfRange))
                } else {
                    (CPU { phase: Phase::Fetch, ..self.fetched(byte).with_reg(dst, byte) }, Ok(None))
                },
                Phase::Load { dst, .. } => (
                    CPU { phase: Phase::Fetch, ..self.with_reg(dst, byte) },
                    Ok(None),
                ),
            }
        }
    }

    /// No instruction moves the program counter or replaces the pending
    /// byte; only halt sets the halted flag, and only the two additions touch
    /// the flags.
    pub proof fn applied_keeps(self, i: Instruction)
        ensures
            self.applied(i).0.pc == self.pc,
            self.applied(i).0.instr == self.instr,
            self.applied(i).0.opcode == self.opcode,
            self.applied(i).0.arg == self.arg,
            self.applied(i).0.sp == self.sp,
            self.applied(i).0.halted <==> self.halted || i == Instruction::Halt,
            !(i is Add || i is AddWithCarry) ==> self.applied(i).0.flags == self.flags,
            i == Instruction::Halt ==> self.applied(i).1 is None,
            self.applied(i).1 is Some <==> i is StoreIndirect,
    {
    }

    /// A processor at power-on.
    pub fn new() -> (cpu: CPU)
        ensures
            cpu == CPU::initial(),
    {
        CPU {
            pc: 0x0000,
            r0: 0x00,
            r1: 0x00,
            r2: 0x00,
            r3: 0x00,
            sp: 0x0000,
            flags: Flags { z: false, n: false, c: false, v: false },
            halted: false,
            instr: 0x00,
            opcode: 0x00,
            arg: 0x00,
            phase: Phase::Fetch,
        }
    }

    /// Reads a register.
    pub fn get(&self, r: Register) -> (value: u8)
        ensures
            value == self.reg(r),
    {
        match r {
            Register::R0 => self.r0,
            Register::R1 => self.r1,
            Register::R2 => self.r2,
            Register::R3 => self.r3,
        }
    }

    /// Writes a register and leaves everything else as it was.
    pub fn set(&mut self, r: Register, value: u8)
        ensures
            *final(self) == old(self).with_reg(r, value),
    {
        match r {
            Register::R0 => self.r0 = value,
            Register::R1 => self.r1 = value,
            Register::R2 => self.r2 = value,
            Register::R3 => self.r3 = value,
        }
    }

    /// Packs the flags into a status word: Z in bit 7, N in bit 6, C in bit 5,
    /// V in bit 4.
    pub fn sr(&self) -> (sr: u8)
        ensures
            sr == self.flags.word(),
    {
        let mut sr: u8 = 0;
        if self.flags.z {
            sr = sr | ZF
        }
        let ghost with_z: u8 = sr;
        if self.flags.n {
            sr = sr | NF
        }
        let ghost with_n: u8 = sr;
        if self.flags.c {
            sr = sr | CF
        }
        let ghost with_c: u8 = sr;
        if self.flags.v {
            sr = sr | VF
        }
        assert(0u8 | 0x80 == 0x80) by (bit_vector);
        assert(with_z % 0x80 == 0 ==> (with_z | 0x40) == with_z + 0x40) by (bit_vector);
        assert(with_n % 0x40 == 0 ==> (with_n | 0x20) == with_n + 0x20) by (bit_vector);
        assert(with_c % 0x20 == 0 ==> (with_c | 0x10) == with_c + 0x10) by (bit_vector);
        sr
    }

    /// Restores the flags from the four high bits of a status word. Nothing
    /// else changes.
    pub fn set_rs(&mut self, sr: u8)
        ensures
            *final(self) == (CPU { flags: Flags::of_word(sr), ..*old(self) }),
    {
        assert(((sr & 0x80) != 0) == (sr / 128 % 2 == 1)) by (bit_vector);
        assert(((sr & 0x40) != 0) == (sr / 64 % 2 == 1)) by (bit_vector);
        assert(((sr & 0x20) != 0) == (sr / 32 % 2 == 1)) by (bit_vector);
        assert(((sr & 0x10) != 0) == (sr / 16 % 2 == 1)) by (bit_vector);
        self.flags.z = (sr & ZF) != 0;
        self.flags.n = (sr & NF) != 0;
        self.flags.c = (sr & CF) != 0;
        self.flags.v = (sr & VF) != 0;
    }

    /// The flags as four characters, `Z`, `N`, `C`, `V` in that order, with a
    /// dash in place of each clear flag.
    pub fn flags_str(&self) -> (text: String)
        ensures
            text@ == self.flags.mask(),
    {
        proof {
            reveal_strlit("Z");
            reveal_strlit("N");
            reveal_strlit("C");
            reveal_strlit("V");
            reveal_strlit("-");
        }
        let mut text = String::from_str(
            if self.flags.z {
                "Z"
            } else {
                "-"
            },
        );
        text.append(
            if self.flags.n {
                "N"
            } else {
                "-"
            },
        );
        text.append(
            if self.flags.c {
                "C"
            } else {
                "-"
            },
        );
        text.append(
            if self.flags.v {
                "V"
            } else {
                "-"
            },
        );
        assert(text@ =~= self.flags.mask());
        text
    }

    /// Moves the program counter up by one. At the top of the address space
    /// it stays where it is and the fault is reported.
    pub fn incpc(&mut self) -> (r: Result<(), Fault>)
        ensures
            old(self).pc < 0xFFFF ==> r is Ok && *final(self) == (CPU {
                pc: (old(self).pc + 1) as u16,
                ..*old(self)
            }),
            old(self).pc == 0xFFFF ==> r == Err::<(), Fault>(Fault::ProgramCounterOutOfRange)
                && *final(self) == *old(self),
    {
        if self.pc == 0xFFFF {
            return Err(Fault::ProgramCounterOutOfRange);
        }
        self.pc += 1;
        Ok(())
    }

    /// Moves the program counter down by one. At address zero it stays where
    /// it is and the fault is reported. No instruction does this.
    pub fn decpc(&mut self) -> (r: Result<(), Fault>)
        ensures
            old(self).pc > 0 ==> r is Ok && *final(self) == (CPU {
                pc: (old(self).pc - 1) as u16,
                ..*old(self)
            }),
            old(self).pc == 0 ==> r == Err::<(), Fault>(Fault::ProgramCounterOutOfRange)
                && *final(self) == *old(self),
    {
        if self.pc == 0 {
            return Err(Fault::ProgramCounterOutOfRange);
        }
        self.pc -= 1;
        Ok(())
    }

    /// Takes `byte`, the content of the cell at the program counter, as the
    /// pending instruction and moves the program counter up by one.
    ///
    /// At the last address the fetch is refused and nothing changes.
    pub fn fetch(&mut self, byte: u8) -> (r: Result<(), Fault>)
        ensures
            old(self).pc < 0xFFFF ==> r is Ok && *final(self) == old(self).fetched(byte),
            old(self).pc == 0xFFFF ==> r == Err::<(), Fault>(Fault::ProgramCounterOutOfRange)
                && *final(self) == *old(self),
            r is Ok ==> final(self).instr == byte && final(self).pc == old(self).pc + 1,
    {
        if self.pc == 0xFFFF {
            return Err(Fault::ProgramCounterOutOfRange);
        }
        self.instr = byte;
        self.incpc()
    }

    /// Adds two bytes and a carry, sets all four flags from the sum, and
    /// returns the low eight bits.
    fn alu_sum(&mut self, a: u8, b: u8, carry: bool) -> (r: u8)
        ensures
            r == sum_byte(a, b, carry),
            *final(self) == (CPU { flags: sum_flags(a, b, carry), ..*old(self) }),
    {
        let c: u16 = if carry {
            1
        } else {
            0
        };
        let tmp: u16 = a as u16 + b as u16 + c;
        let r: u8 = (tmp & 0xFF) as u8;
        assert(tmp & 0xFF == tmp % 256) by (bit_vector);
        assert(((r & 0x80) != 0) == (r >= 128)) by (bit_vector);
        assert(((!(a ^ b) & (a ^ r) & 0x80) != 0) == ((a >= 128) == (b >= 128) && (r >= 128) != (a
            >= 128))) by (bit_vector);
        self.flags.z = r == 0;
        self.flags.n = (r & 0x80) != 0;
        self.flags.c = tmp > 0xFF;
        self.flags.v = (!(a ^ b) & (a ^ r) & 0x80) != 0;
        r
    }

    /// Adds two bytes: returns the sum modulo 256 and sets all four flags
    /// from it. Nothing else changes.
    pub fn alu_add(&mut self, a: u8, b: u8) -> (r: u8)
        ensures
            r == sum_byte(a, b, false),
            r as int == (a + b) % 256,
            *final(self) == (CPU { flags: sum_flags(a, b, false), ..*old(self) }),
    {
        self.alu_sum(a, b, false)
    }

    /// Adds two bytes and the carry flag as it stands: returns the sum modulo
    /// 256 and sets all four flags from it. Nothing else changes.
    pub fn alu_adc(&mut self, a: u8, b: u8) -> (r: u8)
        ensures
            r == sum_byte(a, b, old(self).flags.c),
            r as int == (a + b + carry_value(old(self).flags.c)) % 256,
            *final(self) == (CPU { flags: sum_flags(a, b, old(self).flags.c), ..*old(self) }),
    {
        let carry = self.flags.c;
        self.alu_sum(a, b, carry)
    }

    /// The address that the pair `high`, `low` forms.
    fn pair_address(&self, high: Register, low: Register) -> (address: u16)
        ensures
            address == indirect_address(self.reg(high), self.reg(low)),
    {
        (self.get(high) as u16) << 4 | self.get(low) as u16
    }

    /// Carries out one decoded instruction.
    ///
    /// Arithmetic and moves change registers and flags at once; a load sets
    /// the phase, so that the next byte handed to [`CPU::step`] reaches its
    /// register; a store returns the write for the owner of the memory to
    /// perform; halt sets the halted flag.
    pub fn apply(&mut self, instruction: Instruction) -> (write: Option<MemoryWrite>)
        ensures
            *final(self) == old(self).applied(instruction).0,
            write == old(self).applied(instruction).1,
    {
        match instruction {
            Instruction::Nop | Instruction::Reserved => None,
            Instruction::LoadImmediate { dst } => {
                self.phase = Phase::Immediate { dst };
                None
            },
            Instruction::LoadIndirect { dst, high, low } => {
                let address = self.pair_address(high, low);
                self.phase = Phase::Load { dst, address };
                None
            },
            Instruction::StoreIndirect { src, high, low } => {
                let address = self.pair_address(high, low);
                Some(MemoryWrite { address, value: self.get(src) })
            },
            Instruction::Add { dst, src } => {
                let sum = self.alu_add(self.get(dst), self.get(src));
                self.set(dst, sum);
                None
            },
            Instruction::AddWithCarry { dst, src } => {
                let sum = self.alu_adc(self.get(dst), self.get(src));
                self.set(dst, sum);
                None
            },
            Instruction::Move { dst, src } => {
                let value = self.get(src);
                self.set(dst, value);
                None
            },
            Instruction::Halt => {
                self.halted = true;
                None
            },
        }
    }

    /// Decodes the pending instruction and executes it.
    ///
    /// The opcode and operand of the pending byte are recorded. A byte outside
    /// the instruction table is refused with the fault that says why, and
    /// nothing else changes. Otherwise the instruction takes effect as
    /// [`CPU::apply`] says.
    ///
    /// The program counter stays, a halt is never undone, and only the two
    /// additions touch the flags.
    pub fn execute(&mut self) -> (r: Result<Option<MemoryWrite>, Fault>)
        ensures
            *final(self) == old(self).executed().0,
            r == old(self).executed().1,
            r is Ok <==> is_supported(old(self).instr),
            final(self).pc == old(self).pc,
            final(self).instr == old(self).instr,
            final(self).halted <==> old(self).halted || opcode_of(old(self).instr) == 0xF,
            opcode_of(old(self).instr) == 0xF ==> r == Ok::<Option<MemoryWrite>, Fault>(None),
            opcode_of(old(self).instr) != 0x4 ==> final(self).flags == old(self).flags,
            r is Err ==> *final(self) == (CPU {
                opcode: opcode_of(old(self).instr),
                arg: operand_of(old(self).instr),
                ..*old(self)
            }),
    {
        proof {
            decoded_by_opcode(self.instr);
        }
        let (opcode, arg) = split(self.instr);
        self.opcode = opcode;
        self.arg = arg;
        match decode(self.instr) {
            Ok(instruction) => {
                proof {
                    self.applied_keeps(instruction);
                }
                Ok(self.apply(instruction))
            },
            Err(fault) => Err(fault),
        }
    }

    /// The address of the cell whose content the next [`CPU::step`] takes:
    /// the program counter, or the address of a pending load. `None` exactly
    /// when the processor has halted.
    pub fn awaits(&self) -> (address: Option<u16>)
        ensures
            address == self.awaited(),
            address is None <==> self.halted,
    {
        if self.halted {
            None
        } else {
            match self.phase {
                Phase::Fetch | Phase::Immediate { .. } => Some(self.pc),
                Phase::Load { address, .. } => Some(address),
            }
        }
    }

    /// Takes `byte`, the content of the awaited cell, and goes on until the
    /// next read is due.
    ///
    /// Waiting for an instruction, the core fetches `byte` and executes it.
    /// Waiting for an immediate, it fetches `byte` and puts it in the
    /// register of the load. Waiting for a cell, it puts `byte` in the
    /// register of the load. The write that a store asks for is returned, to
    /// be performed before the next read.
    ///
    /// A halted processor ignores the byte: no state leaves the halt. The
    /// program counter never goes down and goes up by one at most, a halt is
    /// never undone, and the flags change only when an addition is executed.
    pub fn step(&mut self, byte: u8) -> (r: Result<Option<MemoryWrite>, Fault>)
        ensures
            *final(self) == old(self).stepped(byte).0,
            r == old(self).stepped(byte).1,
            old(self).halted ==> *final(self) == *old(self) && r == Ok::<
                Option<MemoryWrite>,
                Fault,
            >(None),
            old(self).pc <= final(self).pc <= old(self).pc + 1,
            final(self).halted <==> old(self).halted || (r is Ok && old(self).phase == Phase::Fetch
                && opcode_of(byte) == 0xF),
            final(self).flags != old(self).flags ==> old(self).phase == Phase::Fetch && opcode_of(
                byte,
            ) == 0x4,
            r is Err ==> !old(self).halted && (old(self).phase == Phase::Fetch || old(self).pc
                == 0xFFFF),
            r is Ok && !old(self).halted ==> final(self).steps_left() < old(self).steps_left(),
    {
        if self.halted {
            return Ok(None);
        }
        match self.phase {
            Phase::Fetch => {
                match self.fetch(byte) {
                    Ok(()) => self.execute(),
                    Err(fault) => Err(fault),
                }
            },
            Phase::Immediate { dst } => {
                match self.fetch(byte) {
                    Ok(()) => {
                        let value = self.instr;
                        self.set(dst, value);
                        self.phase = Phase::Fetch;
                        Ok(None)
                    },
                    Err(fault) => Err(fault),
                }
            },
            Phase::Load { dst, .. } => {
                self.set(dst, byte);
                self.phase = Phase::Fetch;
                Ok(None)
            },
        }
    }
}

/// The halt instruction, whatever its operand, stops the core for good: the
/// program counter rests just behind the halt, no further read is awaited,
/// and a byte offered all the same changes nothing.
pub proof fn halt_is_final(cpu: CPU, operand: u8, later: u8)
    requires
        !cpu.halted,
        cpu.phase == Phase::Fetch,
        cpu.pc < 0xFFFF,
        operand < 16,
    ensures
        ({
            let instr = (0xF0 + operand) as u8;
            let (halted, outcome) = cpu.stepped(instr);
            &&& outcome == Ok::<Option<MemoryWrite>, Fault>(None)
            &&& halted.halted
            &&& halted.pc == cpu.pc + 1
            &&& halted.awaited() is None
            &&& halted.stepped(later) == (halted, Ok::<Option<MemoryWrite>, Fault>(None))
        }),
{
    decoded_by_opcode((0xF0 + operand) as u8);
}

/// A byte outside the instruction table is never executed: the step fails
/// with the fault of the decoder, and registers, flags, halt state and phase
/// stay as they were.
pub proof fn unsupported_byte_faults(cpu: CPU, instr: u8)
    requires
        !cpu.halted,
        cpu.phase == Phase::Fetch,
        cpu.pc < 0xFFFF,
        !is_supported(instr),
    ensures
        ({
            let (after, outcome) = cpu.stepped(instr);
            &&& outcome is Err
            &&& outcome == Err::<Option<MemoryWrite>, Fault>(decoded(instr)->Err_0)
            &&& after == CPU {
                pc: (cpu.pc + 1) as u16,
                instr,
                opcode: opcode_of(instr),
                arg: operand_of(instr),
                ..cpu
            }
        }),
{
    decoded_by_opcode(instr);
}

/// A load of an immediate takes two reads, both at the program counter: the
/// instruction, then the byte that ends up in the register.
pub proof fn load_immediate_completes(cpu: CPU, instr: u8, dst: Register, immediate: u8)
    requires
        !cpu.halted,
        cpu.phase == Phase::Fetch,
        cpu.pc < 0xFFFE,
        decoded(instr) == Ok::<Instruction, Fault>(Instruction::LoadImmediate { dst }),
    ensures
        ({
            let (asked, first) = cpu.stepped(instr);
            let (done, second) = asked.stepped(immediate);
            &&& first == Ok::<Option<MemoryWrite>, Fault>(None)
            &&& asked.awaited() == Some((cpu.pc + 1) as u16)
            &&& second == Ok::<Option<MemoryWrite>, Fault>(None)
            &&& done == CPU {
                pc: (cpu.pc + 2) as u16,
                instr: immediate,
                opcode: opcode_of(instr),
                arg: operand_of(instr),
                ..cpu.with_reg(dst, immediate)
            }
        }),
{
}

/// A load through a register pair takes two reads: the instruction at the
/// program counter, then the cell that the pair points at, whose byte ends
/// up in the register.
pub proof fn load_indirect_completes(
    cpu: CPU,
    instr: u8,
    dst: Register,
    high: Register,
    low: Register,
    cell: u8,
)
    requires
        !cpu.halted,
        cpu.phase == Phase::Fetch,
        cpu.pc < 0xFFFF,
        decoded(instr) == Ok::<Instruction, Fault>(Instruction::LoadIndirect { dst, high, low }),
    ensures
        ({
            let (asked, first) = cpu.stepped(instr);
            let (done, second) = asked.stepped(cell);
            &&& first == Ok::<Option<MemoryWrite>, Fault>(None)
            &&& asked.awaited() == Some(indirect_address(cpu.reg(high), cpu.reg(low)))
            &&& second == Ok::<Option<MemoryWrite>, Fault>(None)
            &&& done == CPU {
                pc: (cpu.pc + 1) as u16,
                instr,
                opcode: opcode_of(instr),
                arg: operand_of(instr),
                ..cpu.with_reg(dst, cell)
            }
        }),
{
}

/// A store through a register pair takes one read and hands back one write:
/// the register, bound for the cell that the pair points at.
pub proof fn store_indirect_completes(
    cpu: CPU,
    instr: u8,
    src: Register,
    high: Register,
    low: Register,
)
    requires
        !cpu.halted,
        cpu.phase == Phase::Fetch,
        cpu.pc < 0xFFFF,
        decoded(instr) == Ok::<Instruction, Fault>(Instruction::StoreIndirect { src, high, low }),
    ensures
        ({
            let (done, outcome) = cpu.stepped(instr);
            &&& outcome == Ok::<Option<MemoryWrite>, Fault>(
                Some(
                    MemoryWrite {
                        address: indirect_address(cpu.reg(high), cpu.reg(low)),
                        value: cpu.reg(src),
                    },
                ),
            )
            &&& done == CPU {
                pc: (cpu.pc + 1) as u16,
                instr,
                opcode: opcode_of(instr),
                arg: operand_of(instr),
                ..cpu
            }
        }),
{
}

} // verus!
