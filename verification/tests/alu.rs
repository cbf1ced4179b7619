use tiny_cpu::cpu::{Flags, CF, CPU, NF, VF, ZF};

fn flags(z: bool, n: bool, c: bool, v: bool) -> Flags {
    Flags { z, n, c, v }
}

#[test]
fn add_ff_and_01_wraps_to_zero_with_carry() {
    let mut cpu = CPU::new();
    let r = cpu.alu_add(0xFF, 0x01);
    assert_eq!(r, 0x00);
    assert_eq!(cpu.flags, flags(true, false, true, false));
}

#[test]
fn add_7f_and_01_overflows_into_the_sign() {
    let mut cpu = CPU::new();
    let r = cpu.alu_add(0x7F, 0x01);
    assert_eq!(r, 0x80);
    assert_eq!(cpu.flags, flags(false, true, false, true));
}

#[test]
fn adc_of_zeros_with_carry_in_gives_one() {
    let mut cpu = CPU::new();
    cpu.flags.c = true;
    let r = cpu.alu_adc(0x00, 0x00);
    assert_eq!(r, 0x01);
    assert_eq!(cpu.flags, flags(false, false, false, false));
}

#[test]
fn adc_without_carry_in_is_add() {
    let mut a = CPU::new();
    let mut b = CPU::new();
    for x in [0u8, 1, 0x7F, 0x80, 0xFF] {
        for y in [0u8, 1, 0x7F, 0x80, 0xFF] {
            a.flags.c = false;
            assert_eq!(a.alu_adc(x, y), b.alu_add(x, y));
            assert_eq!(a.flags, b.flags);
        }
    }
}

#[test]
fn add_ignores_the_carry_flag() {
    let mut cpu = CPU::new();
    cpu.flags.c = true;
    assert_eq!(cpu.alu_add(0x01, 0x01), 0x02);
    assert_eq!(cpu.flags, flags(false, false, false, false));
}

#[test]
fn adc_carry_in_can_cause_carry_and_overflow() {
    let mut cpu = CPU::new();
    cpu.flags.c = true;
    assert_eq!(cpu.alu_adc(0xFF, 0x00), 0x00);
    assert_eq!(cpu.flags, flags(true, false, true, false));
    cpu.flags.c = true;
    assert_eq!(cpu.alu_adc(0x7F, 0x00), 0x80);
    assert_eq!(cpu.flags, flags(false, true, false, true));
    cpu.flags.c = true;
    assert_eq!(cpu.alu_adc(0x80, 0x80), 0x01);
    assert_eq!(cpu.flags, flags(false, false, true, true));
    cpu.flags.c = true;
    assert_eq!(cpu.alu_adc(0xFF, 0x80), 0x80);
    assert_eq!(cpu.flags, flags(false, true, true, false));
}

#[test]
fn add_two_negatives_overflows_to_positive() {
    let mut cpu = CPU::new();
    assert_eq!(cpu.alu_add(0x80, 0x80), 0x00);
    assert_eq!(cpu.flags, flags(true, false, true, true));
    assert_eq!(cpu.alu_add(0x80, 0xFF), 0x7F);
    assert_eq!(cpu.flags, flags(false, false, true, true));
}

#[test]
fn add_matches_the_wide_sum_for_every_pair() {
    let mut cpu = CPU::new();
    for a in 0..=255u8 {
        for b in 0..=255u8 {
            for carry in [false, true] {
                cpu.flags.c = carry;
                let r = cpu.alu_adc(a, b);
                let wide = a as u16 + b as u16 + carry as u16;
                let signed = (a as i8) as i16 + (b as i8) as i16 + carry as i16;
                assert_eq!(r, (wide & 0xFF) as u8);
                assert_eq!(cpu.flags.z, r == 0);
                assert_eq!(cpu.flags.n, r & 0x80 != 0);
                assert_eq!(cpu.flags.c, wide > 0xFF);
                assert_eq!(cpu.flags.v, !(-128..=127).contains(&signed));
                assert_eq!(cpu.flags.v, (!(a ^ b) & (a ^ r) & 0x80) != 0);
            }
        }
    }
}

#[test]
fn alu_leaves_registers_and_counter_alone() {
    let mut cpu = CPU::new();
    cpu.pc = 0x1234;
    cpu.r0 = 1;
    cpu.r1 = 2;
    cpu.r2 = 3;
    cpu.r3 = 4;
    cpu.sp = 9;
    let before = cpu;
    cpu.alu_add(0x10, 0x20);
    assert_eq!(cpu, CPU { flags: cpu.flags, ..before });
}

#[test]
fn status_word_puts_each_flag_in_its_bit() {
    let mut cpu = CPU::new();
    assert_eq!(cpu.sr(), 0x00);
    cpu.flags = flags(true, false, false, false);
    assert_eq!(cpu.sr(), 0x80);
    cpu.flags = flags(false, true, false, false);
    assert_eq!(cpu.sr(), 0x40);
    cpu.flags = flags(false, false, true, false);
    assert_eq!(cpu.sr(), 0x20);
    cpu.flags = flags(false, false, false, true);
    assert_eq!(cpu.sr(), 0x10);
    cpu.flags = flags(true, true, true, true);
    assert_eq!(cpu.sr(), 0xF0);
    cpu.flags = flags(true, false, true, false);
    assert_eq!(cpu.sr(), 0xA0);
}

#[test]
fn status_word_constants_are_the_four_high_bits() {
    assert_eq!(ZF, 1 << 7);
    assert_eq!(NF, 1 << 6);
    assert_eq!(CF, 1 << 5);
    assert_eq!(VF, 1 << 4);
}

#[test]
fn set_rs_reads_the_four_high_bits_only() {
    let mut cpu = CPU::new();
    cpu.set_rs(0xFF);
    assert_eq!(cpu.flags, flags(true, true, true, true));
    cpu.set_rs(0x0F);
    assert_eq!(cpu.flags, flags(false, false, false, false));
    cpu.set_rs(0x50);
    assert_eq!(cpu.flags, flags(false, true, false, true));
    cpu.set_rs(0x2B);
    assert_eq!(cpu.flags, flags(false, false, true, false));
}

#[test]
fn status_word_round_trips_for_every_byte() {
    let mut cpu = CPU::new();
    for sr in 0..=255u8 {
        cpu.set_rs(sr);
        assert_eq!(cpu.sr(), sr & 0xF0);
        let saved = cpu.flags;
        let word = cpu.sr();
        cpu.set_rs(word);
        assert_eq!(cpu.flags, saved);
    }
}

#[test]
fn set_rs_changes_nothing_but_flags() {
    let mut cpu = CPU::new();
    cpu.pc = 7;
    cpu.r3 = 0x33;
    cpu.halted = true;
    let before = cpu;
    cpu.set_rs(0xF0);
    assert_eq!(cpu, CPU { flags: flags(true, true, true, true), ..before });
}

#[test]
fn flags_str_shows_letters_and_dashes() {
    let mut cpu = CPU::new();
    assert_eq!(cpu.flags_str(), "----");
    cpu.flags = flags(true, true, true, true);
    assert_eq!(cpu.flags_str(), "ZNCV");
    cpu.flags = flags(true, false, false, true);
    assert_eq!(cpu.flags_str(), "Z--V");
    cpu.flags = flags(false, true, true, false);
    assert_eq!(cpu.flags_str(), "-NC-");
}
