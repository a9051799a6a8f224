use gboy::registers::{FlagRegister, FlagRegisterType, ProgramCounter, RegisterType, Registers};
use gboy::util::{half_carry_occured, join_bytes, split_bytes};

#[test]
fn join_puts_first_byte_high() {
    assert_eq!(join_bytes(0x12, 0x34), 0x1234);
    assert_eq!(join_bytes(0xFF, 0x00), 0xFF00);
    assert_eq!(join_bytes(0x00, 0xFF), 0x00FF);
}

#[test]
fn split_is_inverse_of_join() {
    assert_eq!(split_bytes(0xBEEF), (0xBE, 0xEF));
    for a in [0u8, 1, 0x7F, 0x80, 0xFF] {
        for b in [0u8, 1, 0x7F, 0x80, 0xFF] {
            let v = join_bytes(a, b);
            assert_eq!(v, ((a as u16) << 8) | b as u16);
            assert_eq!(split_bytes(v), (a, b));
        }
    }
}

#[test]
fn half_carry_is_above_low_nibble() {
    assert!(!half_carry_occured(0x0F));
    assert!(half_carry_occured(0x10));
    assert!(half_carry_occured(0xFF));
    assert!(!half_carry_occured(0));
}

#[test]
fn pair_round_trip() {
    let mut r = Registers::default();
    for v in [0u16, 1, 0x00FF, 0x0100, 0x1234, 0xFFFF] {
        r.set2(&RegisterType::BC, v);
        assert_eq!(r.get2(&RegisterType::BC), v);
        r.set2(&RegisterType::DE, v);
        assert_eq!(r.get2(&RegisterType::DE), v);
        r.set2(&RegisterType::HL, v);
        assert_eq!(r.get2(&RegisterType::HL), v);
    }
    r.set_bc(0xA1B2);
    assert_eq!((r.b, r.c), (0xA1, 0xB2));
    assert_eq!(r.bc(), 0xA1B2);
    r.set_de(0x0102);
    assert_eq!((r.d, r.e), (0x01, 0x02));
    r.set_hl(0x8000);
    assert_eq!((r.h, r.l), (0x80, 0x00));
    assert_eq!(r.hl(), 0x8000);
}

#[test]
fn pair_af_includes_flags() {
    let mut r = Registers::default();
    r.set2(&RegisterType::AF, 0x12F0);
    assert_eq!(r.a, 0x12);
    assert_eq!(r.f.value(), 0xF0);
    assert_eq!(r.af(), 0x12F0);
}

#[test]
fn pair_increment_wraps() {
    let mut r = Registers::default();
    r.set_hl(0xFFFF);
    r.inc2(&RegisterType::HL);
    assert_eq!(r.hl(), 0);
    r.dec2(&RegisterType::HL);
    assert_eq!(r.hl(), 0xFFFF);
    r.set_de(0x00FF);
    r.inc2(&RegisterType::DE);
    assert_eq!(r.de(), 0x0100);
    r.set_hl(0);
    r.dec_hl();
    assert_eq!(r.hl(), 0xFFFF);
}

#[test]
fn byte_registers() {
    let mut r = Registers::default();
    r.set(&RegisterType::A, 1);
    r.set(&RegisterType::G, 7);
    r.set(&RegisterType::L, 9);
    assert_eq!(r.get(&RegisterType::A), 1);
    assert_eq!(r.get(&RegisterType::G), 7);
    assert_eq!(r.get(&RegisterType::L), 9);
    assert_eq!(r.get(&RegisterType::B), 0);
}

#[test]
fn bit_states() {
    let mut r = Registers::default();
    r.h = 0b1000_0010;
    assert_eq!(r.bitstate(&RegisterType::H, 7), 1);
    assert_eq!(r.bitstate(&RegisterType::H, 1), 1);
    assert_eq!(r.bitstate(&RegisterType::H, 0), 0);
    r.set_bitstate(&RegisterType::H, 4);
    assert_eq!(r.h, 0b0000_1001);
}

#[test]
fn flag_setters_touch_one_bit() {
    let mut f = FlagRegister::default();
    f.set_zero();
    assert_eq!(f.value(), 0b1000_0000);
    f.set_sub();
    f.set_half_carry();
    f.set_carry();
    assert_eq!(f.value(), 0b1111_0000);
    f.unset_sub();
    assert_eq!(f.value(), 0b1011_0000);
    assert_eq!(f.zero_flag(), 1);
    assert_eq!(f.subtract_flag(), 0);
    assert_eq!(f.half_carry_flag(), 1);
    assert_eq!(f.carry_flag(), 1);
    f.unset_zero();
    f.unset_half_carry();
    f.unset_carry();
    assert_eq!(f.value(), 0);
}

#[test]
fn flag_set_and_get_by_kind() {
    let mut f = FlagRegister::from_value(0x0A);
    f.set(FlagRegisterType::Carry, true);
    assert_eq!(f.get(FlagRegisterType::Carry), 1);
    assert_eq!(f.get(FlagRegisterType::Zero), 0);
    assert_eq!(f.value(), 0x1A);
    f.set(FlagRegisterType::Carry, false);
    assert_eq!(f.value(), 0x0A);
}

#[test]
fn flag_reset_keeps_low_nibble() {
    let mut f = FlagRegister::from_value(0xF5);
    f.reset();
    assert_eq!(f.value(), 0x05);
}

#[test]
fn program_counter_walks_and_jumps() {
    let mut pc = ProgramCounter::default();
    assert_eq!(pc.value(), 0);
    assert_eq!(pc.next(), 1);
    assert_eq!(pc.walk(), 1);
    assert_eq!(pc.value(), 1);
    pc.jump(0x100);
    assert_eq!(pc.value(), 0x100);
}

#[test]
fn clock_cycles_accumulate() {
    let mut r = Registers::default();
    r.add_clock_cycles(4);
    r.add_clock_cycles(12);
    assert_eq!(r.clock_cycles(), 16);
    r.sp_goto(0xFFFE);
    assert_eq!(r.sp, 0xFFFE);
}
