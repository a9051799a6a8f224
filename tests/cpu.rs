use gboy::cpu::debugger::{CpuDebugger, CpuDebuggerMessage, Headless};
use gboy::cpu::optcode::{operand_len, OptCode};
use gboy::cpu::{initialize, Cpu};
use gboy::registers::{FlagRegister, FlagRegisterType, RegisterType};

#[derive(Default)]
struct Recorder {
    initialized: usize,
    ticks: usize,
    quits: usize,
    titles: Vec<String>,
    opcodes: Vec<OptCode>,
}

impl CpuDebugger for Recorder {
    fn initialize(&mut self) {
        self.initialized += 1;
    }
    fn tick(&mut self) {
        self.ticks += 1;
    }
    fn quit(&mut self) {
        self.quits += 1;
    }
    fn message(&mut self, msg: CpuDebuggerMessage) {
        match msg {
            CpuDebuggerMessage::CatridgeTitle(t) => self.titles.push(t),
            CpuDebuggerMessage::OptCode(op) => self.opcodes.push(op),
            _ => {}
        }
    }
}

/// A booted core (no boot image) whose ROM holds `program` at 0x100.
fn booted(program: &[u8]) -> Cpu<Headless> {
    let mut rom = vec![0u8; 0x200];
    rom[0x100..0x100 + program.len()].copy_from_slice(program);
    let mut cpu = initialize(rom, None::<Headless>);
    cpu.bootup(None);
    cpu.memory.load_cartridge_rom();
    cpu
}

#[test]
fn bootup_without_image_skips_boot() {
    let cpu = booted(&[]);
    assert_eq!(cpu.registers.a, 1);
    assert_eq!(cpu.registers.pc.value(), 0x100);
    assert_eq!(cpu.registers.sp, 0xFFFE);
    assert_eq!(cpu.memory.read(0xFF50), 1);
    assert_eq!(cpu.memory.read(0xFF44), 0x90);
    assert!(cpu.controls.game_booted);
    assert!(!cpu.controls.quit);
}

#[test]
fn bootup_with_image_copies_it() {
    let mut rom = vec![0u8; 0x150];
    rom[0x134] = b'Z';
    let mut cpu = initialize(rom, None::<Headless>);
    cpu.bootup(Some(vec![0x31, 0xFE, 0xFF]));
    assert_eq!(cpu.memory.read(0), 0x31);
    assert_eq!(cpu.memory.read(2), 0xFF);
    assert_eq!(cpu.memory.read(0x134), b'Z');
    assert_eq!(cpu.registers.pc.value(), 0);
    assert!(!cpu.controls.game_booted);
}

#[test]
fn decode_unrecognized_ff() {
    let mut cpu = booted(&[]);
    let before = cpu.registers;
    let op = cpu.decode(0xFF);
    assert_eq!(op, OptCode::Unrecognized(0xFF));
    cpu.execute(&op);
    assert!(cpu.controls.quit);
    assert_eq!(cpu.registers.a, before.a);
    assert_eq!(cpu.registers.pc.value(), before.pc.value());
    assert_eq!(cpu.registers.sp, before.sp);
    assert_eq!(cpu.registers.f.value(), before.f.value());
}

#[test]
fn decode_reorders_two_byte_operands() {
    let mut cpu = booted(&[0x34, 0x12]);
    assert_eq!(cpu.decode(0x01), OptCode::LDnn(RegisterType::BC, 0x12, 0x34));
    assert_eq!(cpu.registers.pc.value(), 0x102);
    cpu.execute(&OptCode::LDnn(RegisterType::BC, 0x12, 0x34));
    assert_eq!(cpu.registers.bc(), 0x1234);
}

#[test]
fn decode_extended_table() {
    let mut cpu = booted(&[0x7C, 0x11, 0x00]);
    assert_eq!(cpu.decode(0xCB), OptCode::CBBit7H);
    assert_eq!(cpu.decode(0xCB), OptCode::CBRLn(RegisterType::C));
    assert_eq!(cpu.decode(0xCB), OptCode::CBNone(0x00));
    assert_eq!(cpu.registers.pc.value(), 0x103);
}

#[test]
fn decode_relative_jump_is_signed() {
    let mut cpu = booted(&[0xFE, 0x05]);
    assert_eq!(cpu.decode(0x18), OptCode::JRn(-2));
    assert_eq!(cpu.decode(0x20), OptCode::JRCCn(FlagRegisterType::Zero, 0, 5));
}

#[test]
fn decode_table_entries() {
    let mut cpu = booted(&[0x42, 0x99]);
    assert_eq!(cpu.decode(0x00), OptCode::NOP);
    assert_eq!(cpu.decode(0xAF), OptCode::XORn(RegisterType::A));
    assert_eq!(cpu.decode(0x79), OptCode::LDNn(RegisterType::C, RegisterType::A));
    assert_eq!(cpu.decode(0x78), OptCode::LDNn(RegisterType::B, RegisterType::A));
    assert_eq!(cpu.decode(0x47), OptCode::LDNn(RegisterType::A, RegisterType::B));
    assert_eq!(cpu.decode(0xFA), OptCode::Unrecognized(0xFA));
    assert_eq!(cpu.decode(0x33), OptCode::INCnn(RegisterType::SP));
    assert_eq!(cpu.decode(0x3E), OptCode::LDNNn(RegisterType::A, 0x42));
    assert_eq!(cpu.decode(0xE0), OptCode::LDHnA(0x99));
    assert_eq!(cpu.registers.pc.value(), 0x102);
    assert_eq!(operand_len(0xCD), 2);
    assert_eq!(operand_len(0xCB), 1);
    assert_eq!(operand_len(0x00), 0);
}

#[test]
fn xor_a_clears_flags() {
    let mut cpu = booted(&[]);
    cpu.registers.a = 0x5A;
    cpu.registers.f = FlagRegister::from_value(0xF0);
    cpu.execute(&OptCode::XORn(RegisterType::A));
    assert_eq!(cpu.registers.a, 0);
    assert_eq!(cpu.registers.f.value(), 0x80);
    cpu.registers.b = 0x0F;
    cpu.execute(&OptCode::XORn(RegisterType::B));
    assert_eq!(cpu.registers.a, 0x0F);
    assert_eq!(cpu.registers.f.value(), 0x00);
}

#[test]
fn push_pop_round_trip() {
    let mut cpu = booted(&[]);
    cpu.registers.set_bc(0x1234);
    cpu.execute(&OptCode::PushNN(RegisterType::BC));
    assert_eq!(cpu.registers.sp, 0xFFFC);
    assert_eq!(cpu.memory.read(0xFFFE), 0x34);
    assert_eq!(cpu.memory.read(0xFFFD), 0x12);
    cpu.registers.set_bc(0);
    cpu.execute(&OptCode::PopNN(RegisterType::BC));
    assert_eq!(cpu.registers.bc(), 0x1234);
    assert_eq!(cpu.registers.sp, 0xFFFE);
}

#[test]
fn push_pop_af_restores_flags() {
    let mut cpu = booted(&[]);
    cpu.registers.a = 0x77;
    cpu.registers.f = FlagRegister::from_value(0xA0);
    cpu.execute(&OptCode::PushNN(RegisterType::AF));
    cpu.execute(&OptCode::XORn(RegisterType::A));
    cpu.execute(&OptCode::PopNN(RegisterType::AF));
    assert_eq!(cpu.registers.af(), 0x77A0);
}

#[test]
fn call_then_ret() {
    let mut cpu = booted(&[]);
    cpu.registers.pc.jump(0x150);
    cpu.execute(&OptCode::Call(0x20, 0x00));
    assert_eq!(cpu.registers.pc.value(), 0x2000);
    assert_eq!(cpu.registers.sp, 0xFFFC);
    assert_eq!(cpu.memory.read(0xFFFE), 0x01);
    assert_eq!(cpu.memory.read(0xFFFD), 0x50);
    cpu.execute(&OptCode::RET);
    assert_eq!(cpu.registers.pc.value(), 0x150);
    assert_eq!(cpu.registers.sp, 0xFFFE);
}

#[test]
fn stack_wraps_at_zero() {
    let mut cpu = booted(&[]);
    cpu.registers.sp = 0;
    cpu.registers.set_de(0xABCD);
    cpu.execute(&OptCode::PushNN(RegisterType::DE));
    assert_eq!(cpu.registers.sp, 0xFFFE);
    assert_eq!(cpu.memory.read(0), 0xCD);
    assert_eq!(cpu.memory.read(0xFFFF), 0xAB);
}

#[test]
fn inc_and_dec_flags() {
    let mut cpu = booted(&[]);
    cpu.registers.c = 0x0F;
    cpu.execute(&OptCode::INCn(RegisterType::C));
    assert_eq!(cpu.registers.c, 0x10);
    assert_eq!(cpu.registers.f.get(FlagRegisterType::Half), 1);
    assert_eq!(cpu.registers.f.get(FlagRegisterType::Zero), 0);
    cpu.registers.c = 0xFF;
    cpu.execute(&OptCode::INCn(RegisterType::C));
    assert_eq!(cpu.registers.c, 0);
    assert_eq!(cpu.registers.f.get(FlagRegisterType::Zero), 1);
    assert_eq!(cpu.registers.f.get(FlagRegisterType::Subt), 0);
    cpu.registers.b = 1;
    cpu.execute(&OptCode::DecN(RegisterType::B));
    assert_eq!(cpu.registers.b, 0);
    assert_eq!(cpu.registers.f.get(FlagRegisterType::Zero), 1);
    assert_eq!(cpu.registers.f.get(FlagRegisterType::Subt), 1);
    assert_eq!(cpu.registers.f.get(FlagRegisterType::Half), 1);
    cpu.execute(&OptCode::DecN(RegisterType::B));
    assert_eq!(cpu.registers.b, 0xFF);
}

#[test]
fn sub_and_compare() {
    let mut cpu = booted(&[]);
    cpu.registers.a = 5;
    cpu.registers.b = 3;
    cpu.execute(&OptCode::SUBn(RegisterType::B));
    assert_eq!(cpu.registers.a, 2);
    assert_eq!(cpu.registers.f.value(), 0b0110_0000);
    cpu.execute(&OptCode::CPnValue(2));
    assert_eq!(cpu.registers.a, 2);
    assert_eq!(cpu.registers.f.value(), 0b1100_0000);
    cpu.execute(&OptCode::CPnValue(3));
    assert_eq!(cpu.registers.f.value(), 0b0101_0000);
}

#[test]
fn add_from_memory_sets_carry() {
    let mut cpu = booted(&[]);
    cpu.registers.set_hl(0xC000);
    cpu.memory.write(0xC000, 0xF0);
    cpu.registers.a = 0x20;
    cpu.registers.f = FlagRegister::from_value(0b0100_0000);
    cpu.execute(&OptCode::ADDnn(RegisterType::A, RegisterType::HL));
    assert_eq!(cpu.registers.a, 0x10);
    assert_eq!(cpu.registers.f.value(), 0b0011_0000);
}

#[test]
fn add_register_operand_clears_subtract() {
    let mut cpu = booted(&[]);
    cpu.registers.a = 0x03;
    cpu.registers.b = 0x04;
    cpu.registers.f = FlagRegister::from_value(0b1100_0000);
    cpu.execute(&OptCode::ADDnn(RegisterType::A, RegisterType::B));
    assert_eq!(cpu.registers.a, 0x07);
    assert_eq!(cpu.registers.b, 0x04);
    assert_eq!(cpu.registers.f.value(), 0);
    cpu.registers.a = 0x80;
    cpu.execute(&OptCode::ADDnn(RegisterType::A, RegisterType::A));
    assert_eq!(cpu.registers.a, 0);
    assert_eq!(cpu.registers.f.value(), 0b1001_0000);
}

#[test]
fn debugger_snapshots() {
    let mut cpu = booted(&[]);
    cpu.registers.b = 2;
    cpu.registers.g = 9;
    cpu.memory.write(0xFF41, 0x11);
    cpu.memory.write(0xFF42, 0x22);
    cpu.memory.write(0xFF43, 0x33);
    cpu.memory.write(0xFF45, 0x55);
    cpu.memory.write(0xFF4A, 0xAA);
    cpu.memory.write(0xFF4B, 0xBB);
    match cpu.registers_message() {
        CpuDebuggerMessage::Registers { a, b, c, d, e, g, h, l, pc, sp } => {
            assert_eq!((a, b, c, d, e, g, h, l), (1, 2, 0, 0, 0, 9, 0, 0));
            assert_eq!(pc, 0x100);
            assert_eq!(sp, 0xFFFE);
        }
        _ => panic!("expected a register snapshot"),
    }
    match cpu.display_message() {
        CpuDebuggerMessage::Display { stat, scy, scx, wy, wx, ly, lyc } => {
            assert_eq!((stat, scy, scx, ly, lyc, wy, wx), (0x11, 0x22, 0x33, 0x90, 0x55, 0xAA, 0xBB));
        }
        _ => panic!("expected a display snapshot"),
    }
}

#[test]
fn rotate_left_moves_bit_seven_to_carry() {
    let mut cpu = booted(&[]);
    cpu.registers.a = 0x80;
    cpu.execute(&OptCode::RLn(RegisterType::A));
    assert_eq!(cpu.registers.a, 0x01);
    assert_eq!(cpu.registers.f.value(), 0b0001_0000);
    cpu.registers.d = 0x41;
    cpu.execute(&OptCode::CBRLn(RegisterType::D));
    assert_eq!(cpu.registers.d, 0x82);
    assert_eq!(cpu.registers.f.value(), 0);
}

#[test]
fn conditional_relative_jump() {
    let mut cpu = booted(&[]);
    cpu.registers.pc.jump(0x105);
    cpu.registers.f = FlagRegister::from_value(0x80);
    cpu.execute(&OptCode::JRCCn(FlagRegisterType::Zero, 1, -2));
    assert_eq!(cpu.registers.pc.value(), 0x103);
    cpu.execute(&OptCode::JRCCn(FlagRegisterType::Zero, 0, 10));
    assert_eq!(cpu.registers.pc.value(), 0x103);
    cpu.registers.pc.jump(1);
    cpu.execute(&OptCode::JRn(-3));
    assert_eq!(cpu.registers.pc.value(), 0xFFFE);
}

#[test]
fn loads_and_stores() {
    let mut cpu = booted(&[]);
    cpu.registers.a = 0x42;
    cpu.registers.c = 0x10;
    cpu.execute(&OptCode::LDCA);
    assert_eq!(cpu.memory.read(0xFF10), 0x42);
    cpu.execute(&OptCode::LDHnA(0x80));
    assert_eq!(cpu.memory.read(0xFF80), 0x42);
    cpu.memory.write(0xFF81, 0x99);
    cpu.execute(&OptCode::LDHAn(0x81));
    assert_eq!(cpu.registers.a, 0x99);
    cpu.execute(&OptCode::LDnnA(0xC1, 0x23));
    assert_eq!(cpu.memory.read(0xC123), 0x99);
    cpu.registers.set_hl(0xC200);
    cpu.execute(&OptCode::LDDHLA);
    assert_eq!(cpu.memory.read(0xC200), 0x99);
    assert_eq!(cpu.registers.hl(), 0xC1FF);
    cpu.execute(&OptCode::LDIHLA);
    assert_eq!(cpu.memory.read(0xC1FF), 0x99);
    assert_eq!(cpu.registers.hl(), 0xC200);
    cpu.registers.set_de(0xC123);
    cpu.execute(&OptCode::LDNnAddress(RegisterType::DE, RegisterType::E));
    assert_eq!(cpu.registers.e, 0x99);
    cpu.execute(&OptCode::LDNNn(RegisterType::H, 7));
    cpu.execute(&OptCode::LDNn(RegisterType::H, RegisterType::A));
    assert_eq!(cpu.registers.a, 7);
    cpu.execute(&OptCode::LDnn(RegisterType::SP, 0xD0, 0x00));
    assert_eq!(cpu.registers.sp, 0xD000);
    cpu.execute(&OptCode::INCnn(RegisterType::SP));
    assert_eq!(cpu.registers.sp, 0xD001);
    cpu.registers.set_bc(0xC300);
    cpu.execute(&OptCode::LDnA(RegisterType::BC));
    assert_eq!(cpu.memory.read(0xC300), 7);
}

#[test]
fn interrupt_mask_instructions() {
    let mut cpu = booted(&[]);
    cpu.execute(&OptCode::EI);
    assert_eq!(cpu.memory.read(0xFFFF), 0b0001_1111);
    cpu.execute(&OptCode::DI);
    assert_eq!(cpu.memory.read(0xFFFF), 0);
}

#[test]
fn bit_seven_of_h() {
    let mut cpu = booted(&[]);
    cpu.registers.h = 0x80;
    cpu.execute(&OptCode::CBBit7H);
    assert_eq!(cpu.registers.f.get(FlagRegisterType::Zero), 0);
    cpu.registers.h = 0x7F;
    cpu.execute(&OptCode::CBBit7H);
    assert_eq!(cpu.registers.f.get(FlagRegisterType::Zero), 1);
}

#[test]
fn cycle_costs() {
    let mut cpu = booted(&[]);
    cpu.timer_tick(&OptCode::NOP);
    assert_eq!(cpu.registers.clock_cycles(), 4);
    cpu.timer_tick(&OptCode::PushNN(RegisterType::HL));
    assert_eq!(cpu.registers.clock_cycles(), 20);
    cpu.timer_tick(&OptCode::LDnn(RegisterType::SP, 0, 0));
    assert_eq!(cpu.registers.clock_cycles(), 32);
    cpu.timer_tick(&OptCode::RET);
    assert_eq!(cpu.registers.clock_cycles(), 40);
    assert!(!cpu.controls.quit);
    cpu.timer_tick(&OptCode::CPn(RegisterType::B));
    assert_eq!(cpu.registers.clock_cycles(), 40);
    assert!(cpu.controls.quit);
}

#[test]
fn divider_increments_every_256_cycles() {
    let mut cpu = booted(&[]);
    for _ in 0..63 {
        cpu.timer_tick(&OptCode::NOP);
    }
    assert_eq!(cpu.registers.clock_cycles(), 252);
    assert_eq!(cpu.memory.read(0xFF04), 0);
    cpu.timer_tick(&OptCode::NOP);
    assert_eq!(cpu.memory.read(0xFF04), 1);
    assert_eq!(cpu.controls.div_control, 256);
    for _ in 0..63 {
        cpu.timer_tick(&OptCode::NOP);
    }
    assert_eq!(cpu.memory.read(0xFF04), 1);
    cpu.timer_tick(&OptCode::NOP);
    assert_eq!(cpu.memory.read(0xFF04), 2);
}

#[test]
fn divider_wraps_at_eight_bits() {
    let mut cpu = booted(&[]);
    cpu.memory.write(0xFF04, 0xFF);
    for _ in 0..16 {
        cpu.timer_tick(&OptCode::LDnnA(0, 0));
    }
    assert_eq!(cpu.memory.read(0xFF04), 0);
}

#[test]
fn step_runs_one_instruction() {
    let mut cpu = booted(&[0x3E, 0x07, 0x00]);
    cpu.step();
    assert_eq!(cpu.registers.a, 7);
    assert_eq!(cpu.registers.pc.value(), 0x102);
    assert_eq!(cpu.controls.old_pc, 0x102);
    assert_eq!(cpu.registers.clock_cycles(), 8);
    assert!(!cpu.controls.quit);
}

#[test]
fn step_refuses_instruction_past_the_end() {
    let mut cpu = booted(&[]);
    cpu.memory.write(0xFFFF, 0x01);
    cpu.registers.pc.jump(0xFFFF);
    cpu.step();
    assert!(cpu.controls.quit);
    assert_eq!(cpu.registers.pc.value(), 0xFFFF);
    assert_eq!(cpu.registers.clock_cycles(), 0);
}

#[test]
fn run_stops_on_unrecognized_opcode() {
    let mut rom = vec![0u8; 0x150];
    rom[0x100] = 0x00;
    rom[0x101] = 0xFF;
    let mut cpu = initialize(rom, None::<Headless>);
    cpu.bootup(None);
    cpu.run();
    assert!(cpu.controls.quit);
    assert_eq!(cpu.registers.pc.value(), 0x102);
    assert_eq!(cpu.controls.old_pc, 0x102);
    assert_eq!(cpu.registers.clock_cycles(), 4);
}

#[test]
fn run_boot_image_then_game_until_stop_address() {
    let rom = vec![0u8; 0x150];
    let mut cpu = initialize(rom, Some(Recorder::default()));
    // LD A,1 ; LDH (0x50),A
    cpu.bootup(Some(vec![0x3E, 0x01, 0xE0, 0x50]));
    cpu.run();
    assert!(cpu.controls.game_booted);
    assert!(cpu.controls.quit);
    assert_eq!(cpu.registers.pc.value(), 0x237);
    let d = cpu.debugger.as_ref().unwrap();
    assert_eq!(d.initialized, 1);
    assert_eq!(d.quits, 1);
    assert_eq!(d.titles.len(), 1);
    assert_eq!(d.opcodes[0], OptCode::LDNNn(RegisterType::A, 1));
    assert_eq!(d.opcodes[1], OptCode::LDHnA(0x50));
    assert_eq!(d.ticks, d.opcodes.len());
}

#[test]
fn run_boot_lockup_address_stops() {
    let rom = vec![0u8; 0x150];
    let mut cpu = initialize(rom, Some(Headless));
    // JP 0x00E9
    cpu.bootup(Some(vec![0xC3, 0xE9, 0x00]));
    cpu.run();
    assert!(cpu.controls.quit);
    assert!(!cpu.controls.game_booted);
}
