use vstd::prelude::*;

use super::Cpu;
use super::debugger::CpuDebugger;
use crate::memorybus::ADDRESS_SPACE;
use crate::registers::{FlagRegisterType, RegisterType, Registers, is_byte_register, is_pair_register};

verus! {

/// A decoded instruction. Two-byte operands are carried as (high, low).
#[derive(Debug, Copy, Clone, PartialEq, Eq, Structural)]
pub enum OptCode {
    NOP,
    LDnn(RegisterType, u8, u8),
    XORn(RegisterType),
    LDDHLA,
    JRCCn(FlagRegisterType, u8, i8),
    LDNNn(RegisterType, u8),
    LDNn(RegisterType, RegisterType),
    LDnnA(u8, u8),
    LDNnAddress(RegisterType, RegisterType),
    LDCA,
    INCn(RegisterType),
    INCnn(RegisterType),
    LDnA(RegisterType),
    LDHnA(u8),
    LDHAn(u8),
    Call(u8, u8),
    PushNN(RegisterType),
    PopNN(RegisterType),
    RET,
    RLn(RegisterType),
    DecN(RegisterType),
    LDIHLA,
    SUBn(RegisterType),
    CPn(RegisterType),
    CPnAddress(RegisterType),
    CPnValue(u8),
    JRn(i8),
    JPnn(u8, u8),
    ADDnn(RegisterType, RegisterType),
    DI,
    EI,
    Unrecognized(u8),
    CBBit7H,
    CBRLn(RegisterType),
    CBNone(u8),
}

impl Default for OptCode {
    fn default() -> (r: OptCode)
        ensures
            r == OptCode::NOP,
    {
        OptCode::NOP
    }
}

/// The byte read as a two's-complement offset.
pub open spec fn signed(b: u8) -> i8 {
    if b < 128 {
        b as i8
    } else {
        (b as int - 256) as i8
    }
}

fn to_signed(b: u8) -> (r: i8)
    ensures
        r == signed(b),
{
    if b < 128 {
        b as i8
    } else {
        (b as i16 - 256) as i8
    }
}

/// How many bytes follow the opcode `op` in memory (for the escape prefix:
/// the extended opcode).
pub open spec fn operand_count(op: u8) -> nat {
    match op {
        0xCB => 1,
        0x01 | 0x11 | 0x21 | 0x31 => 2,
        0x20 | 0x28 | 0x30 | 0x38 => 1,
        0x06 | 0x0E | 0x16 | 0x1E | 0x26 | 0x2E | 0x3E => 1,
        0xEA | 0xCD | 0xC3 => 2,
        0xE0 | 0xF0 | 0xFE | 0x18 => 1,
        _ => 0,
    }
}

/// Number of bytes that follow the opcode `op`.
pub fn operand_len(op: u8) -> (r: usize)
    ensures
        r == operand_count(op),
{
    match op {
        0xCB => 1,
        0x01 | 0x11 | 0x21 | 0x31 => 2,
        0x20 | 0x28 | 0x30 | 0x38 => 1,
        0x06 | 0x0E | 0x16 | 0x1E | 0x26 | 0x2E | 0x3E => 1,
        0xEA | 0xCD | 0xC3 => 2,
        0xE0 | 0xF0 | 0xFE | 0x18 => 1,
        _ => 0,
    }
}

/// The extended table, reached through the escape prefix.
pub open spec fn cb_table(op: u8) -> OptCode {
    match op {
        0x7C => OptCode::CBBit7H,
        0x17 => OptCode::CBRLn(RegisterType::A),
        0x10 => OptCode::CBRLn(RegisterType::B),
        0x11 => OptCode::CBRLn(RegisterType::C),
        0x12 => OptCode::CBRLn(RegisterType::D),
        0x13 => OptCode::CBRLn(RegisterType::E),
        0x14 => OptCode::CBRLn(RegisterType::H),
        0x15 => OptCode::CBRLn(RegisterType::L),
        _ => OptCode::CBNone(op),
    }
}

/// The primary table: the instruction that opcode `op` starts, where `n1` and
/// `n2` are the bytes that follow it in memory.
pub open spec fn table(op: u8, n1: u8, n2: u8) -> OptCode {
    match op {
        0xCB => cb_table(n1),
        0x00 => OptCode::NOP,
        0x01 => OptCode::LDnn(RegisterType::BC, n2, n1),
        0x11 => OptCode::LDnn(RegisterType::DE, n2, n1),
        0x21 => OptCode::LDnn(RegisterType::HL, n2, n1),
        0x31 => OptCode::LDnn(RegisterType::SP, n2, n1),
        0x03 => OptCode::INCnn(RegisterType::BC),
        0x13 => OptCode::INCnn(RegisterType::DE),
        0x23 => OptCode::INCnn(RegisterType::HL),
        0x33 => OptCode::INCnn(RegisterType::SP),
        0xAF => OptCode::XORn(RegisterType::A),
        0xA8 => OptCode::XORn(RegisterType::B),
        0xA9 => OptCode::XORn(RegisterType::C),
        0xAA => OptCode::XORn(RegisterType::D),
        0xAB => OptCode::XORn(RegisterType::E),
        0xAC => OptCode::XORn(RegisterType::H),
        0xAD => OptCode::XORn(RegisterType::L),
        0x32 => OptCode::LDDHLA,
        0x20 => OptCode::JRCCn(FlagRegisterType::Zero, 0, signed(n1)),
        0x28 => OptCode::JRCCn(FlagRegisterType::Zero, 1, signed(n1)),
        0x30 => OptCode::JRCCn(FlagRegisterType::Carry, 0, signed(n1)),
        0x38 => OptCode::JRCCn(FlagRegisterType::Carry, 1, signed(n1)),
        0x06 => OptCode::LDNNn(RegisterType::B, n1),
        0x0E => OptCode::LDNNn(RegisterType::C, n1),
        0x16 => OptCode::LDNNn(RegisterType::D, n1),
        0x1E => OptCode::LDNNn(RegisterType::E, n1),
        0x26 => OptCode::LDNNn(RegisterType::H, n1),
        0x2E => OptCode::LDNNn(RegisterType::L, n1),
        0x7F => OptCode::LDNn(RegisterType::A, RegisterType::A),
        0x78 => OptCode::LDNn(RegisterType::B, RegisterType::A),
        0x79 => OptCode::LDNn(RegisterType::C, RegisterType::A),
        0x7A => OptCode::LDNn(RegisterType::D, RegisterType::A),
        0x7B => OptCode::LDNn(RegisterType::E, RegisterType::A),
        0x7C => OptCode::LDNn(RegisterType::H, RegisterType::A),
        0x7D => OptCode::LDNn(RegisterType::L, RegisterType::A),
        0x0A => OptCode::LDNnAddress(RegisterType::BC, RegisterType::A),
        0x1A => OptCode::LDNnAddress(RegisterType::DE, RegisterType::A),
        0x7E => OptCode::LDNnAddress(RegisterType::HL, RegisterType::A),
        0x3E => OptCode::LDNNn(RegisterType::A, n1),
        0xE2 => OptCode::LDCA,
        0x47 => OptCode::LDNn(RegisterType::A, RegisterType::B),
        0x4F => OptCode::LDNn(RegisterType::A, RegisterType::C),
        0x57 => OptCode::LDNn(RegisterType::A, RegisterType::D),
        0x5F => OptCode::LDNn(RegisterType::A, RegisterType::E),
        0x67 => OptCode::LDNn(RegisterType::A, RegisterType::H),
        0x6F => OptCode::LDNn(RegisterType::A, RegisterType::L),
        0x02 => OptCode::LDnA(RegisterType::BC),
        0x12 => OptCode::LDnA(RegisterType::DE),
        0x77 => OptCode::LDnA(RegisterType::HL),
        0xEA => OptCode::LDnnA(n2, n1),
        0x3C => OptCode::INCn(RegisterType::A),
        0x04 => OptCode::INCn(RegisterType::B),
        0x0C => OptCode::INCn(RegisterType::C),
        0x14 => OptCode::INCn(RegisterType::D),
        0x1C => OptCode::INCn(RegisterType::E),
        0x24 => OptCode::INCn(RegisterType::H),
        0x2C => OptCode::INCn(RegisterType::L),
        0xE0 => OptCode::LDHnA(n1),
        0xF0 => OptCode::LDHAn(n1),
        0xCD => OptCode::Call(n2, n1),
        0xF5 => OptCode::PushNN(RegisterType::AF),
        0xC5 => OptCode::PushNN(RegisterType::BC),
        0xD5 => OptCode::PushNN(RegisterType::DE),
        0xE5 => OptCode::PushNN(RegisterType::HL),
        0xF1 => OptCode::PopNN(RegisterType::AF),
        0xC1 => OptCode::PopNN(RegisterType::BC),
        0xD1 => OptCode::PopNN(RegisterType::DE),
        0xE1 => OptCode::PopNN(RegisterType::HL),
        0x17 => OptCode::RLn(RegisterType::A),
        0x3D => OptCode::DecN(RegisterType::A),
        0x05 => OptCode::DecN(RegisterType::B),
        0x0D => OptCode::DecN(RegisterType::C),
        0x15 => OptCode::DecN(RegisterType::D),
        0x1D => OptCode::DecN(RegisterType::E),
        0x25 => OptCode::DecN(RegisterType::H),
        0x2D => OptCode::DecN(RegisterType::L),
        0x22 => OptCode::LDIHLA,
        0xC9 => OptCode::RET,
        0xBF => OptCode::CPn(RegisterType::A),
        0xB8 => OptCode::CPn(RegisterType::B),
        0xB9 => OptCode::CPn(RegisterType::C),
        0xBA => OptCode::CPn(RegisterType::D),
        0xBB => OptCode::CPn(RegisterType::E),
        0xBC => OptCode::CPn(RegisterType::H),
        0xBD => OptCode::CPn(RegisterType::L),
        0xBE => OptCode::CPnAddress(RegisterType::HL),
        0xFE => OptCode::CPnValue(n1),
        0x97 => OptCode::SUBn(RegisterType::A),
        0x90 => OptCode::SUBn(RegisterType::B),
        0x91 => OptCode::SUBn(RegisterType::C),
        0x92 => OptCode::SUBn(RegisterType::D),
        0x93 => OptCode::SUBn(RegisterType::E),
        0x94 => OptCode::SUBn(RegisterType::H),
        0x95 => OptCode::SUBn(RegisterType::L),
        0x18 => OptCode::JRn(signed(n1)),
        0xC3 => OptCode::JPnn(n2, n1),
        0x87 => OptCode::ADDnn(RegisterType::A, RegisterType::A),
        0x80 => OptCode::ADDnn(RegisterType::A, RegisterType::B),
        0x81 => OptCode::ADDnn(RegisterType::A, RegisterType::C),
        0x82 => OptCode::ADDnn(RegisterType::A, RegisterType::D),
        0x83 => OptCode::ADDnn(RegisterType::A, RegisterType::E),
        0x84 => OptCode::ADDnn(RegisterType::A, RegisterType::H),
        0x85 => OptCode::ADDnn(RegisterType::A, RegisterType::L),
        0x86 => OptCode::ADDnn(RegisterType::A, RegisterType::HL),
        0xF3 => OptCode::DI,
        0xFB => OptCode::EI,
        _ => OptCode::Unrecognized(op),
    }
}

/// The operands of `op` name registers that its handler can read and write.
pub open spec fn is_executable(op: OptCode) -> bool {
    match op {
        OptCode::LDnn(rt, _, _) => is_pair_register(rt) || rt == RegisterType::SP,
        OptCode::XORn(rt) => is_byte_register(rt) || rt == RegisterType::F,
        OptCode::LDNNn(rt, _) => is_byte_register(rt),
        OptCode::LDNn(from, to) => is_byte_register(from) && is_byte_register(to),
        OptCode::LDNnAddress(from, to) => is_pair_register(from) && is_byte_register(to),
        OptCode::INCn(rt) => is_byte_register(rt),
        OptCode::INCnn(rt) => is_pair_register(rt) || rt == RegisterType::SP,
        OptCode::LDnA(rt) => is_pair_register(rt),
        OptCode::PushNN(rt) => is_pair_register(rt),
        OptCode::PopNN(rt) => is_pair_register(rt),
        OptCode::RLn(rt) => is_byte_register(rt),
        OptCode::DecN(rt) => is_byte_register(rt),
        OptCode::SUBn(rt) => is_byte_register(rt),
        OptCode::CPn(rt) => is_byte_register(rt),
        OptCode::CPnAddress(rt) => is_pair_register(rt),
        OptCode::ADDnn(dst, src) => is_byte_register(dst) && (src == RegisterType::HL
            || is_byte_register(src)),
        OptCode::CBRLn(rt) => is_byte_register(rt),
        _ => true,
    }
}

impl<D: CpuDebugger> Cpu<D> {
    /// Decodes the instruction that starts with `optcode` (already fetched),
    /// fetching its operand bytes and walking PC past them.
    pub fn decode(&mut self, optcode: u8) -> (r: OptCode)
        requires
            old(self).wf(),
            old(self).registers.pc@ + operand_count(optcode) <= ADDRESS_SPACE,
        ensures
            final(self).wf(),
            r == table(
                optcode,
                old(self).memory@[old(self).registers.pc@ as int],
                old(self).memory@[old(self).registers.pc@ + 1],
            ),
            is_executable(r),
            final(self).registers.pc@ == old(self).registers.pc@ + operand_count(optcode),
            final(self).registers == (Registers { pc: final(self).registers.pc, ..old(self).registers }),
            final(self).memory == old(self).memory,
            final(self).controls == old(self).controls,
            final(self).debugger == old(self).debugger,
    {
        match optcode {
            0xCB => {
                let ghost mem = self.memory@;
                let ghost pc = self.registers.pc@;
                let cb = self.read_instruction();
                let r = self.cb_decode(cb);
                assert(table(optcode, mem[pc as int], mem[pc + 1]) == cb_table(cb));
                r
            },
            0x00 => OptCode::NOP,
            0x01 | 0x11 | 0x21 | 0x31 => {
                let a = self.read_instruction();
                let b = self.read_instruction();
                match optcode {
                    0x01 => OptCode::LDnn(RegisterType::BC, b, a),
                    0x11 => OptCode::LDnn(RegisterType::DE, b, a),
                    0x21 => OptCode::LDnn(RegisterType::HL, b, a),
                    _ => OptCode::LDnn(RegisterType::SP, b, a),
                }
            },
            0x03 => OptCode::INCnn(RegisterType::BC),
            0x13 => OptCode::INCnn(RegisterType::DE),
            0x23 => OptCode::INCnn(RegisterType::HL),
            0x33 => OptCode::INCnn(RegisterType::SP),
            0xAF => OptCode::XORn(RegisterType::A),
            0xA8 => OptCode::XORn(RegisterType::B),
            0xA9 => OptCode::XORn(RegisterType::C),
            0xAA => OptCode::XORn(RegisterType::D),
            0xAB => OptCode::XORn(RegisterType::E),
            0xAC => OptCode::XORn(RegisterType::H),
            0xAD => OptCode::XORn(RegisterType::L),
            0x32 => OptCode::LDDHLA,
            0x20 | 0x28 | 0x30 | 0x38 => {
                let a = to_signed(self.read_instruction());
                match optcode {
                    0x20 => OptCode::JRCCn(FlagRegisterType::Zero, 0, a),
                    0x28 => OptCode::JRCCn(FlagRegisterType::Zero, 1, a),
                    0x30 => OptCode::JRCCn(FlagRegisterType::Carry, 0, a),
                    _ => OptCode::JRCCn(FlagRegisterType::Carry, 1, a),
                }
            },
            0x06 | 0x0E | 0x16 | 0x1E | 0x26 | 0x2E | 0x3E => {
                let a = self.read_instruction();
                match optcode {
                    0x06 => OptCode::LDNNn(RegisterType::B, a),
                    0x0E => OptCode::LDNNn(RegisterType::C, a),
                    0x16 => OptCode::LDNNn(RegisterType::D, a),
                    0x1E => OptCode::LDNNn(RegisterType::E, a),
                    0x26 => OptCode::LDNNn(RegisterType::H, a),
                    0x2E => OptCode::LDNNn(RegisterType::L, a),
                    _ => OptCode::LDNNn(RegisterType::A, a),
                }
            },
            0x7F => OptCode::LDNn(RegisterType::A, RegisterType::A),
            0x78 => OptCode::LDNn(RegisterType::B, RegisterType::A),
            0x79 => OptCode::LDNn(RegisterType::C, RegisterType::A),
            0x7A => OptCode::LDNn(RegisterType::D, RegisterType::A),
            0x7B => OptCode::LDNn(RegisterType::E, RegisterType::A),
            0x7C => OptCode::LDNn(RegisterType::H, RegisterType::A),
            0x7D => OptCode::LDNn(RegisterType::L, RegisterType::A),
            0x0A => OptCode::LDNnAddress(RegisterType::BC, RegisterType::A),
            0x1A => OptCode::LDNnAddress(RegisterType::DE, RegisterType::A),
            0x7E => OptCode::LDNnAddress(RegisterType::HL, RegisterType::A),
            0xE2 => OptCode::LDCA,
            0x47 => OptCode::LDNn(RegisterType::A, RegisterType::B),
            0x4F => OptCode::LDNn(RegisterType::A, RegisterType::C),
            0x57 => OptCode::LDNn(RegisterType::A, RegisterType::D),
            0x5F => OptCode::LDNn(RegisterType::A, RegisterType::E),
            0x67 => OptCode::LDNn(RegisterType::A, RegisterType::H),
            0x6F => OptCode::LDNn(RegisterType::A, RegisterType::L),
            0x02 => OptCode::LDnA(RegisterType::BC),
            0x12 => OptCode::LDnA(RegisterType::DE),
            0x77 => OptCode::LDnA(RegisterType::HL),
            0xEA | 0xCD | 0xC3 => {
                let a = self.read_instruction();
                let b = self.read_instruction();
                match optcode {
                    0xEA => OptCode::LDnnA(b, a),
                    0xCD => OptCode::Call(b, a),
                    _ => OptCode::JPnn(b, a),
                }
            },
            0x3C => OptCode::INCn(RegisterType::A),
            0x04 => OptCode::INCn(RegisterType::B),
            0x0C => OptCode::INCn(RegisterType::C),
            0x14 => OptCode::INCn(RegisterType::D),
            0x1C => OptCode::INCn(RegisterType::E),
            0x24 => OptCode::INCn(RegisterType::H),
            0x2C => OptCode::INCn(RegisterType::L),
            0xE0 | 0xF0 | 0xFE | 0x18 => {
                let a = self.read_instruction();
                match optcode {
                    0xE0 => OptCode::LDHnA(a),
                    0xF0 => OptCode::LDHAn(a),
                    0xFE => OptCode::CPnValue(a),
                    _ => OptCode::JRn(to_signed(a)),
                }
            },
            0xF5 => OptCode::PushNN(RegisterType::AF),
            0xC5 => OptCode::PushNN(RegisterType::BC),
            0xD5 => OptCode::PushNN(RegisterType::DE),
            0xE5 => OptCode::PushNN(RegisterType::HL),
            0xF1 => OptCode::PopNN(RegisterType::AF),
            0xC1 => OptCode::PopNN(RegisterType::BC),
            0xD1 => OptCode::PopNN(RegisterType::DE),
            0xE1 => OptCode::PopNN(RegisterType::HL),
            0x17 => OptCode::RLn(RegisterType::A),
            0x3D => OptCode::DecN(RegisterType::A),
            0x05 => OptCode::DecN(RegisterType::B),
            0x0D => OptCode::DecN(RegisterType::C),
            0x15 => OptCode::DecN(RegisterType::D),
            0x1D => OptCode::DecN(RegisterType::E),
            0x25 => OptCode::DecN(RegisterType::H),
            0x2D => OptCode::DecN(RegisterType::L),
            0x22 => OptCode::LDIHLA,
            0xC9 => OptCode::RET,
            0xBF => OptCode::CPn(RegisterType::A),
            0xB8 => OptCode::CPn(RegisterType::B),
            0xB9 => OptCode::CPn(RegisterType::C),
            0xBA => OptCode::CPn(RegisterType::D),
            0xBB => OptCode::CPn(RegisterType::E),
            0xBC => OptCode::CPn(RegisterType::H),
            0xBD => OptCode::CPn(RegisterType::L),
            0xBE => OptCode::CPnAddress(RegisterType::HL),
            0x97 => OptCode::SUBn(RegisterType::A),
            0x90 => OptCode::SUBn(RegisterType::B),
            0x91 => OptCode::SUBn(RegisterType::C),
            0x92 => OptCode::SUBn(RegisterType::D),
            0x93 => OptCode::SUBn(RegisterType::E),
            0x94 => OptCode::SUBn(RegisterType::H),
            0x95 => OptCode::SUBn(RegisterType::L),
            0x87 => OptCode::ADDnn(RegisterType::A, RegisterType::A),
            0x80 => OptCode::ADDnn(RegisterType::A, RegisterType::B),
            0x81 => OptCode::ADDnn(RegisterType::A, RegisterType::C),
            0x82 => OptCode::ADDnn(RegisterType::A, RegisterType::D),
            0x83 => OptCode::ADDnn(RegisterType::A, RegisterType::E),
            0x84 => OptCode::ADDnn(RegisterType::A, RegisterType::H),
            0x85 => OptCode::ADDnn(RegisterType::A, RegisterType::L),
            0x86 => OptCode::ADDnn(RegisterType::A, RegisterType::HL),
            0xF3 => OptCode::DI,
            0xFB => OptCode::EI,
            _ => OptCode::Unrecognized(optcode),
        }
    }

    fn cb_decode(&self, cb_optcode: u8) -> (r: OptCode)
        ensures
            r == cb_table(cb_optcode),
            is_executable(r),
    {
        match cb_optcode {
            0x7C => OptCode::CBBit7H,
            0x17 => OptCode::CBRLn(RegisterType::A),
            0x10 => OptCode::CBRLn(RegisterType::B),
            0x11 => OptCode::CBRLn(RegisterType::C),
            0x12 => OptCode::CBRLn(RegisterType::D),
            0x13 => OptCode::CBRLn(RegisterType::E),
            0x14 => OptCode::CBRLn(RegisterType::H),
            0x15 => OptCode::CBRLn(RegisterType::L),
            _ => OptCode::CBNone(cb_optcode),
        }
    }
}

} // verus!
