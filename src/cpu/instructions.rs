use vstd::prelude::*;

use super::{Control, Cpu, FF00};
use super::debugger::CpuDebugger;
use super::optcode::{OptCode, is_executable};
use crate::memorybus::{ADDRESS_SPACE, IE_ADDRESS};
use crate::registers::{
    FlagRegister, FlagRegisterType, RegisterType, Registers, bit_of, is_byte_register,
    is_pair_register,
};
use crate::util::{half_carry_occured, join_bytes, join_spec, split_bytes};

verus! {

/// Value written to the interrupt-enable cell by `EI`.
pub const INTERRUPTS_ENABLED: u8 = 0b0001_1111;

/// The four flags of `f2` are `z`, `n`, `h` and `c`, and its low nibble is that of `f`.
pub open spec fn flags_are(f2: FlagRegister, f: FlagRegister, z: bool, n: bool, h: bool, c: bool) -> bool {
    &&& f2.flag(FlagRegisterType::Zero) == z
    &&& f2.flag(FlagRegisterType::Subt) == n
    &&& f2.flag(FlagRegisterType::Half) == h
    &&& f2.flag(FlagRegisterType::Carry) == c
    &&& f2@ & 0x0F == f@ & 0x0F
}

/// `x` taken modulo the 16-bit address space.
pub open spec fn wrap16(x: int) -> usize {
    (x % 0x10000) as usize
}

/// Target of a relative jump of `steps` from `pc`, wrapping within 16 bits.
pub open spec fn jr_target(pc: usize, steps: i8) -> usize {
    wrap16(pc as int + steps as int + 0x10000)
}

/// `v` rotated left by one bit.
pub open spec fn rotl(v: u8) -> u8 {
    ((v % 128) * 2 + v / 128) as u8
}

/// The operand of `XOR`: a byte register, or the flag byte for `F`.
pub open spec fn xor_operand(r: Registers, rt: RegisterType) -> u8 {
    if rt == RegisterType::F {
        r.f@
    } else {
        r.reg(rt)
    }
}

/// The operand of `ADD`: the byte at (HL) for `HL`, else the byte register `origin`.
pub open spec fn add_operand(r: Registers, m: Seq<u8>, origin: RegisterType) -> u8 {
    if origin == RegisterType::HL {
        m[r.pair(RegisterType::HL) as int]
    } else {
        r.reg(origin)
    }
}

/// The flags after comparing A with `v`.
pub open spec fn compares(r: Registers, r2: Registers, v: u8) -> bool {
    &&& r2 == Registers { f: r2.f, ..r }
    &&& flags_are(r2.f, r.f, r.a == v, true, r.a > 0x0F, r.a < v)
}

/// `r2` is `r` with the 8-bit slot `rt` set to `v` and new flags.
pub open spec fn slot_and_flags(r: Registers, r2: Registers, rt: RegisterType, v: u8) -> bool {
    r2 == Registers { f: r2.f, ..r.with_reg(rt, v) }
}

/// `r2` is `r` with a new program counter at `target`.
pub open spec fn jumped(r: Registers, r2: Registers, target: usize) -> bool {
    r2 == Registers { pc: r2.pc, ..r } && r2.pc@ == target
}

/// How executing `op` turns registers `r` and memory `m` into `r2` and `m2`.
#[verifier::opaque]
pub open spec fn effect(op: OptCode, r: Registers, m: Seq<u8>, r2: Registers, m2: Seq<u8>) -> bool {
    match op {
        OptCode::NOP | OptCode::Unrecognized(_) | OptCode::CBNone(_) => r2 == r && m2 == m,
        OptCode::LDnn(rt, hi, lo) => m2 == m && if rt == RegisterType::SP {
            r2 == Registers { sp: join_spec(hi, lo) as usize, ..r }
        } else {
            r2.pair_updated(r, rt, join_spec(hi, lo))
        },
        OptCode::XORn(rt) => {
            let v = r.a ^ xor_operand(r, rt);
            &&& m2 == m
            &&& r2 == Registers { a: v, f: r2.f, ..r }
            &&& flags_are(r2.f, r.f, v == 0, false, false, false)
        },
        OptCode::LDDHLA => {
            let hl = r.pair(RegisterType::HL);
            &&& m2 == m.update(hl as int, r.a)
            &&& r2.pair_updated(r, RegisterType::HL, ((hl + 0xFFFF) % 0x10000) as u16)
        },
        OptCode::LDIHLA => {
            let hl = r.pair(RegisterType::HL);
            &&& m2 == m.update(hl as int, r.a)
            &&& r2.pair_updated(r, RegisterType::HL, ((hl + 1) % 0x10000) as u16)
        },
        OptCode::JRCCn(k, state, steps) => m2 == m && if (if r.f.flag(k) {
            1u8
        } else {
            0u8
        }) == state {
            jumped(r, r2, jr_target(r.pc@, steps))
        } else {
            r2 == r
        },
        OptCode::LDNNn(rt, v) => m2 == m && r2 == r.with_reg(rt, v),
        OptCode::LDNn(from, to) => m2 == m && r2 == r.with_reg(to, r.reg(from)),
        OptCode::LDnnA(hi, lo) => r2 == r && m2 == m.update(join_spec(hi, lo) as int, r.a),
        OptCode::LDNnAddress(from, to) => m2 == m && r2 == r.with_reg(to, m[r.pair(from) as int]),
        OptCode::LDCA => r2 == r && m2 == m.update(FF00 + r.c, r.a),
        OptCode::INCn(rt) => {
            let v = ((r.reg(rt) + 1) % 256) as u8;
            &&& m2 == m
            &&& slot_and_flags(r, r2, rt, v)
            &&& flags_are(r2.f, r.f, v == 0, false, v > 0x0F, r.f.flag(FlagRegisterType::Carry))
        },
        OptCode::DecN(rt) => {
            let old_v = r.reg(rt);
            let v = ((old_v + 255) % 256) as u8;
            &&& m2 == m
            &&& slot_and_flags(r, r2, rt, v)
            &&& flags_are(r2.f, r.f, v == 0, true, !(old_v > 0x0F), r.f.flag(FlagRegisterType::Carry))
        },
        OptCode::INCnn(rt) => m2 == m && if rt == RegisterType::SP {
            r2 == Registers { sp: wrap16(r.sp + 1), ..r }
        } else {
            r2.pair_updated(r, rt, ((r.pair(rt) + 1) % 0x10000) as u16)
        },
        OptCode::LDnA(rt) => r2 == r && m2 == m.update(r.pair(rt) as int, r.a),
        OptCode::LDHnA(v) => r2 == r && m2 == m.update(FF00 + v, r.a),
        OptCode::LDHAn(v) => m2 == m && r2 == Registers { a: m[FF00 + v], ..r },
        OptCode::Call(hi, lo) => {
            let ret = r.pc@ % 0x10000;
            &&& m2 == m.update(r.sp as int, (ret / 256) as u8).update(
                wrap16(r.sp + 0xFFFF) as int,
                (ret % 256) as u8,
            )
            &&& r2 == Registers { pc: r2.pc, sp: wrap16(r.sp + 0xFFFE), ..r }
            &&& r2.pc@ == join_spec(hi, lo)
        },
        OptCode::PushNN(rt) => {
            let v = r.pair(rt);
            &&& m2 == m.update(r.sp as int, (v % 256) as u8).update(
                wrap16(r.sp + 0xFFFF) as int,
                (v / 256) as u8,
            )
            &&& r2 == Registers { sp: wrap16(r.sp + 0xFFFE), ..r }
        },
        OptCode::PopNN(rt) => {
            &&& m2 == m
            &&& r2.pair_updated(
                Registers { sp: wrap16(r.sp + 2), ..r },
                rt,
                join_spec(m[wrap16(r.sp + 1) as int], m[wrap16(r.sp + 2) as int]),
            )
        },
        OptCode::RET => {
            &&& m2 == m
            &&& r2 == Registers { pc: r2.pc, sp: wrap16(r.sp + 2), ..r }
            &&& r2.pc@ == join_spec(m[wrap16(r.sp + 2) as int], m[wrap16(r.sp + 1) as int])
        },
        OptCode::RLn(rt) | OptCode::CBRLn(rt) => {
            let old_v = r.reg(rt);
            let v = rotl(old_v);
            &&& m2 == m
            &&& slot_and_flags(r, r2, rt, v)
            &&& flags_are(r2.f, r.f, v == 0, false, false, bit_of(old_v, 7) == 1)
        },
        OptCode::SUBn(rt) => {
            let v = ((r.a - r.reg(rt) + 256) % 256) as u8;
            &&& m2 == m
            &&& r2 == Registers { a: v, f: r2.f, ..r }
            &&& flags_are(r2.f, r.f, v == 0, true, !(v > 0x0F), r.a < v)
        },
        OptCode::CPn(rt) => m2 == m && compares(r, r2, r.reg(rt)),
        OptCode::CPnAddress(rt) => m2 == m && compares(r, r2, m[r.pair(rt) as int]),
        OptCode::CPnValue(v) => m2 == m && compares(r, r2, v),
        OptCode::JRn(steps) => m2 == m && jumped(r, r2, jr_target(r.pc@, steps)),
        OptCode::JPnn(hi, lo) => m2 == m && jumped(r, r2, join_spec(hi, lo) as usize),
        OptCode::ADDnn(dst, origin) => {
            let dv = r.reg(dst);
            let sv = add_operand(r, m, origin);
            let v = ((dv + sv) % 256) as u8;
            &&& m2 == m
            &&& slot_and_flags(r, r2, dst, v)
            &&& flags_are(r2.f, r.f, v == 0, false, v > 0x0F, dv + sv > 255)
        },
        OptCode::DI => r2 == r && m2 == m.update(IE_ADDRESS as int, 0),
        OptCode::EI => r2 == r && m2 == m.update(IE_ADDRESS as int, INTERRUPTS_ENABLED),
        OptCode::CBBit7H => {
            &&& m2 == m
            &&& r2 == Registers { f: r2.f, ..r }
            &&& r2.f.changes_only(r.f, FlagRegisterType::Zero, bit_of(r.h, 7) == 0)
        },
    }
}

/// The instructions that `execute` handles itself.
spec fn dispatched_first(op: OptCode) -> bool {
    match op {
        OptCode::NOP | OptCode::LDnn(_, _, _) | OptCode::XORn(_) | OptCode::LDDHLA
        | OptCode::LDNNn(_, _) | OptCode::LDNn(_, _) | OptCode::LDNnAddress(_, _) | OptCode::LDCA
        | OptCode::INCn(_) | OptCode::INCnn(_) | OptCode::LDnA(_) | OptCode::LDnnA(_, _) => true,
        _ => false,
    }
}

/// The instructions that the last part of the dispatch handles.
spec fn dispatched_last(op: OptCode) -> bool {
    match op {
        OptCode::CPnAddress(_) | OptCode::CPnValue(_) | OptCode::JRn(_) | OptCode::JPnn(_, _)
        | OptCode::ADDnn(_, _) | OptCode::DI | OptCode::EI | OptCode::Unrecognized(_)
        | OptCode::CBBit7H | OptCode::CBRLn(_) | OptCode::CBNone(_) => true,
        _ => false,
    }
}

/// The opcode has no table entry, so executing it ends the emulation.
pub open spec fn is_unrecognized(op: OptCode) -> bool {
    op is Unrecognized || op is CBNone
}

impl<D: CpuDebugger> Cpu<D> {
    /// `self` is `old` after executing `op`.
    #[verifier::opaque]
    pub open spec fn executed(&self, old: &Cpu<D>, op: OptCode) -> bool {
        &&& self.wf()
        &&& effect(op, old.registers, old.memory@, self.registers, self.memory@)
        &&& self.registers.clock_cycles == old.registers.clock_cycles
        &&& self.memory.cart() == old.memory.cart()
        &&& self.controls == (Control {
            quit: old.controls.quit || is_unrecognized(op),
            ..old.controls
        })
        &&& self.debugger == old.debugger
    }

    /// `self` is `old` with registers and memory replaced.
    pub open spec fn same_control(&self, old: &Cpu<D>) -> bool {
        &&& self.wf()
        &&& self.memory.cart() == old.memory.cart()
        &&& self.controls == old.controls
        &&& self.debugger == old.debugger
    }

    /// Applies the semantics of `op` to the registers and memory.
    pub fn execute(&mut self, optcode: &OptCode)
        requires
            old(self).wf(),
            is_executable(*optcode),
        ensures
            final(self).executed(old(self), *optcode),
    {
        match *optcode {
            OptCode::NOP => self.nop(),
            OptCode::LDnn(rt, a, b) => self.ld_nn(rt, a, b),
            OptCode::XORn(rt) => self.xor_n(rt),
            OptCode::LDDHLA => self.ldd_hl_a(),
            OptCode::LDNNn(rt, v) => self.ld_nn_n(rt, v),
            OptCode::LDNn(f, t) => self.ld_n_n(f, t),
            OptCode::LDNnAddress(f, t) => self.ld_n_address(f, t),
            OptCode::LDCA => self.ld_c_a(),
            OptCode::INCn(rt) => self.inc_n(rt),
            OptCode::INCnn(rt) => self.inc_nn(rt),
            OptCode::LDnA(rt) => self.ld_n_a(rt),
            OptCode::LDnnA(a, b) => self.ld_nn_a(a, b),
            _ => self.execute_more(optcode),
        }
    }

    /// The instructions that `execute` does not dispatch itself, first part.
    fn execute_more(&mut self, optcode: &OptCode)
        requires
            old(self).wf(),
            is_executable(*optcode),
            !dispatched_first(*optcode),
        ensures
            final(self).executed(old(self), *optcode),
    {
        match *optcode {
            OptCode::LDHnA(a) => self.ldh_n_a(a),
            OptCode::LDHAn(a) => self.ldh_a_n(a),
            OptCode::Call(a, b) => self.call(a, b),
            OptCode::PushNN(rt) => self.push_nn(rt),
            OptCode::PopNN(rt) => self.pop_nn(rt),
            OptCode::JRCCn(k, f, a) => self.jr_cc_n(k, f, a),
            OptCode::RLn(rt) => self.rl_n(rt),
            OptCode::DecN(rt) => self.dec_n(rt),
            OptCode::LDIHLA => self.ldi_nn_address_n(RegisterType::A, RegisterType::HL),
            OptCode::RET => self.ret(),
            OptCode::SUBn(rt) => self.sub_n(rt),
            OptCode::CPn(rt) => self.cp_n(rt),
            _ => self.execute_rest(optcode),
        }
    }

    /// The remaining instructions.
    fn execute_rest(&mut self, optcode: &OptCode)
        requires
            old(self).wf(),
            is_executable(*optcode),
            dispatched_last(*optcode),
        ensures
            final(self).executed(old(self), *optcode),
    {
        match *optcode {
            OptCode::CPnAddress(rt) => self.cp_n_address(rt),
            OptCode::CPnValue(v) => self.cp_n_value(v),
            OptCode::JRn(a) => self.jr_n(a),
            OptCode::JPnn(a, b) => self.jp_nn(a, b),
            OptCode::ADDnn(d, o) => self.add_nn(d, o),
            OptCode::DI => self.di(),
            OptCode::EI => self.ei(),
            OptCode::CBBit7H => self.cb_bit_7_h(),
            OptCode::CBRLn(rt) => self.cb_rl_n(rt),
            _ => self.unrecognized(*optcode),
        }
    }

    /// An opcode without a table entry: requests termination.
    fn unrecognized(&mut self, op: OptCode)
        requires
            old(self).wf(),
            is_unrecognized(op),
        ensures
            final(self).executed(old(self), op),
    {
        proof {
            reveal(effect);
            reveal(Cpu::executed);
        }
        self.controls.quit = true;
    }

    fn nop(&mut self)
        requires
            old(self).wf(),
        ensures
            final(self).executed(old(self), OptCode::NOP),
    {
        proof {
            reveal(effect);
            reveal(Cpu::executed);
        }
    }

    fn ld_nn(&mut self, rt: RegisterType, a: u8, b: u8)
        requires
            old(self).wf(),
            is_executable(OptCode::LDnn(rt, a, b)),
        ensures
            final(self).executed(old(self), OptCode::LDnn(rt, a, b)),
    {
        proof {
            reveal(effect);
            reveal(Cpu::executed);
        }
        let address = join_bytes(a, b);
        match rt {
            RegisterType::SP => self.registers.sp_goto(address as usize),
            RegisterType::HL => self.registers.set_hl(address),
            RegisterType::DE => self.registers.set_de(address),
            RegisterType::BC => self.registers.set_bc(address),
            _ => self.registers.set2(&rt, address),
        }
    }

    fn xor_n(&mut self, rt: RegisterType)
        requires
            old(self).wf(),
            is_executable(OptCode::XORn(rt)),
        ensures
            final(self).executed(old(self), OptCode::XORn(rt)),
    {
        proof {
            reveal(effect);
            reveal(Cpu::executed);
        }
        let operand = match rt {
            RegisterType::F => self.registers.f.value(),
            _ => self.registers.get(&rt),
        };
        self.registers.a = self.registers.a ^ operand;
        self.registers.f.reset();
        if self.registers.a == 0 {
            self.registers.f.set_zero();
        }
    }

    fn ldd_hl_a(&mut self)
        requires
            old(self).wf(),
        ensures
            final(self).executed(old(self), OptCode::LDDHLA),
    {
        proof {
            reveal(effect);
            reveal(Cpu::executed);
        }
        let hl = self.registers.hl();
        self.memory.write(hl as usize, self.registers.a);
        self.registers.dec_hl();
    }

    fn jr_cc_n(&mut self, flag_register: FlagRegisterType, flag_state: u8, steps: i8)
        requires
            old(self).wf(),
        ensures
            final(self).executed(old(self), OptCode::JRCCn(flag_register, flag_state, steps)),
    {
        proof {
            reveal(effect);
            reveal(Cpu::executed);
        }
        if self.registers.f.get(flag_register) == flag_state {
            self.jr_n(steps);
        }
    }

    fn ld_nn_n(&mut self, rt: RegisterType, value: u8)
        requires
            old(self).wf(),
            is_byte_register(rt),
        ensures
            final(self).executed(old(self), OptCode::LDNNn(rt, value)),
    {
        proof {
            reveal(effect);
            reveal(Cpu::executed);
        }
        self.registers.set(&rt, value)
    }

    fn ld_n_n(&mut self, from: RegisterType, to: RegisterType)
        requires
            old(self).wf(),
            is_byte_register(from),
            is_byte_register(to),
        ensures
            final(self).executed(old(self), OptCode::LDNn(from, to)),
    {
        proof {
            reveal(effect);
            reveal(Cpu::executed);
        }
        let value = self.registers.get(&from);
        self.ld_nn_n(to, value);
    }

    fn ld_nn_a(&mut self, a: u8, b: u8)
        requires
            old(self).wf(),
        ensures
            final(self).executed(old(self), OptCode::LDnnA(a, b)),
    {
        proof {
            reveal(effect);
            reveal(Cpu::executed);
        }
        let address = join_bytes(a, b);
        self.memory.write(address as usize, self.registers.a);
    }

    fn ld_n_address(&mut self, from: RegisterType, to: RegisterType)
        requires
            old(self).wf(),
            is_pair_register(from),
            is_byte_register(to),
        ensures
            final(self).executed(old(self), OptCode::LDNnAddress(from, to)),
    {
        proof {
            reveal(effect);
            reveal(Cpu::executed);
        }
        let address = self.registers.get2(&from);
        let value = self.memory.read(address as usize);
        self.ld_nn_n(to, value);
    }

    /// Stores `from` at the address held in the pair `to`, then increments the pair.
    fn ldi_nn_address_n(&mut self, from: RegisterType, to: RegisterType)
        requires
            old(self).wf(),
            from == RegisterType::A,
            to == RegisterType::HL,
        ensures
            final(self).executed(old(self), OptCode::LDIHLA),
    {
        proof {
            reveal(effect);
            reveal(Cpu::executed);
        }
        let value = self.registers.get(&from);
        let address = self.registers.get2(&to);
        self.memory.write(address as usize, value);
        self.registers.inc2(&to);
    }

    fn ld_c_a(&mut self)
        requires
            old(self).wf(),
        ensures
            final(self).executed(old(self), OptCode::LDCA),
    {
        proof {
            reveal(effect);
            reveal(Cpu::executed);
        }
        let address = FF00 + self.registers.c as usize;
        self.memory.write(address, self.registers.a);
    }

    fn inc_n(&mut self, rt: RegisterType)
        requires
            old(self).wf(),
            is_byte_register(rt),
        ensures
            final(self).executed(old(self), OptCode::INCn(rt)),
    {
        proof {
            reveal(effect);
            reveal(Cpu::executed);
        }
        let value = self.registers.get(&rt);
        let new_value = value.wrapping_add(1);
        self.registers.set(&rt, new_value);
        self.registers.f.set(FlagRegisterType::Zero, new_value == 0);
        self.registers.f.unset_sub();
        self.registers.f.set(FlagRegisterType::Half, half_carry_occured(new_value));
    }

    fn dec_n(&mut self, rt: RegisterType)
        requires
            old(self).wf(),
            is_byte_register(rt),
        ensures
            final(self).executed(old(self), OptCode::DecN(rt)),
    {
        proof {
            reveal(effect);
            reveal(Cpu::executed);
        }
        let value = self.registers.get(&rt);
        let new_value = value.wrapping_sub(1);
        self.registers.set(&rt, new_value);
        self.registers.f.set(FlagRegisterType::Zero, new_value == 0);
        self.registers.f.set_sub();
        self.registers.f.set(FlagRegisterType::Half, !half_carry_occured(value));
    }

    /// Increments a pair, or the stack pointer, wrapping within 16 bits.
    fn inc_nn(&mut self, rt: RegisterType)
        requires
            old(self).wf(),
            is_pair_register(rt) || rt == RegisterType::SP,
        ensures
            final(self).executed(old(self), OptCode::INCnn(rt)),
    {
        proof {
            reveal(effect);
            reveal(Cpu::executed);
        }
        match rt {
            RegisterType::SP => {
                let sp = self.registers.sp;
                self.registers.sp_goto((sp + 1) % ADDRESS_SPACE);
            },
            _ => self.registers.inc2(&rt),
        }
    }

    fn ld_n_a(&mut self, rt: RegisterType)
        requires
            old(self).wf(),
            is_pair_register(rt),
        ensures
            final(self).executed(old(self), OptCode::LDnA(rt)),
    {
        proof {
            reveal(effect);
            reveal(Cpu::executed);
        }
        let address = self.registers.get2(&rt);
        self.memory.write(address as usize, self.registers.a);
    }

    fn ldh_n_a(&mut self, value: u8)
        requires
            old(self).wf(),
        ensures
            final(self).executed(old(self), OptCode::LDHnA(value)),
    {
        proof {
            reveal(effect);
            reveal(Cpu::executed);
        }
        self.memory.write(FF00 + value as usize, self.registers.a);
    }

    fn ldh_a_n(&mut self, value: u8)
        requires
            old(self).wf(),
        ensures
            final(self).executed(old(self), OptCode::LDHAn(value)),
    {
        proof {
            reveal(effect);
            reveal(Cpu::executed);
        }
        self.registers.a = self.memory.read(FF00 + value as usize);
    }

    /// Pushes the return address, high byte first, and jumps.
    fn call(&mut self, a: u8, b: u8)
        requires
            old(self).wf(),
        ensures
            final(self).executed(old(self), OptCode::Call(a, b)),
    {
        proof {
            reveal(effect);
            reveal(Cpu::executed);
        }
        let address = join_bytes(a, b);
        let ret = (self.registers.pc.value() % ADDRESS_SPACE) as u16;
        let (hi, lo) = split_bytes(ret);
        self.stack_push(hi);
        self.stack_push(lo);
        self.jump(address as usize);
    }

    /// Pushes a pair, low byte first.
    fn push_nn(&mut self, rt: RegisterType)
        requires
            old(self).wf(),
            is_pair_register(rt),
        ensures
            final(self).executed(old(self), OptCode::PushNN(rt)),
    {
        proof {
            reveal(effect);
            reveal(Cpu::executed);
        }
        let values = self.registers.get2(&rt);
        let (b, a) = split_bytes(values);
        self.stack_push(a);
        self.stack_push(b);
    }

    /// Pops a pair: the first byte popped becomes the high byte.
    fn pop_nn(&mut self, rt: RegisterType)
        requires
            old(self).wf(),
            is_pair_register(rt),
        ensures
            final(self).executed(old(self), OptCode::PopNN(rt)),
    {
        proof {
            reveal(effect);
            reveal(Cpu::executed);
        }
        let a = self.stack_pop();
        let b = self.stack_pop();
        let value = join_bytes(a, b);
        self.registers.set2(&rt, value);
    }

    /// Pops the return address pushed by `call` and jumps to it.
    fn ret(&mut self)
        requires
            old(self).wf(),
        ensures
            final(self).executed(old(self), OptCode::RET),
    {
        proof {
            reveal(effect);
            reveal(Cpu::executed);
        }
        let a = self.stack_pop();
        let b = self.stack_pop();
        let address = join_bytes(b, a);
        self.jump(address as usize);
    }

    /// Rotates a byte register left; bit 7 goes to the carry flag.
    fn rl_n(&mut self, rt: RegisterType)
        requires
            old(self).wf(),
            is_byte_register(rt),
        ensures
            final(self).executed(old(self), OptCode::RLn(rt)),
    {
        proof {
            reveal(effect);
            reveal(Cpu::executed);
        }
        let value = self.registers.get(&rt);
        let bit7state = self.registers.bitstate(&rt, 7);
        let new_value = (value % 128) * 2 + value / 128;
        self.registers.set(&rt, new_value);
        self.registers.f.set(FlagRegisterType::Zero, new_value == 0);
        self.registers.f.unset_sub();
        self.registers.f.unset_half_carry();
        self.registers.f.set(FlagRegisterType::Carry, bit7state == 1);
    }

    fn cp_n(&mut self, rt: RegisterType)
        requires
            old(self).wf(),
            is_byte_register(rt),
        ensures
            final(self).executed(old(self), OptCode::CPn(rt)),
    {
        proof {
            reveal(effect);
            reveal(Cpu::executed);
        }
        let value = self.registers.get(&rt);
        self.cp_n_value(value);
    }

    fn cp_n_address(&mut self, rt: RegisterType)
        requires
            old(self).wf(),
            is_pair_register(rt),
        ensures
            final(self).executed(old(self), OptCode::CPnAddress(rt)),
    {
        proof {
            reveal(effect);
            reveal(Cpu::executed);
        }
        let address = self.registers.get2(&rt);
        let value = self.memory.read(address as usize);
        self.cp_n_value(value);
    }

    /// Compares A with `value`, setting only the flags.
    fn cp_n_value(&mut self, value: u8)
        requires
            old(self).wf(),
        ensures
            final(self).executed(old(self), OptCode::CPnValue(value)),
    {
        proof {
            reveal(effect);
            reveal(Cpu::executed);
        }
        let a = self.registers.a;
        self.registers.f.set(FlagRegisterType::Zero, a == value);
        self.registers.f.set_sub();
        self.registers.f.set(FlagRegisterType::Half, half_carry_occured(a));
        self.registers.f.set(FlagRegisterType::Carry, a < value);
    }

    fn sub_n(&mut self, rt: RegisterType)
        requires
            old(self).wf(),
            is_byte_register(rt),
        ensures
            final(self).executed(old(self), OptCode::SUBn(rt)),
    {
        proof {
            reveal(effect);
            reveal(Cpu::executed);
        }
        let value = self.registers.get(&rt);
        let new_a_value = self.registers.a.wrapping_sub(value);
        self.registers.f.set(FlagRegisterType::Zero, new_a_value == 0);
        self.registers.f.set_sub();
        self.registers.f.set(FlagRegisterType::Half, !half_carry_occured(new_a_value));
        self.registers.f.set(FlagRegisterType::Carry, self.registers.a < new_a_value);
        self.registers.a = new_a_value;
    }

    /// Jumps `steps` bytes from the current PC, wrapping within 16 bits.
    fn jr_n(&mut self, steps: i8)
        requires
            old(self).wf(),
        ensures
            final(self).executed(old(self), OptCode::JRn(steps)),
    {
        proof {
            reveal(effect);
            reveal(Cpu::executed);
        }
        let pc = self.registers.pc.value();
        let offset = (steps as i16 + 128) as usize;
        let new_pc = (pc + ADDRESS_SPACE + offset - 128) % ADDRESS_SPACE;
        self.jump(new_pc);
    }

    fn jp_nn(&mut self, a: u8, b: u8)
        requires
            old(self).wf(),
        ensures
            final(self).executed(old(self), OptCode::JPnn(a, b)),
    {
        proof {
            reveal(effect);
            reveal(Cpu::executed);
        }
        let address = join_bytes(a, b);
        self.jump(address as usize);
    }

    /// Adds to `destination` the byte at (HL) when `origin` is HL, and the
    /// byte register `origin` otherwise. Subtract is cleared: this is an addition.
    fn add_nn(&mut self, destination: RegisterType, origin: RegisterType)
        requires
            old(self).wf(),
            is_byte_register(destination),
            origin == RegisterType::HL || is_byte_register(origin),
        ensures
            final(self).executed(old(self), OptCode::ADDnn(destination, origin)),
    {
        proof {
            reveal(effect);
            reveal(Cpu::executed);
        }
        let dst_value = self.registers.get(&destination);
        let src_value = match origin {
            RegisterType::HL => {
                let address = self.registers.get2(&origin);
                self.memory.read(address as usize)
            },
            _ => self.registers.get(&origin),
        };
        let sum = dst_value as u16 + src_value as u16;
        let new_value = (sum % 256) as u8;
        let has_overflowed = sum > 255;
        self.registers.set(&destination, new_value);
        self.registers.f.set(FlagRegisterType::Zero, new_value == 0);
        self.registers.f.unset_sub();
        self.registers.f.set(FlagRegisterType::Half, half_carry_occured(new_value));
        self.registers.f.set(FlagRegisterType::Carry, has_overflowed);
    }

    fn di(&mut self)
        requires
            old(self).wf(),
        ensures
            final(self).executed(old(self), OptCode::DI),
    {
        proof {
            reveal(effect);
            reveal(Cpu::executed);
        }
        self.memory.write(IE_ADDRESS, 0);
    }

    fn ei(&mut self)
        requires
            old(self).wf(),
        ensures
            final(self).executed(old(self), OptCode::EI),
    {
        proof {
            reveal(effect);
            reveal(Cpu::executed);
        }
        self.memory.write(IE_ADDRESS, INTERRUPTS_ENABLED);
    }

    /// Writes `value` at SP, then moves SP down one byte.
    fn stack_push(&mut self, value: u8)
        requires
            old(self).wf(),
        ensures
            final(self).same_control(old(self)),
            final(self).memory@ == old(self).memory@.update(old(self).registers.sp as int, value),
            final(self).registers == (Registers {
                sp: wrap16(old(self).registers.sp + 0xFFFF),
                ..old(self).registers
            }),
    {
        let sp = self.registers.sp;
        self.memory.write(sp, value);
        self.registers.sp = (sp + 0xFFFF) % ADDRESS_SPACE;
    }

    /// Moves SP up one byte, then reads the byte there.
    fn stack_pop(&mut self) -> (r: u8)
        requires
            old(self).wf(),
        ensures
            final(self).same_control(old(self)),
            final(self).memory@ == old(self).memory@,
            final(self).registers == (Registers {
                sp: wrap16(old(self).registers.sp + 1),
                ..old(self).registers
            }),
            r == old(self).memory@[wrap16(old(self).registers.sp + 1) as int],
    {
        let sp = (self.registers.sp + 1) % ADDRESS_SPACE;
        self.registers.sp = sp;
        self.memory.read(sp)
    }

    /// Moves PC to `address`.
    fn jump(&mut self, address: usize)
        requires
            old(self).wf(),
            address < ADDRESS_SPACE,
        ensures
            final(self).same_control(old(self)),
            final(self).memory@ == old(self).memory@,
            jumped(old(self).registers, final(self).registers, address),
    {
        self.registers.pc.jump(address);
    }

    /// Sets the zero flag when bit 7 of H is clear.
    fn cb_bit_7_h(&mut self)
        requires
            old(self).wf(),
        ensures
            final(self).executed(old(self), OptCode::CBBit7H),
    {
        proof {
            reveal(effect);
            reveal(Cpu::executed);
        }
        let bitstate = self.registers.bitstate(&RegisterType::H, 7);
        self.registers.f.set(FlagRegisterType::Zero, bitstate == 0);
    }

    fn cb_rl_n(&mut self, rt: RegisterType)
        requires
            old(self).wf(),
            is_byte_register(rt),
        ensures
            final(self).executed(old(self), OptCode::CBRLn(rt)),
    {
        proof {
            reveal(effect);
            reveal(Cpu::executed);
        }
        self.rl_n(rt);
    }
}

/// Executing `XOR A` (A xor A) leaves A zero, sets the zero flag and clears
/// the subtract, half-carry and carry flags, whatever the flags were before.
pub proof fn lemma_xor_a_clears<D: CpuDebugger>(before: Cpu<D>, after: Cpu<D>)
    requires
        after.executed(&before, OptCode::XORn(RegisterType::A)),
    ensures
        after.registers.a == 0,
        after.registers.f.flag(FlagRegisterType::Zero),
        !after.registers.f.flag(FlagRegisterType::Subt),
        !after.registers.f.flag(FlagRegisterType::Half),
        !after.registers.f.flag(FlagRegisterType::Carry),
{
    reveal(effect);
    reveal(Cpu::executed);
    let a = before.registers.a;
    assert(a ^ a == 0) by (bit_vector);
}

/// Pushing a pair and then popping into the same pair gives back its value,
/// and the stack pointer returns to where it was.
pub proof fn lemma_push_pop_round_trip<D: CpuDebugger>(
    s0: Cpu<D>,
    s1: Cpu<D>,
    s2: Cpu<D>,
    rt: RegisterType,
)
    requires
        s0.wf(),
        is_pair_register(rt),
        s1.executed(&s0, OptCode::PushNN(rt)),
        s2.executed(&s1, OptCode::PopNN(rt)),
    ensures
        s2.registers.pair(rt) == s0.registers.pair(rt),
        s2.registers.sp == s0.registers.sp,
{
    reveal(effect);
    reveal(Cpu::executed);
    s0.memory.lemma_wf();
    let v = s0.registers.pair(rt);
    assert(join_spec((v / 256) as u8, (v % 256) as u8) == v);
}

/// A call followed by a return comes back to the address after the call,
/// with the stack pointer where it was.
pub proof fn lemma_call_ret_round_trip<D: CpuDebugger>(
    s0: Cpu<D>,
    s1: Cpu<D>,
    s2: Cpu<D>,
    hi: u8,
    lo: u8,
)
    requires
        s0.wf(),
        s1.executed(&s0, OptCode::Call(hi, lo)),
        s2.executed(&s1, OptCode::RET),
    ensures
        s2.registers.pc@ == s0.registers.pc@ % 0x10000,
        s2.registers.sp == s0.registers.sp,
{
    reveal(effect);
    reveal(Cpu::executed);
    s0.memory.lemma_wf();
    let ret = s0.registers.pc@ % 0x10000;
    assert(join_spec((ret / 256) as u8, (ret % 256) as u8) == ret);
}

/// Executing an opcode without a table entry requests termination and
/// changes no register and no memory byte.
pub proof fn lemma_unrecognized_stops<D: CpuDebugger>(before: Cpu<D>, after: Cpu<D>, op: OptCode)
    requires
        is_unrecognized(op),
        after.executed(&before, op),
    ensures
        after.controls.quit,
        after.registers == before.registers,
        after.memory@ == before.memory@,
{
    reveal(effect);
    reveal(Cpu::executed);
}

/// `ADD` is an addition: whatever the flags were before, it leaves the
/// subtract flag clear, and the carry flag set exactly when the sum overflows.
pub proof fn lemma_add_clears_subtract<D: CpuDebugger>(
    before: Cpu<D>,
    after: Cpu<D>,
    dst: RegisterType,
    origin: RegisterType,
)
    requires
        after.executed(&before, OptCode::ADDnn(dst, origin)),
    ensures
        !after.registers.f.flag(FlagRegisterType::Subt),
        after.registers.f.flag(FlagRegisterType::Carry) == (before.registers.reg(dst) + add_operand(
            before.registers,
            before.memory@,
            origin,
        ) > 255),
{
    reveal(effect);
    reveal(Cpu::executed);
}

} // verus!
