use vstd::prelude::*;

use super::{Control, Cpu};
use super::debugger::CpuDebugger;
use super::optcode::OptCode;
use crate::registers::{FlagRegisterType, RegisterType, Registers, is_pair_register};

verus! {

/// Address of the divider register.
pub const DIV_ADDRESS: usize = 0xFF04;

/// Cycles between two increments of the divider register.
pub const DIV_FREQUENCY: usize = 256;

/// The byte registers that the cycle table lists.
pub open spec fn is_listed_register(rt: RegisterType) -> bool {
    match rt {
        RegisterType::A | RegisterType::B | RegisterType::C | RegisterType::D | RegisterType::E
        | RegisterType::H | RegisterType::L => true,
        _ => false,
    }
}

fn listed_register(rt: RegisterType) -> (r: bool)
    ensures
        r == is_listed_register(rt),
{
    match rt {
        RegisterType::A | RegisterType::B | RegisterType::C | RegisterType::D | RegisterType::E
        | RegisterType::H | RegisterType::L => true,
        _ => false,
    }
}

/// Clock cycles that `op` costs; 0 where the table defines no cost.
pub open spec fn cycle_cost(op: OptCode) -> usize {
    match op {
        OptCode::LDnnA(_, _) | OptCode::PushNN(_) => 16,
        OptCode::Call(_, _) | OptCode::JPnn(_, _) | OptCode::LDHnA(_) | OptCode::LDHAn(_)
        | OptCode::LDDHLA => 12,
        OptCode::INCn(rt) => if rt == RegisterType::SP {
            12
        } else if is_listed_register(rt) {
            4
        } else {
            0
        },
        OptCode::LDnn(rt, _, _) => if rt == RegisterType::BC || rt == RegisterType::DE || rt
            == RegisterType::HL || rt == RegisterType::SP {
            12
        } else {
            0
        },
        OptCode::JRn(_) | OptCode::LDCA | OptCode::LDIHLA | OptCode::CBBit7H | OptCode::CPnValue(_)
        | OptCode::CPnAddress(_) | OptCode::RET => 8,
        OptCode::PopNN(rt) => if is_pair_register(rt) {
            8
        } else {
            0
        },
        OptCode::CBRLn(rt) | OptCode::LDNNn(rt, _) => if is_listed_register(rt) {
            8
        } else {
            0
        },
        OptCode::LDNnAddress(rt, _) => if rt == RegisterType::DE {
            8
        } else {
            0
        },
        OptCode::LDnA(rt) => if rt == RegisterType::BC || rt == RegisterType::DE || rt
            == RegisterType::HL {
            8
        } else {
            0
        },
        OptCode::JRCCn(k, _, _) => if k == FlagRegisterType::Zero || k == FlagRegisterType::Carry {
            8
        } else {
            0
        },
        OptCode::INCnn(rt) => if rt == RegisterType::BC || rt == RegisterType::DE || rt
            == RegisterType::HL || rt == RegisterType::SP {
            8
        } else {
            0
        },
        OptCode::ADDnn(dst, src) => if dst == RegisterType::A && src == RegisterType::HL {
            8
        } else {
            0
        },
        OptCode::DI | OptCode::EI | OptCode::NOP => 4,
        OptCode::SUBn(rt) | OptCode::DecN(rt) | OptCode::XORn(rt) => if is_listed_register(rt) {
            4
        } else {
            0
        },
        OptCode::LDNn(from, to) => if (is_listed_register(from) && to == RegisterType::A) || (from
            == RegisterType::A && is_listed_register(to)) {
            4
        } else {
            0
        },
        OptCode::RLn(rt) => if rt == RegisterType::A {
            4
        } else {
            0
        },
        _ => 0,
    }
}

fn cost_of(op: &OptCode) -> (r: usize)
    ensures
        r == cycle_cost(*op),
{
    match *op {
        OptCode::LDnnA(_, _) | OptCode::PushNN(_) => 16,
        OptCode::Call(_, _) | OptCode::JPnn(_, _) | OptCode::LDHnA(_) | OptCode::LDHAn(_)
        | OptCode::LDDHLA => 12,
        OptCode::INCn(rt) => if rt == RegisterType::SP {
            12
        } else if listed_register(rt) {
            4
        } else {
            0
        },
        OptCode::LDnn(rt, _, _) => if rt == RegisterType::BC || rt == RegisterType::DE || rt
            == RegisterType::HL || rt == RegisterType::SP {
            12
        } else {
            0
        },
        OptCode::JRn(_) | OptCode::LDCA | OptCode::LDIHLA | OptCode::CBBit7H | OptCode::CPnValue(_)
        | OptCode::CPnAddress(_) | OptCode::RET => 8,
        OptCode::PopNN(rt) => if rt == RegisterType::AF || rt == RegisterType::BC || rt
            == RegisterType::DE || rt == RegisterType::HL {
            8
        } else {
            0
        },
        OptCode::CBRLn(rt) | OptCode::LDNNn(rt, _) => if listed_register(rt) {
            8
        } else {
            0
        },
        OptCode::LDNnAddress(rt, _) => if rt == RegisterType::DE {
            8
        } else {
            0
        },
        OptCode::LDnA(rt) => if rt == RegisterType::BC || rt == RegisterType::DE || rt
            == RegisterType::HL {
            8
        } else {
            0
        },
        OptCode::JRCCn(k, _, _) => if k == FlagRegisterType::Zero || k == FlagRegisterType::Carry {
            8
        } else {
            0
        },
        OptCode::INCnn(rt) => if rt == RegisterType::BC || rt == RegisterType::DE || rt
            == RegisterType::HL || rt == RegisterType::SP {
            8
        } else {
            0
        },
        OptCode::ADDnn(dst, src) => if dst == RegisterType::A && src == RegisterType::HL {
            8
        } else {
            0
        },
        OptCode::DI | OptCode::EI | OptCode::NOP => 4,
        OptCode::SUBn(rt) | OptCode::DecN(rt) | OptCode::XORn(rt) => if listed_register(rt) {
            4
        } else {
            0
        },
        OptCode::LDNn(from, to) => if (listed_register(from) && to == RegisterType::A) || (from
            == RegisterType::A && listed_register(to)) {
            4
        } else {
            0
        },
        OptCode::RLn(rt) => if rt == RegisterType::A {
            4
        } else {
            0
        },
        _ => 0,
    }
}

/// The divider moves when at least `DIV_FREQUENCY` cycles have passed since
/// the cycle count `mark` at which it last moved.
pub open spec fn divider_due(cycles: usize, mark: usize) -> bool {
    cycles - mark >= DIV_FREQUENCY
}

/// The cycle count after adding `cost` to `cycles`; it stays put where the
/// sum would not fit.
pub open spec fn cycles_after(cycles: usize, cost: usize) -> usize {
    if cycles + cost <= usize::MAX {
        (cycles + cost) as usize
    } else {
        cycles
    }
}

impl<D: CpuDebugger> Cpu<D> {
    /// Accounts for the cycles of `optcode` and moves the divider register.
    /// An instruction without a cost, or a cycle count that would overflow,
    /// requests termination.
    pub fn timer_tick(&mut self, optcode: &OptCode)
        requires
            old(self).wf(),
        ensures
            ({
                let cost = cycle_cost(*optcode);
                let c0 = old(self).registers.clock_cycles;
                let c1 = cycles_after(c0, cost);
                let mark = old(self).controls.div_control;
                let m = old(self).memory@;
                let after = divider_after(c1, mark, m[DIV_ADDRESS as int]);
                &&& final(self).wf()
                &&& final(self).registers == (Registers { clock_cycles: c1, ..old(self).registers })
                &&& final(self).controls.quit == (old(self).controls.quit || cost == 0 || c0 + cost
                    > usize::MAX)
                &&& final(self).controls.div_control == after.0
                &&& final(self).memory@ == m.update(DIV_ADDRESS as int, after.1)
                &&& final(self).controls.old_pc == old(self).controls.old_pc
                &&& final(self).controls.game_booted == old(self).controls.game_booted
                &&& final(self).memory.cart() == old(self).memory.cart()
                &&& final(self).debugger == old(self).debugger
            }),
    {
        self.clock_timing(optcode);
        let ghost m = self.memory@;
        proof {
            self.memory.lemma_wf();
        }
        self.div();
        assert(m.update(DIV_ADDRESS as int, m[DIV_ADDRESS as int]) =~= m);
    }

    fn div(&mut self)
        requires
            old(self).wf(),
        ensures
            final(self).wf(),
            final(self).registers == old(self).registers,
            final(self).memory.cart() == old(self).memory.cart(),
            final(self).debugger == old(self).debugger,
            if divider_due(old(self).registers.clock_cycles, old(self).controls.div_control) {
                &&& final(self).memory@ == old(self).memory@.update(
                    DIV_ADDRESS as int,
                    ((old(self).memory@[DIV_ADDRESS as int] + 1) % 256) as u8,
                )
                &&& final(self).controls == (Control {
                    div_control: old(self).registers.clock_cycles,
                    ..old(self).controls
                })
            } else {
                &&& final(self).memory@ == old(self).memory@
                &&& final(self).controls == old(self).controls
            },
    {
        let cc_elapsed = self.registers.clock_cycles() - self.controls.div_control;
        if cc_elapsed >= DIV_FREQUENCY {
            let v = self.memory.read(DIV_ADDRESS);
            self.memory.write(DIV_ADDRESS, v.wrapping_add(1));
            self.controls.div_control = self.registers.clock_cycles();
        }
    }

    fn clock_timing(&mut self, optcode: &OptCode)
        requires
            old(self).wf(),
        ensures
            ({
                let cost = cycle_cost(*optcode);
                let c0 = old(self).registers.clock_cycles;
                &&& final(self).wf()
                &&& final(self).registers == (Registers {
                    clock_cycles: cycles_after(c0, cost),
                    ..old(self).registers
                })
                &&& final(self).controls == (Control {
                    quit: old(self).controls.quit || cost == 0 || c0 + cost > usize::MAX,
                    ..old(self).controls
                })
                &&& final(self).memory == old(self).memory
                &&& final(self).debugger == old(self).debugger
            }),
    {
        let clock_cycles = cost_of(optcode);
        if clock_cycles == 0 {
            self.controls.quit = true;
        }
        if self.registers.clock_cycles() <= usize::MAX - clock_cycles {
            self.registers.add_clock_cycles(clock_cycles);
        } else {
            self.controls.quit = true;
        }
    }
}

/// The divider mark and value after the cycle count reached `cycles`.
pub open spec fn divider_after(cycles: usize, mark: usize, div: u8) -> (usize, u8) {
    if divider_due(cycles, mark) {
        (cycles, ((div + 1) % 256) as u8)
    } else {
        (mark, div)
    }
}

/// Starting from a mark `mark` with divider value `div`, the divider stays
/// put while the cycle count is under `mark + DIV_FREQUENCY`; at the first
/// count `c1` at or past it, it moves by exactly one and the mark becomes
/// `c1`; from there it stays put again for every count under
/// `c1 + DIV_FREQUENCY`.
pub proof fn lemma_divider_cadence(mark: usize, c0: usize, c1: usize, c2: usize, div: u8)
    requires
        mark <= c0 < mark + DIV_FREQUENCY,
        mark + DIV_FREQUENCY <= c1,
        c1 <= c2 < c1 + DIV_FREQUENCY,
    ensures
        divider_after(c0, mark, div) == (mark, div),
        divider_after(c1, mark, div) == (c1, ((div + 1) % 256) as u8),
        divider_after(c2, c1, ((div + 1) % 256) as u8) == (c1, ((div + 1) % 256) as u8),
{
}

} // verus!
