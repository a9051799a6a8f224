use vstd::prelude::*;

use crate::util::{join_bytes, join_spec, split_bytes};

verus! {

pub const ZERO_FLAG_POSITION: u8 = 7;

pub const SUBT_FLAG_POSITION: u8 = 6;

pub const HALF_FLAG_POSITION: u8 = 5;

pub const CARRY_FLAG_POSITION: u8 = 4;

/// The four condition flags held in the flag register.
#[derive(Debug, Copy, Clone, PartialEq, Eq, Structural)]
pub enum FlagRegisterType {
    Zero,
    Subt,
    Half,
    Carry,
}

/// Bit position of each flag inside the flag byte.
pub open spec fn flag_position(k: FlagRegisterType) -> u8 {
    match k {
        FlagRegisterType::Zero => ZERO_FLAG_POSITION,
        FlagRegisterType::Subt => SUBT_FLAG_POSITION,
        FlagRegisterType::Half => HALF_FLAG_POSITION,
        FlagRegisterType::Carry => CARRY_FLAG_POSITION,
    }
}

/// Bit `p` of `v`, as 0 or 1.
pub open spec fn bit_of(v: u8, p: u8) -> u8 {
    (v >> p) & 1u8
}

proof fn lemma_bit_update(v: u8, p: u8, q: u8)
    requires
        4 <= p < 8,
        q < 8,
    ensures
        bit_of(v | (1u8 << p), q) == (if q == p { 1u8 } else { bit_of(v, q) }),
        bit_of(v & !(1u8 << p), q) == (if q == p { 0u8 } else { bit_of(v, q) }),
        (v | (1u8 << p)) & 0x0Fu8 == v & 0x0Fu8,
        (v & !(1u8 << p)) & 0x0Fu8 == v & 0x0Fu8,
        bit_of(v, q) <= 1,
{
    assert(bit_of(v | (1u8 << p), q) == (if q == p { 1u8 } else { bit_of(v, q) })) by (bit_vector)
        requires
            p < 8,
            q < 8,
    ;
    assert(bit_of(v & !(1u8 << p), q) == (if q == p { 0u8 } else { bit_of(v, q) })) by (bit_vector)
        requires
            p < 8,
            q < 8,
    ;
    assert((v | (1u8 << p)) & 0x0Fu8 == v & 0x0Fu8) by (bit_vector)
        requires
            4 <= p < 8,
    ;
    assert((v & !(1u8 << p)) & 0x0Fu8 == v & 0x0Fu8) by (bit_vector)
        requires
            4 <= p < 8,
    ;
    assert(bit_of(v, q) <= 1) by (bit_vector)
        requires
            q < 8,
    ;
}

/// The flag byte: Zero at bit 7, Subtract at bit 6, Half-carry at bit 5 and
/// Carry at bit 4; the low nibble is reserved and never changed by the setters.
#[derive(Debug, Copy, Clone)]
pub struct FlagRegister {
    value: u8,
}

impl View for FlagRegister {
    type V = u8;

    closed spec fn view(&self) -> u8 {
        self.value
    }
}

impl Default for FlagRegister {
    fn default() -> (r: FlagRegister)
        ensures
            r@ == 0,
    {
        FlagRegister { value: 0 }
    }
}

impl FlagRegister {
    /// Whether flag `k` is set.
    pub open spec fn flag(&self, k: FlagRegisterType) -> bool {
        bit_of(self@, flag_position(k)) == 1
    }

    /// `self` is `old` with flag `k` set to `state` and the rest of the byte kept.
    pub open spec fn changes_only(&self, old: FlagRegister, k: FlagRegisterType, state: bool) -> bool {
        &&& self.flag(k) == state
        &&& forall|j: FlagRegisterType| j != k ==> #[trigger] self.flag(j) == old.flag(j)
        &&& self@ & 0x0F == old@ & 0x0F
    }

    /// A flag register holding the byte `value` as it is.
    pub fn from_value(value: u8) -> (r: FlagRegister)
        ensures
            r@ == value,
    {
        FlagRegister { value }
    }

    fn set_mask(&mut self, position: u8)
        requires
            position == ZERO_FLAG_POSITION || position == SUBT_FLAG_POSITION
                || position == HALF_FLAG_POSITION || position == CARRY_FLAG_POSITION,
        ensures
            final(self)@ == old(self)@ | (1u8 << position),
    {
        self.value = self.value | (1u8 << position);
    }

    fn unset_mask(&mut self, position: u8)
        requires
            position == ZERO_FLAG_POSITION || position == SUBT_FLAG_POSITION
                || position == HALF_FLAG_POSITION || position == CARRY_FLAG_POSITION,
        ensures
            final(self)@ == old(self)@ & !(1u8 << position),
    {
        self.value = self.value & !(1u8 << position);
    }

    fn flag_state(&self, position: u8) -> (r: u8)
        requires
            position < 8,
        ensures
            r == bit_of(self@, position),
            r <= 1,
    {
        let v = self.value;
        assert(bit_of(v, position) <= 1) by (bit_vector)
            requires
                position < 8,
        ;
        (v >> position) & 1u8
    }

    /// Sets flag `k` to `state`, leaving the other flags and the low nibble as they are.
    pub fn set(&mut self, k: FlagRegisterType, state: bool)
        ensures
            final(self).changes_only(*old(self), k, state),
    {
        let position = match k {
            FlagRegisterType::Zero => ZERO_FLAG_POSITION,
            FlagRegisterType::Subt => SUBT_FLAG_POSITION,
            FlagRegisterType::Half => HALF_FLAG_POSITION,
            FlagRegisterType::Carry => CARRY_FLAG_POSITION,
        };
        let ghost v = self@;
        if state {
            self.set_mask(position);
        } else {
            self.unset_mask(position);
        }
        proof {
            lemma_bit_update(v, position, ZERO_FLAG_POSITION);
            lemma_bit_update(v, position, SUBT_FLAG_POSITION);
            lemma_bit_update(v, position, HALF_FLAG_POSITION);
            lemma_bit_update(v, position, CARRY_FLAG_POSITION);
            assert forall|j: FlagRegisterType| j != k implies #[trigger] self.flag(j) == old(
                self,
            ).flag(j) by {
                lemma_bit_update(v, position, flag_position(j));
            }
        }
    }

    pub fn set_zero(&mut self)
        ensures
            final(self).changes_only(*old(self), FlagRegisterType::Zero, true),
    {
        self.set(FlagRegisterType::Zero, true)
    }

    pub fn unset_zero(&mut self)
        ensures
            final(self).changes_only(*old(self), FlagRegisterType::Zero, false),
    {
        self.set(FlagRegisterType::Zero, false)
    }

    pub fn set_sub(&mut self)
        ensures
            final(self).changes_only(*old(self), FlagRegisterType::Subt, true),
    {
        self.set(FlagRegisterType::Subt, true)
    }

    pub fn unset_sub(&mut self)
        ensures
            final(self).changes_only(*old(self), FlagRegisterType::Subt, false),
    {
        self.set(FlagRegisterType::Subt, false)
    }

    pub fn set_half_carry(&mut self)
        ensures
            final(self).changes_only(*old(self), FlagRegisterType::Half, true),
    {
        self.set(FlagRegisterType::Half, true)
    }

    pub fn unset_half_carry(&mut self)
        ensures
            final(self).changes_only(*old(self), FlagRegisterType::Half, false),
    {
        self.set(FlagRegisterType::Half, false)
    }

    pub fn set_carry(&mut self)
        ensures
            final(self).changes_only(*old(self), FlagRegisterType::Carry, true),
    {
        self.set(FlagRegisterType::Carry, true)
    }

    pub fn unset_carry(&mut self)
        ensures
            final(self).changes_only(*old(self), FlagRegisterType::Carry, false),
    {
        self.set(FlagRegisterType::Carry, false)
    }

    /// State of flag `k`: 1 when set, 0 when clear.
    pub fn get(&self, k: FlagRegisterType) -> (r: u8)
        ensures
            r == (if self.flag(k) { 1u8 } else { 0u8 }),
    {
        match k {
            FlagRegisterType::Zero => self.zero_flag(),
            FlagRegisterType::Subt => self.subtract_flag(),
            FlagRegisterType::Half => self.half_carry_flag(),
            FlagRegisterType::Carry => self.carry_flag(),
        }
    }

    pub fn zero_flag(&self) -> (r: u8)
        ensures
            r == (if self.flag(FlagRegisterType::Zero) { 1u8 } else { 0u8 }),
    {
        self.flag_state(ZERO_FLAG_POSITION)
    }

    pub fn subtract_flag(&self) -> (r: u8)
        ensures
            r == (if self.flag(FlagRegisterType::Subt) { 1u8 } else { 0u8 }),
    {
        self.flag_state(SUBT_FLAG_POSITION)
    }

    pub fn half_carry_flag(&self) -> (r: u8)
        ensures
            r == (if self.flag(FlagRegisterType::Half) { 1u8 } else { 0u8 }),
    {
        self.flag_state(HALF_FLAG_POSITION)
    }

    pub fn carry_flag(&self) -> (r: u8)
        ensures
            r == (if self.flag(FlagRegisterType::Carry) { 1u8 } else { 0u8 }),
    {
        self.flag_state(CARRY_FLAG_POSITION)
    }

    /// Clears the four flags, keeping the low nibble.
    pub fn reset(&mut self)
        ensures
            forall|k: FlagRegisterType| !#[trigger] final(self).flag(k),
            final(self)@ & 0x0F == old(self)@ & 0x0F,
    {
        let v = self.value;
        self.value = v & 0x0Fu8;
        assert(bit_of(v & 0x0Fu8, 7) == 0 && bit_of(v & 0x0Fu8, 6) == 0 && bit_of(v & 0x0Fu8, 5)
            == 0 && bit_of(v & 0x0Fu8, 4) == 0 && (v & 0x0Fu8) & 0x0Fu8 == v & 0x0Fu8) by (bit_vector);
        assert forall|k: FlagRegisterType| !#[trigger] self.flag(k) by {
            match k {
                FlagRegisterType::Zero => {},
                FlagRegisterType::Subt => {},
                FlagRegisterType::Half => {},
                FlagRegisterType::Carry => {},
            }
        }
    }

    /// The whole flag byte.
    pub fn value(&self) -> (r: u8)
        ensures
            r == self@,
    {
        self.value
    }
}

/// Register names used by the instruction operands. `F` is the flag
/// register, `G` an internal slot with no pair, `CC` a condition operand.
#[derive(Debug, Copy, Clone, PartialEq, Eq, Structural)]
pub enum RegisterType {
    A,
    B,
    C,
    D,
    E,
    F,
    G,
    H,
    L,
    AF,
    BC,
    DE,
    HL,
    PC,
    SP,
    CC,
}

/// The registers that name an 8-bit slot.
pub open spec fn is_byte_register(rt: RegisterType) -> bool {
    match rt {
        RegisterType::A | RegisterType::B | RegisterType::C | RegisterType::D | RegisterType::E
        | RegisterType::G | RegisterType::H | RegisterType::L => true,
        _ => false,
    }
}

/// The registers that name a 16-bit pair.
pub open spec fn is_pair_register(rt: RegisterType) -> bool {
    match rt {
        RegisterType::AF | RegisterType::BC | RegisterType::DE | RegisterType::HL => true,
        _ => false,
    }
}

/// The program counter: a cursor over the address space.
#[derive(Debug, Copy, Clone)]
pub struct ProgramCounter {
    value: usize,
}

impl View for ProgramCounter {
    type V = usize;

    closed spec fn view(&self) -> usize {
        self.value
    }
}

impl Default for ProgramCounter {
    fn default() -> (r: ProgramCounter)
        ensures
            r@ == 0,
    {
        ProgramCounter { value: 0 }
    }
}

impl ProgramCounter {
    pub fn value(&self) -> (r: usize)
        ensures
            r == self@,
    {
        self.value
    }

    /// Walks the counter to the next position and returns that position.
    pub fn walk(&mut self) -> (r: usize)
        requires
            old(self)@ < usize::MAX,
        ensures
            final(self)@ == old(self)@ + 1,
            r == final(self)@,
    {
        self.value = self.next();
        self.value
    }

    /// The position after the current one.
    pub fn next(&self) -> (r: usize)
        requires
            self@ < usize::MAX,
        ensures
            r == self@ + 1,
    {
        self.value + 1
    }

    pub fn jump(&mut self, address: usize)
        ensures
            final(self)@ == address,
    {
        self.value = address;
    }
}

/// The register file: eight 8-bit slots, the flag register, the program
/// counter, the stack pointer and the count of elapsed clock cycles.
#[derive(Debug, Copy, Clone)]
pub struct Registers {
    pub a: u8,
    pub b: u8,
    pub c: u8,
    pub d: u8,
    pub e: u8,
    pub f: FlagRegister,
    pub g: u8,
    pub h: u8,
    pub l: u8,
    pub pc: ProgramCounter,
    pub sp: usize,
    pub clock_cycles: usize,
}

impl Default for Registers {
    fn default() -> (r: Registers)
        ensures
            r.all_zero(),
    {
        Registers {
            a: 0,
            b: 0,
            c: 0,
            d: 0,
            e: 0,
            f: FlagRegister::default(),
            g: 0,
            h: 0,
            l: 0,
            pc: ProgramCounter::default(),
            sp: 0,
            clock_cycles: 0,
        }
    }
}

impl Registers {
    /// Every register, the flags and the cycle count are zero.
    pub open spec fn all_zero(self) -> bool {
        &&& self.a == 0 && self.b == 0 && self.c == 0 && self.d == 0 && self.e == 0
        &&& self.g == 0 && self.h == 0 && self.l == 0
        &&& self.f@ == 0 && self.pc@ == 0 && self.sp == 0 && self.clock_cycles == 0
    }

    /// Clock cycles elapsed so far.
    pub open spec fn cycles(&self) -> usize {
        self.clock_cycles
    }

    /// The value of an 8-bit slot.
    pub open spec fn reg(&self, rt: RegisterType) -> u8 {
        match rt {
            RegisterType::A => self.a,
            RegisterType::B => self.b,
            RegisterType::C => self.c,
            RegisterType::D => self.d,
            RegisterType::E => self.e,
            RegisterType::G => self.g,
            RegisterType::H => self.h,
            RegisterType::L => self.l,
            _ => 0,
        }
    }

    /// The register file with the 8-bit slot `rt` replaced by `v`.
    pub open spec fn with_reg(self, rt: RegisterType, v: u8) -> Registers {
        match rt {
            RegisterType::A => Registers { a: v, ..self },
            RegisterType::B => Registers { b: v, ..self },
            RegisterType::C => Registers { c: v, ..self },
            RegisterType::D => Registers { d: v, ..self },
            RegisterType::E => Registers { e: v, ..self },
            RegisterType::G => Registers { g: v, ..self },
            RegisterType::H => Registers { h: v, ..self },
            RegisterType::L => Registers { l: v, ..self },
            _ => self,
        }
    }

    /// The value of a register pair, high byte first.
    pub open spec fn pair(&self, rt: RegisterType) -> u16 {
        match rt {
            RegisterType::AF => join_spec(self.a, self.f@),
            RegisterType::BC => join_spec(self.b, self.c),
            RegisterType::DE => join_spec(self.d, self.e),
            RegisterType::HL => join_spec(self.h, self.l),
            _ => 0,
        }
    }

    /// `self` equals `old` apart from the pair `rt`, which holds `v`.
    pub open spec fn pair_updated(self, old: Registers, rt: RegisterType, v: u16) -> bool {
        &&& self.pair(rt) == v
        &&& match rt {
            RegisterType::AF => self == Registers { a: self.a, f: self.f, ..old },
            RegisterType::BC => self == Registers { b: self.b, c: self.c, ..old },
            RegisterType::DE => self == Registers { d: self.d, e: self.e, ..old },
            RegisterType::HL => self == Registers { h: self.h, l: self.l, ..old },
            _ => self == old,
        }
    }

    pub fn set_hl(&mut self, value: u16)
        ensures
            final(self).pair_updated(*old(self), RegisterType::HL, value),
    {
        self.set2(&RegisterType::HL, value)
    }

    pub fn set_de(&mut self, value: u16)
        ensures
            final(self).pair_updated(*old(self), RegisterType::DE, value),
    {
        self.set2(&RegisterType::DE, value)
    }

    pub fn set_bc(&mut self, value: u16)
        ensures
            final(self).pair_updated(*old(self), RegisterType::BC, value),
    {
        self.set2(&RegisterType::BC, value)
    }

    pub fn af(&self) -> (r: u16)
        ensures
            r == self.pair(RegisterType::AF),
    {
        join_bytes(self.a, self.f.value())
    }

    pub fn bc(&self) -> (r: u16)
        ensures
            r == self.pair(RegisterType::BC),
    {
        join_bytes(self.b, self.c)
    }

    pub fn de(&self) -> (r: u16)
        ensures
            r == self.pair(RegisterType::DE),
    {
        join_bytes(self.d, self.e)
    }

    pub fn hl(&self) -> (r: u16)
        ensures
            r == self.pair(RegisterType::HL),
    {
        join_bytes(self.h, self.l)
    }

    /// Decrements HL, wrapping from 0 to 0xFFFF.
    pub fn dec_hl(&mut self)
        ensures
            final(self).pair_updated(
                *old(self),
                RegisterType::HL,
                ((old(self).pair(RegisterType::HL) + 0xFFFF) % 0x10000) as u16,
            ),
    {
        self.dec2(&RegisterType::HL);
    }

    pub fn sp_goto(&mut self, address: usize)
        ensures
            *final(self) == (Registers { sp: address, ..*old(self) }),
    {
        self.sp = address;
    }

    pub fn add_clock_cycles(&mut self, cost: usize)
        requires
            old(self).cycles() + cost <= usize::MAX,
        ensures
            final(self).cycles() == old(self).cycles() + cost,
            *final(self) == (Registers { clock_cycles: final(self).clock_cycles, ..*old(self) }),
    {
        self.clock_cycles = self.clock_cycles + cost;
    }

    pub fn clock_cycles(&self) -> (r: usize)
        ensures
            r == self.cycles(),
    {
        self.clock_cycles
    }

    /// Bit `position` of the 8-bit slot `rt`, as 0 or 1.
    pub fn bitstate(&self, rt: &RegisterType, position: u8) -> (r: u8)
        requires
            is_byte_register(*rt),
            position < 8,
        ensures
            r == bit_of(self.reg(*rt), position),
            r <= 1,
    {
        let value = self.get(rt);
        assert(bit_of(value, position) <= 1) by (bit_vector)
            requires
                position < 8,
        ;
        (value >> position) & 1u8
    }

    /// Replaces the slot `rt` by its value shifted right by `position`, with bit 0 set.
    pub fn set_bitstate(&mut self, rt: &RegisterType, position: u8)
        requires
            is_byte_register(*rt),
            position < 8,
        ensures
            *final(self) == old(self).with_reg(*rt, (old(self).reg(*rt) >> position) | 1u8),
    {
        let value = self.get(rt);
        self.set(rt, (value >> position) | 1u8);
    }

    /// Writes the 8-bit slot `rt`.
    pub fn set(&mut self, rt: &RegisterType, value: u8)
        requires
            is_byte_register(*rt),
        ensures
            *final(self) == old(self).with_reg(*rt, value),
    {
        match rt {
            RegisterType::A => self.a = value,
            RegisterType::B => self.b = value,
            RegisterType::C => self.c = value,
            RegisterType::D => self.d = value,
            RegisterType::E => self.e = value,
            RegisterType::G => self.g = value,
            RegisterType::H => self.h = value,
            _ => self.l = value,
        }
    }

    /// Writes the pair `rt`: the high byte goes to the first register of the
    /// pair, the low byte to the second.
    pub fn set2(&mut self, rt: &RegisterType, value: u16)
        requires
            is_pair_register(*rt),
        ensures
            final(self).pair_updated(*old(self), *rt, value),
    {
        let (hi, lo) = split_bytes(value);
        match rt {
            RegisterType::AF => {
                self.a = hi;
                self.f = FlagRegister::from_value(lo);
            },
            RegisterType::DE => {
                self.d = hi;
                self.e = lo;
            },
            RegisterType::HL => {
                self.h = hi;
                self.l = lo;
            },
            _ => {
                self.b = hi;
                self.c = lo;
            },
        }
    }

    /// Reads the 8-bit slot `rt`.
    pub fn get(&self, rt: &RegisterType) -> (r: u8)
        requires
            is_byte_register(*rt),
        ensures
            r == self.reg(*rt),
    {
        match rt {
            RegisterType::A => self.a,
            RegisterType::B => self.b,
            RegisterType::C => self.c,
            RegisterType::D => self.d,
            RegisterType::E => self.e,
            RegisterType::G => self.g,
            RegisterType::H => self.h,
            _ => self.l,
        }
    }

    /// Reads the pair `rt`, high byte first.
    pub fn get2(&self, rt: &RegisterType) -> (r: u16)
        requires
            is_pair_register(*rt),
        ensures
            r == self.pair(*rt),
    {
        match rt {
            RegisterType::AF => self.af(),
            RegisterType::BC => self.bc(),
            RegisterType::DE => self.de(),
            _ => self.hl(),
        }
    }

    /// Increments the pair `rt`, wrapping from 0xFFFF to 0.
    pub fn inc2(&mut self, rt: &RegisterType)
        requires
            is_pair_register(*rt),
        ensures
            final(self).pair_updated(
                *old(self),
                *rt,
                ((old(self).pair(*rt) + 1) % 0x10000) as u16,
            ),
    {
        let value = self.get2(rt);
        self.set2(rt, value.wrapping_add(1));
    }

    /// Decrements the pair `rt`, wrapping from 0 to 0xFFFF.
    pub fn dec2(&mut self, rt: &RegisterType)
        requires
            is_pair_register(*rt),
        ensures
            final(self).pair_updated(
                *old(self),
                *rt,
                ((old(self).pair(*rt) + 0xFFFF) % 0x10000) as u16,
            ),
    {
        let value = self.get2(rt);
        self.set2(rt, value.wrapping_sub(1));
    }
}

/// Writing a pair and reading it back gives the value written, for each of
/// BC, DE and HL, and for any 16-bit value.
pub proof fn lemma_pair_round_trip(before: Registers, after: Registers, rt: RegisterType, v: u16)
    requires
        rt == RegisterType::BC || rt == RegisterType::DE || rt == RegisterType::HL,
        after.pair_updated(before, rt, v),
    ensures
        after.pair(rt) == v,
{
}

} // verus!
