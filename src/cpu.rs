use vstd::prelude::*;

pub mod debugger;
pub mod optcode;
pub mod instructions;
pub mod timer;

use crate::cartridge;
use crate::memorybus::{self, Memory, ADDRESS_SPACE};
use crate::registers::Registers;
use debugger::{CpuDebugger, CpuDebuggerMessage};
use optcode::{operand_count, operand_len, table};
use timer::{DIV_ADDRESS, cycle_cost, cycles_after, divider_after};
use instructions::{effect, is_unrecognized};

verus! {

/// Where the cartridge's own code starts.
pub const ROM_INITIAL_ADDRESS: usize = 0x100;

/// Stack pointer value left behind by the boot program.
pub const SP_INITIAL_ADDRESS: usize = 0xFFFE;

/// Base of the memory-mapped I/O registers.
pub const FF00: usize = 0xFF00;

/// The register that the boot program writes 1 to when it hands over.
pub const BOOT_OFF_ADDRESS: usize = 0xFF50;

/// The LCD line register, preset to the start of vertical blank.
pub const LY_ADDRESS: usize = 0xFF44;

/// LCD status register.
pub const STAT_ADDRESS: usize = 0xFF41;

/// Background scroll registers.
pub const SCY_ADDRESS: usize = 0xFF42;

pub const SCX_ADDRESS: usize = 0xFF43;

/// LCD line compare register.
pub const LYC_ADDRESS: usize = 0xFF45;

/// Window position registers.
pub const WY_ADDRESS: usize = 0xFF4A;

pub const WX_ADDRESS: usize = 0xFF4B;

/// Value that `bootup` stores in the LCD line register.
pub const LY_VBLANK: u8 = 0x90;

/// PC values at which the boot program locks up on a logo or checksum mismatch.
pub const LOGO_TRAP: usize = 0xE9;

pub const CHECKSUM_TRAP: usize = 0xFA;

/// PC value at which the game phase stops.
pub const GAME_STOP: usize = 0x237;

/// Loop bookkeeping: the PC seen before the last instruction ran, whether the
/// boot phase is over, whether termination was requested, and the cycle count
/// at which the divider register last moved.
#[derive(Debug, Copy, Clone)]
pub struct Control {
    pub old_pc: usize,
    pub game_booted: bool,
    pub quit: bool,
    pub div_control: usize,
}

impl Default for Control {
    fn default() -> (r: Control)
        ensures
            r.old_pc == 0 && !r.game_booted && !r.quit && r.div_control == 0,
    {
        Control { old_pc: 0, game_booted: false, quit: false, div_control: 0 }
    }
}

/// The processor core: it owns the memory bus, the register file, the loop
/// bookkeeping and an optional debugger that observes it.
pub struct Cpu<D: CpuDebugger> {
    pub memory: Memory,
    pub registers: Registers,
    pub controls: Control,
    pub debugger: Option<D>,
}

/// A cartridge image that the bus can hold.
pub open spec fn rom_fits(gamerom: Seq<u8>) -> bool {
    cartridge::HEADER_END <= gamerom.len() <= memorybus::MEMORY_SIZE
}

/// A core over the given ROM image, with all registers and memory zero.
pub fn initialize<D: CpuDebugger>(gamerom: Vec<u8>, debugger: Option<D>) -> (r: Cpu<D>)
    requires
        rom_fits(gamerom@),
    ensures
        r.wf(),
        r.memory.cart()@ == gamerom@,
        r.memory@ == Seq::new(ADDRESS_SPACE as nat, |i: int| 0u8),
        r.registers.all_zero(),
        r.controls == (Control { old_pc: 0, game_booted: false, quit: false, div_control: 0 }),
        r.debugger == debugger,
{
    let cartridge = cartridge::new(gamerom);
    let memory = memorybus::new(cartridge);
    Cpu { memory, registers: Registers::default(), controls: Control::default(), debugger }
}

impl<D: CpuDebugger> Cpu<D> {
    /// The registers, memory and loop bookkeeping.
    pub open spec fn state(&self) -> (Registers, Seq<u8>, Control) {
        (self.registers, self.memory@, self.controls)
    }

    /// The invariant of the core: a well-formed bus, a program counter at most
    /// one past the last address, a 16-bit stack pointer, and a divider mark
    /// that never runs ahead of the cycle count.
    pub open spec fn wf(&self) -> bool {
        &&& self.memory.wf()
        &&& self.registers.pc@ <= ADDRESS_SPACE
        &&& self.registers.sp < ADDRESS_SPACE
        &&& self.controls.div_control <= self.registers.clock_cycles
    }

    /// Fetches the byte at PC and walks PC past it.
    fn read_instruction(&mut self) -> (r: u8)
        requires
            old(self).wf(),
            old(self).registers.pc@ < ADDRESS_SPACE,
        ensures
            final(self).wf(),
            r == old(self).memory@[old(self).registers.pc@ as int],
            final(self).registers.pc@ == old(self).registers.pc@ + 1,
            final(self).registers == (Registers { pc: final(self).registers.pc, ..old(self).registers }),
            final(self).memory == old(self).memory,
            final(self).controls == old(self).controls,
            final(self).debugger == old(self).debugger,
    {
        proof {
            self.memory.lemma_wf();
        }
        let m = self.memory.read(self.registers.pc.value());
        self.registers.pc.walk();
        m
    }

    /// `self` is `old` apart from the debugger's own state.
    pub open spec fn observed(&self, old: &Cpu<D>) -> bool {
        &&& self.memory == old.memory
        &&& self.registers == old.registers
        &&& self.controls == old.controls
        &&& (self.debugger is Some <==> old.debugger is Some)
    }

    fn initialize_debugger(&mut self)
        requires
            old(self).wf(),
        ensures
            final(self).observed(old(self)),
    {
        if self.debugger.is_some() {
            let title = self.memory.cartridge_title();
            if let Some(d) = &mut self.debugger {
                d.message(CpuDebuggerMessage::CatridgeTitle(title));
                d.initialize();
            }
        }
    }

    /// The register snapshot handed to the debugger on each tick.
    pub open spec fn registers_snapshot(&self) -> CpuDebuggerMessage {
        CpuDebuggerMessage::Registers {
            a: self.registers.a,
            b: self.registers.b,
            c: self.registers.c,
            d: self.registers.d,
            e: self.registers.e,
            g: self.registers.g,
            h: self.registers.h,
            l: self.registers.l,
            pc: self.registers.pc@,
            sp: self.registers.sp,
        }
    }

    /// The video-timing cells handed to the debugger on each tick.
    pub open spec fn display_snapshot(&self) -> CpuDebuggerMessage {
        CpuDebuggerMessage::Display {
            stat: self.memory@[STAT_ADDRESS as int],
            scy: self.memory@[SCY_ADDRESS as int],
            scx: self.memory@[SCX_ADDRESS as int],
            ly: self.memory@[LY_ADDRESS as int],
            lyc: self.memory@[LYC_ADDRESS as int],
            wy: self.memory@[WY_ADDRESS as int],
            wx: self.memory@[WX_ADDRESS as int],
        }
    }

    /// Builds the register snapshot: all 8-bit registers, PC and SP.
    pub fn registers_message(&self) -> (m: CpuDebuggerMessage)
        ensures
            m == self.registers_snapshot(),
    {
        CpuDebuggerMessage::Registers {
            a: self.registers.a,
            b: self.registers.b,
            c: self.registers.c,
            d: self.registers.d,
            e: self.registers.e,
            g: self.registers.g,
            h: self.registers.h,
            l: self.registers.l,
            pc: self.registers.pc.value(),
            sp: self.registers.sp,
        }
    }

    /// Builds the snapshot of the video-timing cells.
    pub fn display_message(&self) -> (m: CpuDebuggerMessage)
        requires
            self.wf(),
        ensures
            m == self.display_snapshot(),
    {
        proof {
            self.memory.lemma_wf();
        }
        CpuDebuggerMessage::Display {
            stat: self.memory.read(STAT_ADDRESS),
            scy: self.memory.read(SCY_ADDRESS),
            scx: self.memory.read(SCX_ADDRESS),
            ly: self.memory.read(LY_ADDRESS),
            lyc: self.memory.read(LYC_ADDRESS),
            wy: self.memory.read(WY_ADDRESS),
            wx: self.memory.read(WX_ADDRESS),
        }
    }

    /// Hands the debugger, if any, `registers_snapshot()` then
    /// `display_snapshot()`, then lets it tick.
    fn tick_debugger(&mut self)
        requires
            old(self).wf(),
        ensures
            final(self).observed(old(self)),
    {
        if self.debugger.is_some() {
            let registers = self.registers_message();
            let display = self.display_message();
            if let Some(d) = &mut self.debugger {
                d.message(registers);
                d.message(display);
                d.tick();
            }
        }
    }

    fn quit_debugger(&mut self)
        requires
            old(self).wf(),
        ensures
            final(self).observed(old(self)),
    {
        if let Some(d) = &mut self.debugger {
            d.quit();
        }
    }

    fn message_debugger(&mut self, msg: CpuDebuggerMessage)
        requires
            old(self).wf(),
        ensures
            final(self).observed(old(self)),
    {
        if let Some(d) = &mut self.debugger {
            d.message(msg);
        }
    }
}

/// The instruction that starts at `pc` lies wholly inside the address space.
pub open spec fn fetchable(mem: Seq<u8>, pc: usize) -> bool {
    pc < ADDRESS_SPACE && pc + 1 + operand_count(mem[pc as int]) <= ADDRESS_SPACE
}

/// One fetch-decode-execute-tick cycle takes the registers, memory and loop
/// bookkeeping `s` to `t`. An instruction that would run past the end of the
/// address space is not fetched: termination is requested and nothing else
/// changes. Otherwise the instruction at PC is decoded, PC moves past it and
/// is recorded as the last PC, the instruction is executed, its cycles are
/// added and the divider register moves when it is due.
pub open spec fn steps(s: (Registers, Seq<u8>, Control), t: (Registers, Seq<u8>, Control)) -> bool {
    let m0 = s.1;
    let pc = s.0.pc@;
    &&& t.2.game_booted == s.2.game_booted
    &&& (s.2.quit ==> t.2.quit)
    &&& t.0.clock_cycles >= s.0.clock_cycles
    &&& (t.2.quit || t.0.clock_cycles > s.0.clock_cycles)
    &&& !fetchable(m0, pc) ==> {
        &&& t.1 == m0
        &&& t.0 == s.0
        &&& t.2 == (Control { quit: true, ..s.2 })
    }
    &&& fetchable(m0, pc) ==> ({
        let op = table(m0[pc as int], m0[pc + 1], m0[pc + 2]);
        let next = pc + 1 + operand_count(m0[pc as int]);
        let cost = cycle_cost(op);
        let c0 = s.0.clock_cycles;
        let c1 = cycles_after(c0, cost);
        &&& t.2.old_pc == next
        &&& t.0.clock_cycles == c1
        &&& t.2.quit == (s.2.quit || is_unrecognized(op) || cost == 0 || c0 + cost > usize::MAX)
        &&& exists|r1: Registers, r2: Registers, m2: Seq<u8>|
            #![trigger effect(op, r1, m0, r2, m2)]
            {
                let after = divider_after(c1, s.2.div_control, m2[DIV_ADDRESS as int]);
                &&& r1 == Registers { pc: r1.pc, ..s.0 }
                &&& r1.pc@ == next
                &&& effect(op, r1, m0, r2, m2)
                &&& t.0 == (Registers { clock_cycles: c1, ..r2 })
                &&& t.2.div_control == after.0
                &&& t.1 == m2.update(DIV_ADDRESS as int, after.1)
            }
    })
}

/// What the boot phase does before each cycle: a 1 in the boot-off register
/// ends the phase, and a jump onto one of the two lock-up addresses requests
/// termination.
pub open spec fn boot_entry(s: (Registers, Seq<u8>, Control)) -> (Registers, Seq<u8>, Control) {
    let pc = s.0.pc@;
    (
        s.0,
        s.1,
        Control {
            game_booted: s.2.game_booted || s.1[BOOT_OFF_ADDRESS as int] == 1,
            quit: s.2.quit || (s.2.old_pc != pc && (pc == LOGO_TRAP || pc == CHECKSUM_TRAP)),
            ..s.2
        },
    )
}

/// One iteration of the boot phase takes `s` to `t`.
pub open spec fn boot_iter(s: (Registers, Seq<u8>, Control), t: (Registers, Seq<u8>, Control)) -> bool {
    steps(boot_entry(s), t)
}

/// One iteration of the game phase takes `s` to `t`: a cycle, after which
/// reaching `GAME_STOP` requests termination.
pub open spec fn game_iter(s: (Registers, Seq<u8>, Control), t: (Registers, Seq<u8>, Control)) -> bool {
    exists|q: bool|
        #![trigger steps(s, (t.0, t.1, Control { quit: q, ..t.2 }))]
        steps(s, (t.0, t.1, Control { quit: q, ..t.2 })) && t.2.quit == (q || t.0.pc@ == GAME_STOP)
}

/// `n` iterations of the boot phase take `s` to `t`, the phase going on after
/// each but the last.
pub open spec fn boot_trace(
    s: (Registers, Seq<u8>, Control),
    t: (Registers, Seq<u8>, Control),
    n: nat,
) -> bool
    decreases n,
{
    if n <= 1 {
        n == 1 && boot_iter(s, t)
    } else {
        exists|mid: (Registers, Seq<u8>, Control)|
            #![trigger boot_iter(mid, t)]
            {
                &&& boot_trace(s, mid, (n - 1) as nat)
                &&& !mid.2.quit
                &&& !mid.2.game_booted
                &&& boot_iter(mid, t)
            }
    }
}

/// `n` iterations of the game phase take `s` to `t`, the phase going on after
/// each but the last.
pub open spec fn game_trace(
    s: (Registers, Seq<u8>, Control),
    t: (Registers, Seq<u8>, Control),
    n: nat,
) -> bool
    decreases n,
{
    if n <= 1 {
        n == 1 && game_iter(s, t)
    } else {
        exists|mid: (Registers, Seq<u8>, Control)|
            #![trigger game_iter(mid, t)]
            {
                &&& game_trace(s, mid, (n - 1) as nat)
                &&& !mid.2.quit
                &&& game_iter(mid, t)
            }
    }
}

/// After the boot phase left `b`: unless it ended without handing over, or
/// with termination requested, the ROM image `rom` is copied into memory and
/// the game phase runs to `t`; otherwise nothing more happens.
pub open spec fn run_from_game(
    b: (Registers, Seq<u8>, Control),
    rom: Seq<u8>,
    t: (Registers, Seq<u8>, Control),
) -> bool {
    if b.2.game_booted && !b.2.quit {
        exists|n: nat| #![trigger game_trace(with_rom(b, rom), t, n)] game_trace(with_rom(b, rom), t, n)
    } else {
        t == b
    }
}

/// `s` with the cartridge image `rom` copied over memory from address 0.
pub open spec fn with_rom(s: (Registers, Seq<u8>, Control), rom: Seq<u8>) -> (Registers, Seq<u8>, Control) {
    (s.0, Seq::new(ADDRESS_SPACE as nat, |i: int| if i < rom.len() { rom[i] } else { s.1[i] }), s.2)
}

impl<D: CpuDebugger> Cpu<D> {
    /// Runs one fetch-decode-execute-tick cycle. An instruction that would run
    /// past the end of the address space is not fetched: termination is
    /// requested instead and nothing else changes.
    pub fn step(&mut self)
        requires
            old(self).wf(),
        ensures
            final(self).wf(),
            final(self).memory.cart() == old(self).memory.cart(),
            final(self).debugger is Some <==> old(self).debugger is Some,
            steps(old(self).state(), final(self).state()),
    {
        let pc = self.registers.pc.value();
        proof {
            self.memory.lemma_wf();
        }
        if pc >= ADDRESS_SPACE {
            self.controls.quit = true;
            return;
        }
        let first = self.memory.read(pc);
        if pc + 1 + operand_len(first) > ADDRESS_SPACE {
            self.controls.quit = true;
            return;
        }
        let ghost m0 = self.memory@;
        let inst = self.read_instruction();
        let optcode = self.decode(inst);
        self.controls.old_pc = self.registers.pc.value();
        let ghost r1 = self.registers;
        self.message_debugger(CpuDebuggerMessage::OptCode(optcode));
        self.execute(&optcode);
        proof {
            reveal(Cpu::executed);
        }
        let ghost r2 = self.registers;
        let ghost m2 = self.memory@;
        self.timer_tick(&optcode);
        assert(effect(optcode, r1, m0, r2, m2));
    }
}

impl<D: CpuDebugger> Cpu<D> {
    /// Copies a boot image to address 0; with none, sets up the state the
    /// boot program would leave behind and marks the boot phase as over.
    fn load_bootrom(&mut self, bootrom: Option<Vec<u8>>)
        requires
            old(self).wf(),
            bootrom matches Some(b) ==> b@.len() <= ADDRESS_SPACE,
        ensures
            final(self).wf(),
            final(self).memory.cart() == old(self).memory.cart(),
            final(self).debugger == old(self).debugger,
            final(self).controls.quit == old(self).controls.quit,
            final(self).controls.old_pc == old(self).controls.old_pc,
            final(self).controls.div_control == old(self).controls.div_control,
            final(self).registers.clock_cycles == old(self).registers.clock_cycles,
            bootrom matches Some(b) ==> {
                &&& final(self).memory@ == Seq::new(
                    ADDRESS_SPACE as nat,
                    |i: int| if i < b@.len() { b@[i] } else { old(self).memory@[i] },
                )
                &&& final(self).registers == old(self).registers
                &&& final(self).controls == old(self).controls
            },
            bootrom is None ==> {
                &&& final(self).memory@ == old(self).memory@.update(BOOT_OFF_ADDRESS as int, 1)
                &&& final(self).registers == (Registers {
                    a: 1,
                    pc: final(self).registers.pc,
                    sp: SP_INITIAL_ADDRESS,
                    ..old(self).registers
                })
                &&& final(self).registers.pc@ == ROM_INITIAL_ADDRESS
                &&& final(self).controls.game_booted
            },
    {
        proof {
            self.memory.lemma_wf();
        }
        match bootrom {
            Some(b) => {
                let ghost start = self.memory@;
                let mut i: usize = 0;
                while i < b.len()
                    invariant
                        i <= b@.len() <= ADDRESS_SPACE,
                        start.len() == ADDRESS_SPACE,
                        self.wf(),
                        self.memory.cart() == old(self).memory.cart(),
                        self.registers == old(self).registers,
                        self.controls == old(self).controls,
                        self.debugger == old(self).debugger,
                        start == old(self).memory@,
                        self.memory@ == Seq::new(
                            ADDRESS_SPACE as nat,
                            |j: int| if j < i { b@[j] } else { start[j] },
                        ),
                    decreases b@.len() - i,
                {
                    let ghost prev = self.memory@;
                    self.memory.write(i, b[i]);
                    i = i + 1;
                    assert(self.memory@ =~= Seq::new(
                        ADDRESS_SPACE as nat,
                        |j: int| if j < i { b@[j] } else { start[j] },
                    ));
                }
            },
            None => {
                self.registers.a = 1;
                self.memory.write(BOOT_OFF_ADDRESS, self.registers.a);
                self.registers.pc.jump(ROM_INITIAL_ADDRESS);
                self.registers.sp = SP_INITIAL_ADDRESS;
                self.controls.game_booted = true;
            },
        }
    }

    fn load_gamerom(&mut self)
        requires
            old(self).wf(),
        ensures
            final(self).wf(),
            final(self).memory.cart() == old(self).memory.cart(),
            final(self).memory@ == Seq::new(
                ADDRESS_SPACE as nat,
                |i: int|
                    if i < old(self).memory.cart()@.len() {
                        old(self).memory.cart()@[i]
                    } else {
                        old(self).memory@[i]
                    },
            ),
            final(self).registers == old(self).registers,
            final(self).controls == old(self).controls,
            final(self).debugger == old(self).debugger,
    {
        self.memory.load_cartridge_rom();
    }

    /// Prepares the machine: copies the cartridge header, then the boot image
    /// or, without one, the state the boot program leaves behind; presets the
    /// LCD line register and initializes the debugger.
    pub fn bootup(&mut self, bootrom: Option<Vec<u8>>)
        requires
            old(self).wf(),
            bootrom matches Some(b) ==> b@.len() <= ADDRESS_SPACE,
        ensures
            final(self).wf(),
            final(self).memory.cart() == old(self).memory.cart(),
            final(self).debugger is Some <==> old(self).debugger is Some,
            final(self).controls.quit == old(self).controls.quit,
            final(self).controls.game_booted == (old(self).controls.game_booted || bootrom is None),
            final(self).memory@[LY_ADDRESS as int] == LY_VBLANK,
            forall|i: int|
                0 <= i < cartridge::HEADER_END && !(bootrom matches Some(b) && i < b@.len())
                    ==> final(self).memory@[i] == old(self).memory.cart()@[i],
            bootrom matches Some(b) ==> forall|i: int|
                0 <= i < b@.len() && i != LY_ADDRESS ==> #[trigger] final(self).memory@[i] == b@[i],
            bootrom matches Some(b) ==> final(self).registers == old(self).registers,
            bootrom is None ==> {
                &&& final(self).registers.a == 1
                &&& final(self).registers.pc@ == ROM_INITIAL_ADDRESS
                &&& final(self).registers.sp == SP_INITIAL_ADDRESS
                &&& final(self).memory@[BOOT_OFF_ADDRESS as int] == 1
            },
    {
        self.memory.load_cartridge_header();
        self.load_bootrom(bootrom);
        self.memory.write(LY_ADDRESS, LY_VBLANK);
        self.initialize_debugger();
    }

    /// The boot phase: runs the boot program until it hands over (by writing 1
    /// to the boot-off register) or termination is requested. Reaching one of
    /// the two lock-up addresses by a jump requests termination.
    fn run_bootrom(&mut self)
        requires
            old(self).wf(),
        ensures
            final(self).wf(),
            final(self).memory.cart() == old(self).memory.cart(),
            final(self).debugger is Some <==> old(self).debugger is Some,
            final(self).registers.clock_cycles >= old(self).registers.clock_cycles,
            final(self).controls.quit || final(self).controls.game_booted,
            exists|n: nat| boot_trace(old(self).state(), final(self).state(), n),
    {
        let ghost start = self.state();
        let ghost mut n: nat = 0;
        loop
            invariant_except_break
                n > 0 ==> boot_trace(start, self.state(), n) && !self.controls.quit
                    && !self.controls.game_booted,
            invariant
                self.wf(),
                self.registers.clock_cycles >= old(self).registers.clock_cycles,
                self.memory.cart() == old(self).memory.cart(),
                self.debugger is Some <==> old(self).debugger is Some,
                start == old(self).state(),
                n == 0 ==> self.state() == start,
            ensures
                self.wf(),
                self.registers.clock_cycles >= old(self).registers.clock_cycles,
                self.memory.cart() == old(self).memory.cart(),
                self.debugger is Some <==> old(self).debugger is Some,
                self.controls.quit || self.controls.game_booted,
                boot_trace(start, self.state(), n),
            decreases usize::MAX - self.registers.clock_cycles,
        {
            let ghost before = self.state();
            self.tick_debugger();
            proof {
                self.memory.lemma_wf();
            }
            if self.memory.read(BOOT_OFF_ADDRESS) == 1 {
                self.controls.game_booted = true;
            }
            let pc = self.registers.pc.value();
            if self.controls.old_pc != pc && (pc == LOGO_TRAP || pc == CHECKSUM_TRAP) {
                self.controls.quit = true;
            }
            assert(self.state() == boot_entry(before));
            self.step();
            proof {
                assert(boot_iter(before, self.state()));
                n = n + 1;
            }
            if self.controls.quit || self.controls.game_booted {
                break;
            }
        }
    }

    /// The game phase: runs the cartridge until termination is requested;
    /// reaching `GAME_STOP` requests it.
    fn run_game(&mut self)
        requires
            old(self).wf(),
        ensures
            final(self).wf(),
            final(self).memory.cart() == old(self).memory.cart(),
            final(self).debugger is Some <==> old(self).debugger is Some,
            final(self).registers.clock_cycles >= old(self).registers.clock_cycles,
            final(self).controls.quit,
            final(self).controls.game_booted == old(self).controls.game_booted,
            exists|n: nat| game_trace(old(self).state(), final(self).state(), n),
    {
        let ghost start = self.state();
        let ghost mut n: nat = 0;
        loop
            invariant_except_break
                n > 0 ==> game_trace(start, self.state(), n) && !self.controls.quit,
            invariant
                self.wf(),
                self.registers.clock_cycles >= old(self).registers.clock_cycles,
                self.memory.cart() == old(self).memory.cart(),
                self.debugger is Some <==> old(self).debugger is Some,
                start == old(self).state(),
                n == 0 ==> self.state() == start,
                self.controls.game_booted == old(self).controls.game_booted,
            ensures
                self.controls.game_booted == old(self).controls.game_booted,
                self.wf(),
                self.registers.clock_cycles >= old(self).registers.clock_cycles,
                self.memory.cart() == old(self).memory.cart(),
                self.debugger is Some <==> old(self).debugger is Some,
                self.controls.quit,
                game_trace(start, self.state(), n),
            decreases usize::MAX - self.registers.clock_cycles,
        {
            let ghost before = self.state();
            self.tick_debugger();
            self.step();
            let ghost q = self.controls.quit;
            let ghost mid = self.state();
            if self.registers.pc.value() == GAME_STOP {
                self.controls.quit = true;
            }
            proof {
                assert(mid == (self.state().0, self.state().1, Control { quit: q, ..self.state().2 }));
                assert(steps(before, (self.state().0, self.state().1, Control { quit: q, ..self.state().2 })));
                assert(game_iter(before, self.state()));
                n = n + 1;
            }
            if self.controls.quit {
                self.quit_debugger();
                break;
            }
        }
    }

    /// Runs the boot phase (unless it is already over), then, unless
    /// termination was requested, copies the whole ROM into memory and runs
    /// the game phase. Always ends with termination requested.
    pub fn run(&mut self)
        requires
            old(self).wf(),
        ensures
            final(self).wf(),
            final(self).memory.cart() == old(self).memory.cart(),
            final(self).debugger is Some <==> old(self).debugger is Some,
            final(self).controls.quit,
            final(self).registers.clock_cycles >= old(self).registers.clock_cycles,
            old(self).controls.game_booted ==> final(self).controls.game_booted,
            old(self).controls.game_booted ==> run_from_game(
                old(self).state(),
                old(self).memory.cart()@,
                final(self).state(),
            ),
            !old(self).controls.game_booted ==> exists|b: (Registers, Seq<u8>, Control), n: nat|
                #![trigger boot_trace(old(self).state(), b, n)]
                boot_trace(old(self).state(), b, n) && run_from_game(
                    b,
                    old(self).memory.cart()@,
                    final(self).state(),
                ),
    {
        if !self.controls.game_booted {
            self.run_bootrom();
        }
        let ghost b = self.state();
        if self.controls.game_booted && !self.controls.quit {
            self.load_gamerom();
            assert(self.state() =~~= with_rom(b, old(self).memory.cart()@));
            self.run_game();
        }
    }
}
} // verus!
