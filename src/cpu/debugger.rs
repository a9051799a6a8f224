use vstd::prelude::*;

use super::optcode::OptCode;

verus! {

/// What the core tells an attached debugger.
#[derive(Debug)]
pub enum CpuDebuggerMessage {
    CatridgeTitle(String),
    OptCode(OptCode),
    Registers {
        a: u8,
        b: u8,
        c: u8,
        d: u8,
        e: u8,
        g: u8,
        h: u8,
        l: u8,
        pc: usize,
        sp: usize,
    },
    Display {
        stat: u8,
        scy: u8,
        scx: u8,
        wy: u8,
        wx: u8,
        ly: u8,
        lyc: u8,
    },
}

/// An observer of the core. It is handed copies of the state and never
/// touches the core itself.
pub trait CpuDebugger {
    /// Called once, after boot-time memory setup and before the first fetch.
    fn initialize(&mut self);

    /// Called once per loop iteration, after the state snapshot was sent.
    fn tick(&mut self);

    /// Called once when the game phase ends.
    fn quit(&mut self);

    /// Delivers one message.
    fn message(&mut self, msg: CpuDebuggerMessage);
}

/// A debugger that ignores everything: the core runs headless.
pub struct Headless;

impl CpuDebugger for Headless {
    fn initialize(&mut self) {
    }

    fn tick(&mut self) {
    }

    fn quit(&mut self) {
    }

    fn message(&mut self, msg: CpuDebuggerMessage) {
    }
}

} // verus!
