pub mod util;
pub mod registers;
pub mod cartridge;
pub mod memorybus;
pub mod cpu;
