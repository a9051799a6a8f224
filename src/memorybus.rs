use vstd::prelude::*;

use crate::cartridge::{Cartridge, HEADER_END, checksum_upto, destination_name, licensee_name, cart_type_name, lossy_text, TITLE_START, TITLE_END, DESTINATION_ADDRESS, LICENSEE_ADDRESS, CART_TYPE_ADDRESS, HEADER_CHECKSUM_ADDRESS};

verus! {

/// Size of the general backing array; address 0xFFFF is not part of it.
pub const MEMORY_SIZE: usize = 0xFFFF;

/// The interrupt-enable register, held in a cell of its own.
pub const IE_ADDRESS: usize = 0xFFFF;

/// Number of addressable bytes, 0x0000 through 0xFFFF.
pub const ADDRESS_SPACE: usize = 0x10000;

/// The memory bus: a flat byte array for addresses below 0xFFFF, a separate
/// interrupt-enable cell at 0xFFFF, and the cartridge it owns.
pub struct Memory {
    ram: Vec<u8>,
    cartridge: Cartridge,
    ime: u8,
}

impl View for Memory {
    type V = Seq<u8>;

    /// All 0x10000 addressable bytes, the interrupt-enable cell last.
    closed spec fn view(&self) -> Seq<u8> {
        self.ram@.push(self.ime)
    }
}

/// A cartridge that holds its header and fits in the address space.
pub open spec fn cartridge_fits(c: Cartridge) -> bool {
    c.has_header() && c@.len() <= MEMORY_SIZE
}

/// A bus with every byte zero, owning `cartridge`.
pub fn new(cartridge: Cartridge) -> (r: Memory)
    requires
        cartridge_fits(cartridge),
    ensures
        r.wf(),
        r.cart() == cartridge,
        r@ == Seq::new(ADDRESS_SPACE as nat, |i: int| 0u8),
{
    let r = Memory { ram: vec![0u8; MEMORY_SIZE], cartridge, ime: 0 };
    assert(r@ =~= Seq::new(ADDRESS_SPACE as nat, |i: int| 0u8));
    r
}

impl Memory {
    pub closed spec fn wf(&self) -> bool {
        &&& self.ram@.len() == MEMORY_SIZE
        &&& cartridge_fits(self.cartridge)
    }

    /// The cartridge the bus owns.
    pub closed spec fn cart(&self) -> Cartridge {
        self.cartridge
    }

    pub proof fn lemma_wf(&self)
        requires
            self.wf(),
        ensures
            self@.len() == ADDRESS_SPACE,
            cartridge_fits(self.cart()),
    {
    }

    /// Reads one byte; 0xFFFF reads the interrupt-enable cell.
    pub fn read(&self, address: usize) -> (r: u8)
        requires
            self.wf(),
            address < ADDRESS_SPACE,
        ensures
            r == self@[address as int],
    {
        if address == IE_ADDRESS {
            self.ime
        } else {
            self.ram[address]
        }
    }

    /// Writes one byte; 0xFFFF writes the interrupt-enable cell.
    pub fn write(&mut self, address: usize, value: u8)
        requires
            old(self).wf(),
            address < ADDRESS_SPACE,
        ensures
            final(self).wf(),
            final(self).cart() == old(self).cart(),
            final(self)@ == old(self)@.update(address as int, value),
    {
        if address == IE_ADDRESS {
            self.ime = value;
        } else {
            self.ram.set(address, value);
        }
        assert(self@ =~= old(self)@.update(address as int, value));
    }

    pub fn memory_size(&self) -> (r: usize)
        ensures
            r == MEMORY_SIZE,
    {
        MEMORY_SIZE
    }

    fn copy_from_cartridge(&mut self, end: usize)
        requires
            old(self).wf(),
            end <= old(self).cart()@.len(),
        ensures
            final(self).wf(),
            final(self).cart() == old(self).cart(),
            final(self)@ == Seq::new(
                ADDRESS_SPACE as nat,
                |i: int| if i < end { old(self).cart()@[i] } else { old(self)@[i] },
            ),
    {
        let ghost start = self@;
        let mut i: usize = 0;
        while i < end
            invariant
                i <= end,
                end <= self.cart()@.len(),
                start.len() == ADDRESS_SPACE,
                self.wf(),
                self.cart() == old(self).cart(),
                self@ == Seq::new(
                    ADDRESS_SPACE as nat,
                    |j: int| if j < i { self.cart()@[j] } else { start[j] },
                ),
            decreases end - i,
        {
            let b = self.cartridge.read(i);
            let ghost prev = self@;
            self.ram.set(i, b);
            assert(self@ =~= prev.update(i as int, b));
            i = i + 1;
            assert(self@ =~= Seq::new(
                ADDRESS_SPACE as nat,
                |j: int| if j < i { self.cart()@[j] } else { start[j] },
            ));
        }
    }

    /// Copies cartridge bytes 0x0000..0x014F to the same addresses.
    pub fn load_cartridge_header(&mut self)
        requires
            old(self).wf(),
        ensures
            final(self).wf(),
            final(self).cart() == old(self).cart(),
            final(self)@ == Seq::new(
                ADDRESS_SPACE as nat,
                |i: int| if i < HEADER_END { old(self).cart()@[i] } else { old(self)@[i] },
            ),
    {
        let e = self.cartridge.header_end();
        self.copy_from_cartridge(e);
    }

    /// Copies the whole cartridge ROM to the same addresses.
    pub fn load_cartridge_rom(&mut self)
        requires
            old(self).wf(),
        ensures
            final(self).wf(),
            final(self).cart() == old(self).cart(),
            final(self)@ == Seq::new(
                ADDRESS_SPACE as nat,
                |i: int| if i < old(self).cart()@.len() { old(self).cart()@[i] } else { old(self)@[i] },
            ),
    {
        let e = self.cartridge.rom_len();
        self.copy_from_cartridge(e);
    }

    pub fn cartridge_title(&self) -> (r: String)
        requires
            self.wf(),
        ensures
            r@ == lossy_text(self.cart()@.subrange(TITLE_START as int, TITLE_END as int)),
    {
        self.cartridge.title()
    }

    pub fn destination_code(&self) -> (r: String)
        requires
            self.wf(),
        ensures
            r@ == destination_name(self.cart()@[DESTINATION_ADDRESS as int]),
    {
        self.cartridge.destination_code()
    }

    pub fn licensee_code(&self) -> (r: String)
        requires
            self.wf(),
        ensures
            r@ == licensee_name(self.cart()@[LICENSEE_ADDRESS as int]),
    {
        self.cartridge.licensee_code()
    }

    pub fn cartridge_type(&self) -> (r: String)
        requires
            self.wf(),
        ensures
            r@ == cart_type_name(self.cart()@[CART_TYPE_ADDRESS as int]),
    {
        self.cartridge.cart_type()
    }

    /// The declared and the recomputed header checksum.
    pub fn cartridge_header_checksum(&self) -> (r: (u8, u8))
        requires
            self.wf(),
        ensures
            r.0 == self.cart()@[HEADER_CHECKSUM_ADDRESS as int],
            r.1 == checksum_upto(self.cart()@, HEADER_CHECKSUM_ADDRESS as int),
    {
        (self.cartridge.header_checksum(), self.cartridge.calculate_header_checksum())
    }
}

} // verus!
