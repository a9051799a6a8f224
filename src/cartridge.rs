use vstd::prelude::*;

verus! {

/// First address of the header window.
pub const HEADER_START: usize = 0x0;

/// End (exclusive) of the header window that is copied at boot.
pub const HEADER_END: usize = 0x14F;

/// First byte of the title field.
pub const TITLE_START: usize = 0x134;

/// End (exclusive) of the title field.
pub const TITLE_END: usize = 0x13E;

pub const CART_TYPE_ADDRESS: usize = 0x147;

pub const DESTINATION_ADDRESS: usize = 0x14A;

pub const LICENSEE_ADDRESS: usize = 0x14B;

pub const HEADER_CHECKSUM_ADDRESS: usize = 0x14D;

/// What `String::from_utf8_lossy` makes of a byte sequence.
pub uninterp spec fn lossy_text(b: Seq<u8>) -> Seq<char>;

/// Bytes below 0x80 are ASCII, which reads as the same characters.
pub open spec fn is_ascii_bytes(b: Seq<u8>) -> bool {
    forall|i: int| 0 <= i < b.len() ==> b[i] < 0x80
}

/// Relies on `String::from_utf8_lossy`: it decodes UTF-8, replacing invalid
/// sequences, and an all-ASCII input reads as one character per byte.
#[verifier::external_body]
fn utf8_lossy(bytes: &Vec<u8>) -> (r: String)
    ensures
        r@ == lossy_text(bytes@),
        is_ascii_bytes(bytes@) ==> r@ == bytes@.map_values(|c: u8| c as char),
{
    String::from_utf8_lossy(bytes.as_slice()).into_owned()
}

/// The header checksum accumulated over the bytes from 0x134 up to (not
/// including) `n`: each step subtracts the byte and then 1, wrapping at 8 bits.
pub open spec fn checksum_upto(rom: Seq<u8>, n: int) -> u8
    decreases n,
{
    if n <= TITLE_START as int {
        0
    } else {
        ((checksum_upto(rom, n - 1) as int - rom[n - 1] as int - 1) % 256) as u8
    }
}

/// Name of a destination code.
pub open spec fn destination_name(code: u8) -> Seq<char> {
    if code == 0 {
        "Japanese"@
    } else if code == 1 {
        "Non-Japanese"@
    } else {
        "Not defined"@
    }
}

/// Name of a licensee code.
pub open spec fn licensee_name(code: u8) -> Seq<char> {
    if code == 0 {
        "None"@
    } else if code == 1 {
        "Nintendo R&D1"@
    } else {
        "Not defined"@
    }
}

/// Name of a cartridge type.
pub open spec fn cart_type_name(code: u8) -> Seq<char> {
    if code == 0 {
        "Rom Only"@
    } else {
        "Not defined"@
    }
}

/// An immutable ROM image.
pub struct Cartridge {
    game_rom: Vec<u8>,
}

impl View for Cartridge {
    type V = Seq<u8>;

    closed spec fn view(&self) -> Seq<u8> {
        self.game_rom@
    }
}

/// A cartridge over the given ROM image.
pub fn new(gamerom: Vec<u8>) -> (r: Cartridge)
    ensures
        r@ == gamerom@,
{
    Cartridge { game_rom: gamerom }
}

impl Cartridge {
    /// The image holds the whole header window.
    pub open spec fn has_header(&self) -> bool {
        self@.len() >= HEADER_END
    }

    pub fn rom_len(&self) -> (r: usize)
        ensures
            r == self@.len(),
    {
        self.game_rom.len()
    }

    pub fn header_start(&self) -> (r: usize)
        ensures
            r == HEADER_START,
    {
        HEADER_START
    }

    pub fn header_end(&self) -> (r: usize)
        ensures
            r == HEADER_END,
    {
        HEADER_END
    }

    /// The title field, bytes 0x134 to 0x13D, read as text.
    pub fn title(&self) -> (r: String)
        requires
            self.has_header(),
        ensures
            r@ == lossy_text(self@.subrange(TITLE_START as int, TITLE_END as int)),
            is_ascii_bytes(self@.subrange(TITLE_START as int, TITLE_END as int)) ==> r@
                == self@.subrange(TITLE_START as int, TITLE_END as int).map_values(
                |c: u8| c as char,
            ),
    {
        let mut bytes: Vec<u8> = Vec::new();
        let mut i: usize = TITLE_START;
        while i < TITLE_END
            invariant
                TITLE_START <= i <= TITLE_END,
                self.has_header(),
                bytes@ == self@.subrange(TITLE_START as int, i as int),
            decreases TITLE_END - i,
        {
            bytes.push(self.game_rom[i]);
            i = i + 1;
            assert(bytes@ =~= self@.subrange(TITLE_START as int, i as int));
        }
        utf8_lossy(&bytes)
    }

    pub fn destination_code(&self) -> (r: String)
        requires
            self.has_header(),
        ensures
            r@ == destination_name(self@[DESTINATION_ADDRESS as int]),
    {
        let code = self.read(DESTINATION_ADDRESS);
        if code == 0 {
            "Japanese".to_string()
        } else if code == 1 {
            "Non-Japanese".to_string()
        } else {
            "Not defined".to_string()
        }
    }

    pub fn licensee_code(&self) -> (r: String)
        requires
            self.has_header(),
        ensures
            r@ == licensee_name(self@[LICENSEE_ADDRESS as int]),
    {
        let code = self.read(LICENSEE_ADDRESS);
        if code == 0 {
            "None".to_string()
        } else if code == 1 {
            "Nintendo R&D1".to_string()
        } else {
            "Not defined".to_string()
        }
    }

    pub fn cart_type(&self) -> (r: String)
        requires
            self.has_header(),
        ensures
            r@ == cart_type_name(self@[CART_TYPE_ADDRESS as int]),
    {
        let code = self.read(CART_TYPE_ADDRESS);
        if code == 0 {
            "Rom Only".to_string()
        } else {
            "Not defined".to_string()
        }
    }

    pub fn read(&self, address: usize) -> (r: u8)
        requires
            address < self@.len(),
        ensures
            r == self@[address as int],
    {
        self.game_rom[address]
    }

    /// The checksum declared in the header (byte 0x14D).
    pub fn header_checksum(&self) -> (r: u8)
        requires
            self.has_header(),
        ensures
            r == self@[HEADER_CHECKSUM_ADDRESS as int],
    {
        self.read(HEADER_CHECKSUM_ADDRESS)
    }

    /// The header checksum recomputed over bytes 0x134 to 0x14C.
    pub fn calculate_header_checksum(&self) -> (r: u8)
        requires
            self.has_header(),
        ensures
            r == checksum_upto(self@, HEADER_CHECKSUM_ADDRESS as int),
    {
        let mut x: u8 = 0;
        let mut i: usize = TITLE_START;
        while i < HEADER_CHECKSUM_ADDRESS
            invariant
                TITLE_START <= i <= HEADER_CHECKSUM_ADDRESS,
                self.has_header(),
                x == checksum_upto(self@, i as int),
            decreases HEADER_CHECKSUM_ADDRESS - i,
        {
            let b = self.read(i);
            let y = x.wrapping_sub(b);
            assert(y == ((x as int - b as int) % 256) as u8);
            x = y.wrapping_sub(1);
            assert(x == ((y as int - 1) % 256) as u8);
            i = i + 1;
        }
        x
    }
}

} // verus!
