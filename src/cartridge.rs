//! Cartridge images: header parsing and the memory bank controller.

use vstd::prelude::*;

verus! {

/// Images shorter than this hold no complete header.
pub const HEADER_END: usize = 0x150;

/// Size of one switchable ROM bank.
pub const ROM_BANK_SIZE: usize = 0x4000;

/// Size of one switchable external-RAM bank.
pub const RAM_BANK_SIZE: usize = 0x2000;

/// Largest ROM-size code of the header (8 MiB).
pub const MAX_ROM_SIZE_CODE: u8 = 8;

/// Bank controller variant, from header byte 0x147.
#[derive(Debug, Clone, Copy, PartialEq, Eq, Structural)]
pub enum CartridgeType {
    RomOnly,
    Mbc1,
    Mbc3,
    Mbc5,
    Unknown(u8),
}

impl CartridgeType {
    /// Controllers that interpret writes into the ROM range.
    pub open spec fn banked(self) -> bool {
        self is Mbc1 || self is Mbc3 || self is Mbc5
    }

    pub fn is_banked(&self) -> (r: bool)
        ensures
            r == self.banked(),
    {
        matches!(self, CartridgeType::Mbc1 | CartridgeType::Mbc3 | CartridgeType::Mbc5)
    }

    /// False for a controller byte that this core does not recognise; such a
    /// cartridge still loads and behaves as a ROM-only one.
    pub fn is_supported(&self) -> (r: bool)
        ensures
            r == !(*self is Unknown),
    {
        !matches!(self, CartridgeType::Unknown(_))
    }

    /// Bits of a ROM bank-select write that the controller keeps.
    pub open spec fn rom_bank_mask(self) -> u8 {
        match self {
            CartridgeType::Mbc1 => 0x1F,
            CartridgeType::Mbc3 => 0x7F,
            _ => 0xFF,
        }
    }

    /// Bits of a RAM bank-select write that the controller keeps.
    pub open spec fn ram_bank_mask(self) -> u8 {
        match self {
            CartridgeType::Mbc5 => 0x0F,
            _ => 0x03,
        }
    }
}

/// The controller variant that header byte `b` declares.
pub open spec fn type_of_code(b: u8) -> CartridgeType {
    if b == 0x00 {
        CartridgeType::RomOnly
    } else if 0x01 <= b <= 0x03 {
        CartridgeType::Mbc1
    } else if 0x0F <= b <= 0x13 {
        CartridgeType::Mbc3
    } else if 0x19 <= b <= 0x1E {
        CartridgeType::Mbc5
    } else {
        CartridgeType::Unknown(b)
    }
}

/// ROM size that header byte `c` declares: 32 KiB doubled `c` times.
pub open spec fn rom_size_of_code(c: nat) -> nat
    decreases c,
{
    if c == 0 {
        0x8000
    } else {
        2 * rom_size_of_code((c - 1) as nat)
    }
}

/// External-RAM size that header byte `b` declares (unlisted codes: none).
pub open spec fn ram_size_of_code(b: u8) -> nat {
    if b == 0x02 {
        8192
    } else if b == 0x03 {
        32768
    } else if b == 0x04 {
        131072
    } else if b == 0x05 {
        65536
    } else {
        0
    }
}

pub fn cartridge_type_from_code(b: u8) -> (r: CartridgeType)
    ensures
        r == type_of_code(b),
{
    match b {
        0x00 => CartridgeType::RomOnly,
        0x01..=0x03 => CartridgeType::Mbc1,
        0x0F..=0x13 => CartridgeType::Mbc3,
        0x19..=0x1E => CartridgeType::Mbc5,
        _ => CartridgeType::Unknown(b),
    }
}

pub fn ram_size_from_code(b: u8) -> (r: usize)
    ensures
        r == ram_size_of_code(b),
{
    match b {
        0x02 => 8192,
        0x03 => 32768,
        0x04 => 131072,
        0x05 => 65536,
        _ => 0,
    }
}

pub fn rom_size_from_code(c: u8) -> (r: usize)
    requires
        c <= MAX_ROM_SIZE_CODE,
    ensures
        r == rom_size_of_code(c as nat),
{
    let mut size: usize = 0x8000;
    let mut i: u8 = 0;
    while i < c
        invariant
            i <= c <= MAX_ROM_SIZE_CODE,
            size == rom_size_of_code(i as nat),
            size <= 0x8000 * 256,
        decreases c - i,
    {
        proof {
            lemma_rom_size_bounded(i as nat);
        }
        size = size * 2;
        i = i + 1;
    }
    size
}

/// Bounds on every size that a ROM-size code up to eight declares.
proof fn lemma_rom_size_bounded(c: nat)
    requires
        c <= 8,
    ensures
        0x8000 <= rom_size_of_code(c) <= 0x8000 * 256,
        rom_size_of_code(c) % 0x4000 == 0,
        c < 8 ==> rom_size_of_code(c) <= 0x8000 * 128,
{
    reveal_with_fuel(rom_size_of_code, 9);
    assert(c == 0 || c == 1 || c == 2 || c == 3 || c == 4 || c == 5 || c == 6 || c == 7 || c == 8);
}

/// What `String::from_utf8_lossy` makes of some bytes.
pub uninterp spec fn lossy_text(b: Seq<u8>) -> Seq<char>;

/// Relies on `String::from_utf8_lossy`: the text depends on the bytes alone,
/// and bytes below 0x80 (ASCII, valid UTF-8) become one character each.
#[verifier::external_body]
fn text_from_bytes(b: &[u8]) -> (r: String)
    ensures
        r@ == lossy_text(b@),
        (forall|i: int| 0 <= i < b@.len() ==> b@[i] < 0x80) ==> r@ == b@.map_values(
            |x: u8| x as char,
        ),
{
    String::from_utf8_lossy(b).into_owned()
}

/// `s` without its trailing zero bytes.
pub open spec fn trim_nul(s: Seq<u8>) -> Seq<u8>
    decreases s.len(),
{
    if s.len() > 0 && s.last() == 0 {
        trim_nul(s.drop_last())
    } else {
        s
    }
}

/// The title an image declares: bytes 0x134..0x144, trailing NULs removed.
pub open spec fn title_of(data: Seq<u8>) -> Seq<char> {
    lossy_text(trim_nul(data.subrange(0x134, 0x144)))
}

/// Why an image cannot be loaded.
#[derive(Debug, Clone, Copy, PartialEq, Eq, Structural)]
pub enum LoadError {
    /// The image ends before the header region does.
    TooSmall,
    /// The header's ROM-size byte is beyond the largest defined code.
    BadRomSize(u8),
}

/// The outcome that loading `data` must have.
pub open spec fn load_error_of(data: Seq<u8>) -> Option<LoadError> {
    if data.len() < HEADER_END {
        Some(LoadError::TooSmall)
    } else if data[0x148] > MAX_ROM_SIZE_CODE {
        Some(LoadError::BadRomSize(data[0x148]))
    } else {
        None
    }
}

/// Parsed cartridge header.
pub struct CartridgeHeader {
    pub title: String,
    pub cartridge_type: CartridgeType,
    pub rom_size: usize,
    pub ram_size: usize,
    pub cgb_flag: u8,
}

/// Mathematical view of a cartridge: its bytes and its bank-select state.
pub struct CartModel {
    pub rom: Seq<u8>,
    pub ram: Seq<u8>,
    pub kind: CartridgeType,
    pub rom_size: nat,
    pub rom_bank: u8,
    pub ram_bank: u8,
    pub ram_enabled: bool,
    pub banking_mode: bool,
}

impl CartModel {
    /// Number of 16 KiB banks the header declares.
    pub open spec fn rom_bank_count(self) -> nat {
        self.rom_size / (ROM_BANK_SIZE as nat)
    }

    /// The bank visible at 0x4000..0x8000: a selected zero means one, and
    /// the index wraps at the declared bank count.
    pub open spec fn upper_bank(self) -> int {
        if self.kind.banked() {
            let sel: int = if self.rom_bank == 0 { 1 } else { self.rom_bank as int };
            sel % (self.rom_bank_count() as int)
        } else {
            1
        }
    }

    /// ROM byte `i`; past the end of the image the bus floats high.
    pub open spec fn rom_byte(self, i: int) -> u8 {
        if 0 <= i < self.rom.len() {
            self.rom[i]
        } else {
            0xFF
        }
    }

    pub open spec fn read_rom(self, addr: u16) -> u8 {
        if addr < 0x4000 {
            self.rom_byte(addr as int)
        } else {
            self.rom_byte(self.upper_bank() * ROM_BANK_SIZE + addr - 0x4000)
        }
    }

    /// External RAM answers only once enabled, and only if there is some.
    pub open spec fn ram_open(self) -> bool {
        self.ram_enabled && self.ram.len() > 0
    }

    pub open spec fn ram_bank_in_use(self) -> int {
        if self.kind is Mbc1 && !self.banking_mode {
            0
        } else {
            self.ram_bank as int % (self.ram.len() / (RAM_BANK_SIZE as nat)) as int
        }
    }

    pub open spec fn ram_index(self, addr: u16) -> int {
        self.ram_bank_in_use() * RAM_BANK_SIZE + (addr - 0xA000)
    }

    pub open spec fn read_ram(self, addr: u16) -> u8 {
        if self.ram_open() {
            self.ram[self.ram_index(addr)]
        } else {
            0xFF
        }
    }

    pub open spec fn write_ram(self, addr: u16, v: u8) -> CartModel {
        if self.ram_open() {
            CartModel { ram: self.ram.update(self.ram_index(addr), v), ..self }
        } else {
            self
        }
    }

    /// Effect of a CPU write into the ROM range: bank-controller commands.
    pub open spec fn control(self, addr: u16, v: u8) -> CartModel {
        if !self.kind.banked() {
            self
        } else if addr < 0x2000 {
            CartModel { ram_enabled: v & 0x0F == 0x0A, ..self }
        } else if addr < 0x4000 {
            CartModel { rom_bank: v & self.kind.rom_bank_mask(), ..self }
        } else if addr < 0x6000 {
            CartModel { ram_bank: v & self.kind.ram_bank_mask(), ..self }
        } else if self.kind is Mbc1 {
            CartModel { banking_mode: v & 1 == 1, ..self }
        } else {
            self
        }
    }

    /// Bank-select state at power-on.
    pub open spec fn banks_reset(self) -> CartModel {
        CartModel { rom_bank: 1, ram_bank: 0, ram_enabled: false, banking_mode: false, ..self }
    }
}

/// A cartridge: header, ROM image, external RAM and bank-select state.
pub struct Cartridge {
    pub header: CartridgeHeader,
    rom: Vec<u8>,
    ram: Vec<u8>,
    rom_bank: u8,
    ram_bank: u8,
    ram_enabled: bool,
    banking_mode: bool,
}

impl View for Cartridge {
    type V = CartModel;

    closed spec fn view(&self) -> CartModel {
        CartModel {
            rom: self.rom@,
            ram: self.ram@,
            kind: self.header.cartridge_type,
            rom_size: self.header.rom_size as nat,
            rom_bank: self.rom_bank,
            ram_bank: self.ram_bank,
            ram_enabled: self.ram_enabled,
            banking_mode: self.banking_mode,
        }
    }
}

impl Cartridge {
    /// The declared sizes agree with the ROM-size and RAM-size tables.
    pub closed spec fn wf(&self) -> bool {
        &&& 0x8000 <= self.header.rom_size <= 0x8000 * 256
        &&& self.header.rom_size % 0x4000 == 0
        &&& self.ram.len() == self.header.ram_size
        &&& self.ram.len() % 0x2000 == 0
        &&& self.ram.len() <= 131072
    }

    /// The two cartridges carry the same header.
    pub closed spec fn same_header(&self, other: &Cartridge) -> bool {
        self.header == other.header
    }

    pub proof fn lemma_same_header_refl(&self)
        ensures
            self.same_header(self),
    {
    }

    pub proof fn lemma_same_header_trans(&self, mid: &Cartridge, last: &Cartridge)
        requires
            self.same_header(mid),
            mid.same_header(last),
        ensures
            self.same_header(last),
    {
    }

    /// Returning the bank-select state to power-on keeps a freshly loaded
    /// cartridge as it was.
    pub proof fn lemma_parsed_banks_reset(&self, other: &Cartridge, data: Seq<u8>)
        requires
            other.parsed_from(data),
            self.same_header(other),
            self@ == other@.banks_reset(),
        ensures
            self.parsed_from(data),
    {
    }

    /// `self` is what loading `data` yields.
    pub closed spec fn parsed_from(&self, data: Seq<u8>) -> bool {
        &&& load_error_of(data) is None
        &&& self.wf()
        &&& self.header.title@ == title_of(data)
        &&& self.header.cartridge_type == type_of_code(data[0x147])
        &&& self.header.rom_size == rom_size_of_code(data[0x148] as nat)
        &&& self.header.ram_size == ram_size_of_code(data[0x149])
        &&& self.header.cgb_flag == data[0x143]
        &&& self@ == (CartModel {
            rom: data,
            ram: Seq::new(ram_size_of_code(data[0x149]), |i: int| 0u8),
            kind: type_of_code(data[0x147]),
            rom_size: rom_size_of_code(data[0x148] as nat),
            rom_bank: 1,
            ram_bank: 0,
            ram_enabled: false,
            banking_mode: false,
        })
    }

    /// The cartridge a console holds with nothing inserted: 32 KiB of zeros.
    pub fn blank() -> (r: Cartridge)
        ensures
            r.wf(),
            r@ == (CartModel {
                rom: Seq::new(0x8000, |i: int| 0u8),
                ram: Seq::empty(),
                kind: CartridgeType::RomOnly,
                rom_size: 0x8000,
                rom_bank: 1,
                ram_bank: 0,
                ram_enabled: false,
                banking_mode: false,
            }),
    {
        let rom: Vec<u8> = vec![0u8; 0x8000];
        let ram: Vec<u8> = Vec::new();
        let r = Cartridge {
            header: CartridgeHeader {
                title: String::new(),
                cartridge_type: CartridgeType::RomOnly,
                rom_size: 0x8000,
                ram_size: 0,
                cgb_flag: 0,
            },
            rom,
            ram,
            rom_bank: 1,
            ram_bank: 0,
            ram_enabled: false,
            banking_mode: false,
        };
        assert(r@.rom =~= Seq::new(0x8000, |i: int| 0u8));
        assert(r@.ram =~= Seq::<u8>::empty());
        r
    }

    /// Build a cartridge from a raw image: fails exactly when the image is
    /// shorter than the header or declares an undefined ROM size.
    pub fn from_rom(data: &[u8]) -> (r: Result<Cartridge, LoadError>)
        ensures
            match r {
                Ok(c) => {
                    &&& load_error_of(data@) is None
                    &&& c.wf()
                    &&& c.parsed_from(data@)
                },
                Err(e) => load_error_of(data@) == Some(e),
            },
    {
        if data.len() < HEADER_END {
            return Err(LoadError::TooSmall);
        }
        let header = match Self::parse_header(data) {
            Ok(h) => h,
            Err(e) => return Err(e),
        };
        let ram: Vec<u8> = vec![0u8; header.ram_size];
        let rom = vstd::slice::slice_to_vec(data);
        let c = Cartridge {
            header,
            rom,
            ram,
            rom_bank: 1,
            ram_bank: 0,
            ram_enabled: false,
            banking_mode: false,
        };
        proof {
            lemma_rom_size_bounded(data@[0x148] as nat);
        }
        assert(c@.ram =~= Seq::new(ram_size_of_code(data@[0x149]), |i: int| 0u8));
        Ok(c)
    }

    /// Decode the header fields of an image that holds a complete header.
    fn parse_header(data: &[u8]) -> (r: Result<CartridgeHeader, LoadError>)
        requires
            data@.len() >= HEADER_END,
        ensures
            match r {
                Ok(h) => {
                    &&& load_error_of(data@) is None
                    &&& h.title@ == title_of(data@)
                    &&& h.cartridge_type == type_of_code(data@[0x147])
                    &&& h.rom_size == rom_size_of_code(data@[0x148] as nat)
                    &&& h.ram_size == ram_size_of_code(data@[0x149])
                    &&& h.cgb_flag == data@[0x143]
                },
                Err(e) => load_error_of(data@) == Some(e),
            },
    {
        let rom_code = data[0x148];
        if rom_code > MAX_ROM_SIZE_CODE {
            return Err(LoadError::BadRomSize(rom_code));
        }
        // Title at 0x134..0x144, without trailing NUL padding.
        let mut end: usize = 0x144;
        while end > 0x134 && data[end - 1] == 0
            invariant
                0x134 <= end <= 0x144,
                data@.len() >= HEADER_END,
                trim_nul(data@.subrange(0x134, 0x144)) == trim_nul(data@.subrange(0x134, end as int)),
            decreases end,
        {
            assert(data@.subrange(0x134, end as int).drop_last() =~= data@.subrange(
                0x134,
                end - 1,
            ));
            end = end - 1;
        }
        proof {
            let s = data@.subrange(0x134, end as int);
            assert(s.len() == 0 || s.last() != 0);
            assert(trim_nul(s) == s);
        }
        let title = text_from_bytes(vstd::slice::slice_subrange(data, 0x134, end));
        proof {
            lemma_rom_size_bounded(rom_code as nat);
        }
        Ok(CartridgeHeader {
            title,
            cartridge_type: cartridge_type_from_code(data[0x147]),
            rom_size: rom_size_from_code(rom_code),
            ram_size: ram_size_from_code(data[0x149]),
            cgb_flag: data[0x143],
        })
    }

    /// Byte at `addr` of the ROM window (0x0000..0x8000).
    pub fn read_rom(&self, addr: u16) -> (r: u8)
        requires
            self.wf(),
            addr < 0x8000,
        ensures
            r == self@.read_rom(addr),
    {
        let idx: usize = if addr < 0x4000 {
            addr as usize
        } else {
            let count: usize = self.header.rom_size / ROM_BANK_SIZE;
            let bank: usize = if self.header.cartridge_type.is_banked() {
                let sel: usize = if self.rom_bank == 0 { 1 } else { self.rom_bank as usize };
                assert(sel % count < count) by (nonlinear_arith)
                    requires count > 0;
                sel % count
            } else {
                1
            };
            assert(bank < 512);
            bank * ROM_BANK_SIZE + (addr as usize - 0x4000)
        };
        if idx < self.rom.len() {
            self.rom[idx]
        } else {
            0xFF
        }
    }

    fn ram_index(&self, addr: u16) -> (r: usize)
        requires
            self.wf(),
            self@.ram_open(),
            0xA000 <= addr < 0xC000,
        ensures
            r == self@.ram_index(addr),
            r < self.ram@.len(),
    {
        let count: usize = self.ram.len() / RAM_BANK_SIZE;
        let bank: usize = if matches!(self.header.cartridge_type, CartridgeType::Mbc1)
            && !self.banking_mode {
            0
        } else {
            assert((self.ram_bank as usize) % count < count) by (nonlinear_arith)
                requires count > 0;
            (self.ram_bank as usize) % count
        };
        assert(bank * RAM_BANK_SIZE + RAM_BANK_SIZE <= self.ram.len()) by (nonlinear_arith)
            requires
                bank < count,
                count == self.ram.len() / 0x2000,
                self.ram.len() % 0x2000 == 0,
                RAM_BANK_SIZE == 0x2000,
        ;
        bank * RAM_BANK_SIZE + (addr as usize - 0xA000)
    }

    /// Byte at `addr` of the external-RAM window (0xA000..0xC000).
    pub fn read_ram(&self, addr: u16) -> (r: u8)
        requires
            self.wf(),
            0xA000 <= addr < 0xC000,
        ensures
            r == self@.read_ram(addr),
    {
        if self.ram_enabled && self.ram.len() > 0 {
            self.ram[self.ram_index(addr)]
        } else {
            0xFF
        }
    }

    /// Store `v` at `addr` of the external-RAM window, if RAM is open.
    pub fn write_ram(&mut self, addr: u16, v: u8)
        requires
            old(self).wf(),
            0xA000 <= addr < 0xC000,
        ensures
            final(self).wf(),
            final(self)@ == old(self)@.write_ram(addr, v),
            final(self).same_header(old(self)),
    {
        if self.ram_enabled && self.ram.len() > 0 {
            let i = self.ram_index(addr);
            self.ram.set(i, v);
        }
    }

    /// A CPU write into the ROM range, taken as a bank-controller command.
    pub fn control(&mut self, addr: u16, v: u8)
        requires
            old(self).wf(),
            addr < 0x8000,
        ensures
            final(self).wf(),
            final(self)@ == old(self)@.control(addr, v),
            final(self).same_header(old(self)),
    {
        let kind = self.header.cartridge_type;
        if !kind.is_banked() {
            return;
        }
        if addr < 0x2000 {
            self.ram_enabled = v & 0x0F == 0x0A;
        } else if addr < 0x4000 {
            let mask: u8 = match kind {
                CartridgeType::Mbc1 => 0x1F,
                CartridgeType::Mbc3 => 0x7F,
                _ => 0xFF,
            };
            self.rom_bank = v & mask;
        } else if addr < 0x6000 {
            let mask: u8 = match kind {
                CartridgeType::Mbc5 => 0x0F,
                _ => 0x03,
            };
            self.ram_bank = v & mask;
        } else if matches!(kind, CartridgeType::Mbc1) {
            self.banking_mode = v & 1 == 1;
        }
    }

    /// Return the bank-select state to its power-on values.
    pub fn reset_banks(&mut self)
        requires
            old(self).wf(),
        ensures
            final(self).wf(),
            final(self)@ == old(self)@.banks_reset(),
            final(self).same_header(old(self)),
    {
        self.rom_bank = 1;
        self.ram_bank = 0;
        self.ram_enabled = false;
        self.banking_mode = false;
    }

    /// The ROM image as loaded.
    pub fn rom(&self) -> (r: &Vec<u8>)
        ensures
            r@ == self@.rom,
    {
        &self.rom
    }

    /// The external RAM.
    pub fn ram(&self) -> (r: &Vec<u8>)
        ensures
            r@ == self@.ram,
    {
        &self.ram
    }
}

} // verus!
