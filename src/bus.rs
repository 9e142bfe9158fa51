//! The memory bus: routes every 16-bit address to its backing store.
//!
//! - 0x0000-0x7FFF: cartridge ROM (writes are bank-controller commands)
//! - 0x8000-0x9FFF: video memory
//! - 0xA000-0xBFFF: cartridge RAM
//! - 0xC000-0xDFFF: working memory, echoed at 0xE000-0xFDFF
//! - 0xFE00-0xFE9F: object-attribute memory
//! - 0xFEA0-0xFEFF: unusable (reads 0xFF, writes dropped)
//! - 0xFF00-0xFF7F: I/O registers (0xFF00 reads the joypad byte)
//! - 0xFF80-0xFFFE: high memory
//! - 0xFFFF: interrupt enable, stored in the last I/O cell

use vstd::prelude::*;

use crate::cartridge::{CartModel, Cartridge, CartridgeType, LoadError, load_error_of};

verus! {

pub const VRAM_SIZE: usize = 8192;

pub const WRAM_SIZE: usize = 8192;

pub const OAM_SIZE: usize = 160;

pub const IO_SIZE: usize = 128;

pub const HRAM_SIZE: usize = 127;

/// Distance from a working-memory address to its echo.
pub const ECHO_OFFSET: u16 = 0x2000;

/// Where an address lands, with the offset into the backing array.
#[derive(Debug, Clone, Copy, PartialEq, Eq, Structural)]
pub enum Region {
    Rom,
    Vram(usize),
    CartRam,
    Wram(usize),
    Oam(usize),
    Unusable,
    Joypad,
    Io(usize),
    Hram(usize),
}

/// The routing table, in address order.
pub open spec fn region_spec(addr: u16) -> Region {
    if addr < 0x8000 {
        Region::Rom
    } else if addr < 0xA000 {
        Region::Vram((addr - 0x8000) as usize)
    } else if addr < 0xC000 {
        Region::CartRam
    } else if addr < 0xE000 {
        Region::Wram((addr - 0xC000) as usize)
    } else if addr < 0xFE00 {
        Region::Wram((addr - 0xE000) as usize)
    } else if addr < 0xFEA0 {
        Region::Oam((addr - 0xFE00) as usize)
    } else if addr < 0xFF00 {
        Region::Unusable
    } else if addr == 0xFF00 {
        Region::Joypad
    } else if addr < 0xFF80 {
        Region::Io((addr - 0xFF00) as usize)
    } else if addr < 0xFFFF {
        Region::Hram((addr - 0xFF80) as usize)
    } else {
        Region::Io(0x7F)
    }
}

pub fn region_of(addr: u16) -> (r: Region)
    ensures
        r == region_spec(addr),
{
    match addr {
        0x0000..=0x7FFF => Region::Rom,
        0x8000..=0x9FFF => Region::Vram((addr - 0x8000) as usize),
        0xA000..=0xBFFF => Region::CartRam,
        0xC000..=0xDFFF => Region::Wram((addr - 0xC000) as usize),
        0xE000..=0xFDFF => Region::Wram((addr - 0xE000) as usize),
        0xFE00..=0xFE9F => Region::Oam((addr - 0xFE00) as usize),
        0xFEA0..=0xFEFF => Region::Unusable,
        0xFF00 => Region::Joypad,
        0xFF01..=0xFF7F => Region::Io((addr - 0xFF00) as usize),
        0xFF80..=0xFFFE => Region::Hram((addr - 0xFF80) as usize),
        0xFFFF => Region::Io(0x7F),
    }
}

/// The joypad byte after button `button` is pressed or released; bit `i`
/// is clear while button `i` is held, and codes past 7 change nothing.
pub open spec fn button_byte(buttons: u8, button: u8, pressed: bool) -> u8 {
    if button >= 8 {
        buttons
    } else if pressed {
        buttons & !(1u8 << button)
    } else {
        buttons | (1u8 << button)
    }
}

pub open spec fn zeros(n: nat) -> Seq<u8> {
    Seq::new(n, |i: int| 0u8)
}

/// Mathematical view of the bus: every region as a sequence of bytes.
pub struct BusModel {
    pub cart: CartModel,
    pub vram: Seq<u8>,
    pub wram: Seq<u8>,
    pub oam: Seq<u8>,
    pub io: Seq<u8>,
    pub hram: Seq<u8>,
    pub buttons: u8,
}

impl BusModel {
    pub open spec fn wf(self) -> bool {
        &&& self.vram.len() == VRAM_SIZE
        &&& self.wram.len() == WRAM_SIZE
        &&& self.oam.len() == OAM_SIZE
        &&& self.io.len() == IO_SIZE
        &&& self.hram.len() == HRAM_SIZE
    }

    pub open spec fn read(self, addr: u16) -> u8 {
        match region_spec(addr) {
            Region::Rom => self.cart.read_rom(addr),
            Region::Vram(o) => self.vram[o as int],
            Region::CartRam => self.cart.read_ram(addr),
            Region::Wram(o) => self.wram[o as int],
            Region::Oam(o) => self.oam[o as int],
            Region::Unusable => 0xFF,
            Region::Joypad => self.buttons,
            Region::Io(o) => self.io[o as int],
            Region::Hram(o) => self.hram[o as int],
        }
    }

    pub open spec fn write(self, addr: u16, v: u8) -> BusModel {
        match region_spec(addr) {
            Region::Rom => BusModel { cart: self.cart.control(addr, v), ..self },
            Region::Vram(o) => BusModel { vram: self.vram.update(o as int, v), ..self },
            Region::CartRam => BusModel { cart: self.cart.write_ram(addr, v), ..self },
            Region::Wram(o) => BusModel { wram: self.wram.update(o as int, v), ..self },
            Region::Oam(o) => BusModel { oam: self.oam.update(o as int, v), ..self },
            Region::Unusable => self,
            Region::Joypad => BusModel { io: self.io.update(0, v), ..self },
            Region::Io(o) => BusModel { io: self.io.update(o as int, v), ..self },
            Region::Hram(o) => BusModel { hram: self.hram.update(o as int, v), ..self },
        }
    }
}

/// The address space and everything that backs it.
pub struct Bus {
    cart: Cartridge,
    vram: Vec<u8>,
    wram: Vec<u8>,
    oam: Vec<u8>,
    io: Vec<u8>,
    hram: Vec<u8>,
    buttons: u8,
}

impl View for Bus {
    type V = BusModel;

    closed spec fn view(&self) -> BusModel {
        BusModel {
            cart: self.cart@,
            vram: self.vram@,
            wram: self.wram@,
            oam: self.oam@,
            io: self.io@,
            hram: self.hram@,
            buttons: self.buttons,
        }
    }
}

impl Bus {
    pub closed spec fn wf(&self) -> bool {
        self.cart.wf() && self@.wf()
    }

    /// The inserted cartridge.
    pub closed spec fn cart_spec(&self) -> Cartridge {
        self.cart
    }

    pub proof fn lemma_cart_view(&self)
        ensures
            self.cart_spec()@ == self@.cart,
    {
    }

    /// Power-on state: zeroed memory, all buttons released, blank cartridge.
    pub fn new() -> (r: Bus)
        ensures
            r.wf(),
            r@.vram == zeros(VRAM_SIZE as nat),
            r@.wram == zeros(WRAM_SIZE as nat),
            r@.oam == zeros(OAM_SIZE as nat),
            r@.io == zeros(IO_SIZE as nat),
            r@.hram == zeros(HRAM_SIZE as nat),
            r@.buttons == 0xFF,
            r@.cart.kind == CartridgeType::RomOnly,
            r@.cart.rom == zeros(0x8000),
            r@.cart.ram.len() == 0,
    {
        let b = Bus {
            cart: Cartridge::blank(),
            vram: vec![0u8; VRAM_SIZE],
            wram: vec![0u8; WRAM_SIZE],
            oam: vec![0u8; OAM_SIZE],
            io: vec![0u8; IO_SIZE],
            hram: vec![0u8; HRAM_SIZE],
            buttons: 0xFF,
        };
        assert(b@.vram =~= zeros(VRAM_SIZE as nat));
        assert(b@.wram =~= zeros(WRAM_SIZE as nat));
        assert(b@.oam =~= zeros(OAM_SIZE as nat));
        assert(b@.io =~= zeros(IO_SIZE as nat));
        assert(b@.hram =~= zeros(HRAM_SIZE as nat));
        b
    }

    /// Zero every memory region, release all buttons and return the bank
    /// controller to its power-on state; the cartridge stays inserted.
    pub fn reset(&mut self)
        requires
            old(self).wf(),
        ensures
            final(self).wf(),
            final(self)@ == (BusModel {
                cart: old(self)@.cart.banks_reset(),
                vram: zeros(VRAM_SIZE as nat),
                wram: zeros(WRAM_SIZE as nat),
                oam: zeros(OAM_SIZE as nat),
                io: zeros(IO_SIZE as nat),
                hram: zeros(HRAM_SIZE as nat),
                buttons: 0xFF,
            }),
            final(self).cart_spec().same_header(&old(self).cart_spec()),
    {
        self.cart.reset_banks();
        self.vram = vec![0u8; VRAM_SIZE];
        self.wram = vec![0u8; WRAM_SIZE];
        self.oam = vec![0u8; OAM_SIZE];
        self.io = vec![0u8; IO_SIZE];
        self.hram = vec![0u8; HRAM_SIZE];
        self.buttons = 0xFF;
        assert(self@.vram =~= zeros(VRAM_SIZE as nat));
        assert(self@.wram =~= zeros(WRAM_SIZE as nat));
        assert(self@.oam =~= zeros(OAM_SIZE as nat));
        assert(self@.io =~= zeros(IO_SIZE as nat));
        assert(self@.hram =~= zeros(HRAM_SIZE as nat));
    }

    /// Byte at `addr`; defined for every address.
    pub fn read(&self, addr: u16) -> (r: u8)
        requires
            self.wf(),
        ensures
            r == self@.read(addr),
    {
        match region_of(addr) {
            Region::Rom => self.cart.read_rom(addr),
            Region::Vram(o) => self.vram[o],
            Region::CartRam => self.cart.read_ram(addr),
            Region::Wram(o) => self.wram[o],
            Region::Oam(o) => self.oam[o],
            Region::Unusable => 0xFF,
            Region::Joypad => self.buttons,
            Region::Io(o) => self.io[o],
            Region::Hram(o) => self.hram[o],
        }
    }

    /// Store `value` at `addr`; defined for every address.
    pub fn write(&mut self, addr: u16, value: u8)
        requires
            old(self).wf(),
        ensures
            final(self).wf(),
            final(self)@ == old(self)@.write(addr, value),
            final(self).cart_spec().same_header(&old(self).cart_spec()),
    {
        proof {
            self.cart.lemma_same_header_refl();
        }
        match region_of(addr) {
            Region::Rom => self.cart.control(addr, value),
            Region::Vram(o) => self.vram.set(o, value),
            Region::CartRam => self.cart.write_ram(addr, value),
            Region::Wram(o) => self.wram.set(o, value),
            Region::Oam(o) => self.oam.set(o, value),
            Region::Unusable => {},
            Region::Joypad => self.io.set(0, value),
            Region::Io(o) => self.io.set(o, value),
            Region::Hram(o) => self.hram.set(o, value),
        }
    }

    /// Press or release button `button` (0 = A, 1 = B, 2 = Start,
    /// 3 = Select, 4 = Up, 5 = Down, 6 = Left, 7 = Right).
    pub fn set_button(&mut self, button: u8, pressed: bool)
        requires
            old(self).wf(),
        ensures
            final(self).wf(),
            final(self)@ == (BusModel {
                buttons: button_byte(old(self)@.buttons, button, pressed),
                ..old(self)@
            }),
            final(self).cart_spec() == old(self).cart_spec(),
    {
        if button < 8 {
            if pressed {
                self.buttons = self.buttons & !(1u8 << button);
            } else {
                self.buttons = self.buttons | (1u8 << button);
            }
        }
    }

    /// The joypad byte (bit clear = pressed).
    pub fn buttons(&self) -> (r: u8)
        ensures
            r == self@.buttons,
    {
        self.buttons
    }

    /// The inserted cartridge.
    pub fn cartridge(&self) -> (r: &Cartridge)
        ensures
            *r == self.cart_spec(),
            r@ == self@.cart,
    {
        &self.cart
    }

    /// Replace the cartridge with one parsed from `data`. On failure the bus,
    /// the cartridge and its RAM included, is left exactly as it was.
    pub fn load_rom(&mut self, data: &[u8]) -> (r: Result<(), LoadError>)
        requires
            old(self).wf(),
        ensures
            final(self).wf(),
            match r {
                Ok(()) => {
                    &&& load_error_of(data@) is None
                    &&& final(self).cart_spec().parsed_from(data@)
                    &&& final(self)@ == (BusModel { cart: final(self)@.cart, ..old(self)@ })
                },
                Err(e) => {
                    &&& load_error_of(data@) == Some(e)
                    &&& *final(self) == *old(self)
                },
            },
    {
        match Cartridge::from_rom(data) {
            Ok(c) => {
                self.cart = c;
                Ok(())
            },
            Err(e) => Err(e),
        }
    }
}

/// A byte written to working memory reads back at its echo, and a byte
/// written to the echo reads back in working memory.
pub proof fn lemma_echo_mirrors_wram(m: BusModel, addr: u16, v: u8)
    requires
        m.wf(),
        0xC000 <= addr < 0xDE00,
    ensures
        m.write(addr, v).read((addr + ECHO_OFFSET) as u16) == v,
        m.write((addr + ECHO_OFFSET) as u16, v).read(addr) == v,
{
}

/// Every address of the unusable hole reads 0xFF, whatever was written
/// anywhere before.
pub proof fn lemma_unusable_reads_ff(m: BusModel, addr: u16, w: u16, v: u8)
    requires
        0xFEA0 <= addr < 0xFF00,
    ensures
        m.read(addr) == 0xFF,
        m.write(w, v).read(addr) == 0xFF,
{
}

/// Pressing a released button and releasing it again gives back the
/// joypad byte exactly.
pub proof fn lemma_press_release_restores(buttons: u8, button: u8)
    requires
        button < 8,
        buttons & (1u8 << button) != 0,
    ensures
        button_byte(button_byte(buttons, button, true), button, false) == buttons,
        button_byte(buttons, button, true) & (1u8 << button) == 0,
{
    assert((buttons & !(1u8 << button)) | (1u8 << button) == buttons) by (bit_vector)
        requires
            button < 8,
            buttons & (1u8 << button) != 0,
    ;
    assert((buttons & !(1u8 << button)) & (1u8 << button) == 0) by (bit_vector)
        requires
            button < 8,
    ;
}

} // verus!
