//! The frame driver: owns the CPU, PPU, bus and frame buffer, and runs
//! CPU steps and PPU advances until a frame's cycle budget is spent.

use vstd::prelude::*;

use crate::bus::{Bus, BusModel, button_byte, zeros};
use crate::cartridge::{Cartridge, LoadError, load_error_of};
use crate::cpu::{Cpu, CpuState, lemma_step_cycles, power_on_registers, step_spec};
use crate::ppu::{
    BGP_ADDR, LCDC_ADDR, LY_ADDR, OBP0_ADDR, OBP1_ADDR, Ppu, Timing, frame_after, frame_start,
    ticks,
};
use crate::{CYCLES_PER_FRAME, SCREEN_BYTES};

verus! {

/// The whole console as a value.
pub struct Machine {
    pub cpu: CpuState,
    pub bus: BusModel,
    pub ppu: Timing,
    pub frame: Seq<u8>,
}

/// One CPU step; then the PPU, with the palette the bus now holds, advances
/// by the cycles it took, and the new scan-line is published at LY.
pub open spec fn machine_step(m: Machine) -> (Machine, u32) {
    let (cpu, bus, n) = step_spec(m.cpu, m.bus);
    let bgp = bus.read(BGP_ADDR);
    let ppu = ticks(m.ppu, n as nat);
    (
        Machine {
            cpu,
            bus: bus.write(LY_ADDR, ppu.line as u8),
            ppu,
            frame: frame_after(m.ppu, n as nat, m.frame, bgp),
        },
        n,
    )
}

/// I/O block after the boot ROM: LCD on, default palettes, the rest zero.
pub open spec fn boot_io() -> Seq<u8> {
    zeros(crate::bus::IO_SIZE as nat).update(0x40, 0x91).update(0x47, 0xFC).update(0x48, 0xFF).update(
        0x49,
        0xFF,
    )
}

/// Steps from `m`, with `used` cycles of the frame already spent, until the
/// budget is reached; returns the machine and the cycles spent in all.
pub open spec fn run_until(m: Machine, used: int) -> (Machine, int)
    decreases if used >= CYCLES_PER_FRAME { 0 } else { CYCLES_PER_FRAME - used },
{
    if used >= CYCLES_PER_FRAME {
        (m, used)
    } else {
        let next = machine_step(m);
        if next.1 == 0 {
            (m, used)
        } else {
            run_until(next.0, used + next.1)
        }
    }
}

/// `a + b`, stuck at the largest `u64`.
pub open spec fn saturating_sum(a: u64, b: int) -> u64 {
    if a + b > u64::MAX {
        u64::MAX
    } else {
        (a + b) as u64
    }
}

/// Power-on values of the memory regions, buttons, CPU and PPU.
pub open spec fn powered_on(m: Machine) -> bool {
    &&& m.cpu == (CpuState { regs: power_on_registers(), ime: false, halted: false })
    &&& m.ppu == frame_start()
    &&& m.bus.vram == zeros(crate::bus::VRAM_SIZE as nat)
    &&& m.bus.wram == zeros(crate::bus::WRAM_SIZE as nat)
    &&& m.bus.oam == zeros(crate::bus::OAM_SIZE as nat)
    &&& m.bus.io == boot_io()
    &&& m.bus.hram == zeros(crate::bus::HRAM_SIZE as nat)
    &&& m.bus.buttons == 0xFF
}

/// The emulator core.
pub struct GameBoyCore {
    cpu: Cpu,
    ppu: Ppu,
    bus: Bus,
    framebuffer: Vec<u8>,
    cycle_count: u64,
    overshoot: u32,
}

impl GameBoyCore {
    pub closed spec fn wf(&self) -> bool {
        &&& self.bus.wf()
        &&& self.ppu.wf()
        &&& self.framebuffer@.len() == SCREEN_BYTES
        &&& self.overshoot <= 24
    }

    pub closed spec fn machine(&self) -> Machine {
        Machine {
            cpu: self.cpu@,
            bus: self.bus@,
            ppu: self.ppu.timing(),
            frame: self.framebuffer@,
        }
    }

    /// Cycles since the last reset.
    pub closed spec fn cycles_spec(&self) -> u64 {
        self.cycle_count
    }

    /// Cycles the last frame ran past its budget, owed by the next one.
    pub closed spec fn overshoot_spec(&self) -> u32 {
        self.overshoot
    }

    pub closed spec fn cartridge_spec(&self) -> Cartridge {
        self.bus.cart_spec()
    }

    /// Power-on state with no cartridge inserted.
    pub fn new() -> (r: GameBoyCore)
        ensures
            r.wf(),
            powered_on(r.machine()),
            r.machine().frame == zeros(SCREEN_BYTES as nat),
            r.cycles_spec() == 0,
            r.overshoot_spec() == 0,
    {
        let fb: Vec<u8> = vec![0u8; SCREEN_BYTES];
        let mut bus = Bus::new();
        write_boot_registers(&mut bus);
        let r = GameBoyCore {
            cpu: Cpu::new(),
            ppu: Ppu::new(),
            bus,
            framebuffer: fb,
            cycle_count: 0,
            overshoot: 0,
        };
        assert(r.framebuffer@ =~= zeros(SCREEN_BYTES as nat));
        r
    }

    /// Power-on state for CPU, PPU and bus, with the cartridge kept; the
    /// screen turns white.
    pub fn reset(&mut self)
        requires
            old(self).wf(),
        ensures
            final(self).wf(),
            powered_on(final(self).machine()),
            final(self).machine().bus.cart == old(self).machine().bus.cart.banks_reset(),
            final(self).cartridge_spec().same_header(&old(self).cartridge_spec()),
            final(self).machine().frame == Seq::new(SCREEN_BYTES as nat, |i: int| 255u8),
            final(self).cycles_spec() == 0,
            final(self).overshoot_spec() == 0,
    {
        self.cpu.reset();
        self.ppu.reset();
        let ghost c0 = self.bus.cart_spec();
        self.bus.reset();
        let ghost c1 = self.bus.cart_spec();
        write_boot_registers(&mut self.bus);
        proof {
            self.bus.cart_spec().lemma_same_header_trans(&c1, &c0);
        }
        self.cycle_count = 0;
        self.overshoot = 0;
        self.framebuffer = vec![255u8; SCREEN_BYTES];
        assert(self.framebuffer@ =~= Seq::new(SCREEN_BYTES as nat, |i: int| 255u8));
    }

    /// Insert the cartridge in `rom_data` and reset. On failure nothing
    /// changes, the previous cartridge and its RAM included.
    pub fn load_rom(&mut self, rom_data: &[u8]) -> (r: Result<(), LoadError>)
        requires
            old(self).wf(),
        ensures
            final(self).wf(),
            match r {
                Ok(()) => {
                    &&& load_error_of(rom_data@) is None
                    &&& final(self).cartridge_spec().parsed_from(rom_data@)
                    &&& powered_on(final(self).machine())
                    &&& final(self).cycles_spec() == 0
                },
                Err(e) => {
                    &&& load_error_of(rom_data@) == Some(e)
                    &&& *final(self) == *old(self)
                },
            },
    {
        match self.bus.load_rom(rom_data) {
            Ok(()) => {
                let ghost loaded = self.bus.cart_spec();
                proof {
                    self.bus.lemma_cart_view();
                }
                self.reset();
                proof {
                    self.bus.lemma_cart_view();
                    self.bus.cart_spec().lemma_parsed_banks_reset(&loaded, rom_data@);
                }
                Ok(())
            },
            Err(e) => Err(e),
        }
    }

    /// Run one frame: CPU steps, each followed by the PPU advance by its
    /// cycles, until the frame's budget (less what the last frame overran)
    /// is spent; what this frame overruns is carried to the next.
    pub fn step(&mut self)
        requires
            old(self).wf(),
        ensures
            final(self).wf(),
            ({
                let (m, used) = run_until(old(self).machine(), old(self).overshoot_spec() as int);
                &&& final(self).machine() == m
                &&& final(self).overshoot_spec() == used - CYCLES_PER_FRAME
                &&& final(self).cycles_spec() == saturating_sum(
                    old(self).cycles_spec(),
                    used - old(self).overshoot_spec(),
                )
            }),
    {
        let ghost start = self.machine();
        let ghost owed = self.overshoot as int;
        let ghost count0 = self.cycle_count;
        let mut used: u32 = self.overshoot;
        while used < CYCLES_PER_FRAME
            invariant
                self.bus.wf(),
                self.ppu.wf(),
                self.framebuffer@.len() == SCREEN_BYTES,
                owed <= used <= CYCLES_PER_FRAME + 24,
                run_until(self.machine(), used as int) == run_until(start, owed),
                self.cycle_count == saturating_sum(count0, used - owed),
            decreases CYCLES_PER_FRAME + 24 - used,
        {
            let ghost before = self.machine();
            proof {
                lemma_step_cycles(self.cpu@, self.bus@);
            }
            let cycles = self.cpu.step(&mut self.bus);
            self.ppu.load_registers(&self.bus);
            self.ppu.step(cycles, &mut self.framebuffer);
            let line = self.ppu.scanline();
            self.bus.write(LY_ADDR, line);
            assert(machine_step(before) == (self.machine(), cycles));
            used = used + cycles;
            self.cycle_count = self.cycle_count.saturating_add(cycles as u64);
        }
        self.overshoot = used - CYCLES_PER_FRAME;
    }

    /// Press or release button `button` (0 = A, 1 = B, 2 = Start,
    /// 3 = Select, 4 = Up, 5 = Down, 6 = Left, 7 = Right).
    pub fn set_input(&mut self, button: u8, pressed: bool)
        requires
            old(self).wf(),
        ensures
            final(self).wf(),
            final(self).machine() == (Machine {
                bus: BusModel {
                    buttons: button_byte(old(self).machine().bus.buttons, button, pressed),
                    ..old(self).machine().bus
                },
                ..old(self).machine()
            }),
            final(self).cycles_spec() == old(self).cycles_spec(),
    {
        self.bus.set_button(button, pressed);
    }

    /// The frame buffer: RGBA, row-major from the top-left corner.
    pub fn get_pixels(&self) -> (r: &Vec<u8>)
        ensures
            r@ == self.machine().frame,
    {
        &self.framebuffer
    }

    /// Cycles executed since the last reset.
    pub fn get_cycles(&self) -> (r: u64)
        ensures
            r == self.cycles_spec(),
    {
        self.cycle_count
    }

    pub fn cpu(&self) -> (r: &Cpu)
        ensures
            r@ == self.machine().cpu,
    {
        &self.cpu
    }

    pub fn ppu(&self) -> (r: &Ppu)
        ensures
            r.timing() == self.machine().ppu,
    {
        &self.ppu
    }

    pub fn bus(&self) -> (r: &Bus)
        ensures
            r@ == self.machine().bus,
            r.cart_spec() == self.cartridge_spec(),
    {
        &self.bus
    }
}

/// Give the LCD registers the values the boot ROM leaves behind.
fn write_boot_registers(bus: &mut Bus)
    requires
        old(bus).wf(),
    ensures
        final(bus).wf(),
        final(bus)@ == (BusModel {
            io: old(bus)@.io.update(0x40, 0x91).update(0x47, 0xFC).update(0x48, 0xFF).update(
                0x49,
                0xFF,
            ),
            ..old(bus)@
        }),
        final(bus).cart_spec().same_header(&old(bus).cart_spec()),
{
    let ghost c0 = bus.cart_spec();
    bus.write(LCDC_ADDR, 0x91);
    let ghost c1 = bus.cart_spec();
    bus.write(BGP_ADDR, 0xFC);
    let ghost c2 = bus.cart_spec();
    bus.write(OBP0_ADDR, 0xFF);
    let ghost c3 = bus.cart_spec();
    bus.write(OBP1_ADDR, 0xFF);
    proof {
        let c4 = bus.cart_spec();
        c4.lemma_same_header_trans(&c3, &c2);
        c4.lemma_same_header_trans(&c2, &c1);
        c4.lemma_same_header_trans(&c1, &c0);
    }
}

} // verus!
