//! The CPU execution engine: register file, interrupt handling, and the
//! opcode dispatch.

use vstd::prelude::*;

use crate::bus::{Bus, BusModel};

verus! {

/// Zero flag.
pub const FLAG_Z: u8 = 0b1000_0000;

/// Subtract flag.
pub const FLAG_N: u8 = 0b0100_0000;

/// Half-carry flag.
pub const FLAG_H: u8 = 0b0010_0000;

/// Carry flag.
pub const FLAG_C: u8 = 0b0001_0000;

/// Address of the interrupt-flag register.
pub const IF_ADDR: u16 = 0xFF0F;

/// Address of the interrupt-enable register.
pub const IE_ADDR: u16 = 0xFFFF;

/// Cycles a halted CPU idles per step.
pub const HALT_CYCLES: u32 = 4;

/// Cycles spent dispatching an interrupt.
pub const INTERRUPT_CYCLES: u32 = 20;

/// The register file.
#[derive(Debug, Clone, Copy, PartialEq, Eq, Structural)]
pub struct Registers {
    pub a: u8,
    pub f: u8,
    pub b: u8,
    pub c: u8,
    pub d: u8,
    pub e: u8,
    pub h: u8,
    pub l: u8,
    pub sp: u16,
    pub pc: u16,
}

/// Register values right after the boot ROM hands over.
pub open spec fn power_on_registers() -> Registers {
    Registers {
        a: 0x01,
        f: 0xB0,
        b: 0x00,
        c: 0x13,
        d: 0x00,
        e: 0xD8,
        h: 0x01,
        l: 0x4D,
        sp: 0xFFFE,
        pc: 0x0100,
    }
}

/// The CPU as a value: registers, interrupt-master-enable, halt state.
pub struct CpuState {
    pub regs: Registers,
    pub ime: bool,
    pub halted: bool,
}

pub open spec fn pair(hi: u8, lo: u8) -> u16 {
    ((hi as u16) << 8u16) | (lo as u16)
}

pub open spec fn high_byte(v: u16) -> u8 {
    (v >> 8u16) as u8
}

pub open spec fn low_byte(v: u16) -> u8 {
    v as u8
}

pub open spec fn inc8(v: u8) -> u8 {
    v.wrapping_add(1)
}

pub open spec fn dec8(v: u8) -> u8 {
    v.wrapping_sub(1)
}

/// Flags after an 8-bit increment of `v`: carry kept, Z on a zero result,
/// H on a carry out of bit 3.
pub open spec fn inc_flags(f: u8, v: u8) -> u8 {
    (f & FLAG_C) | (if inc8(v) == 0 {
        FLAG_Z
    } else {
        0u8
    }) | (if v & 0x0F == 0x0F {
        FLAG_H
    } else {
        0u8
    })
}

/// Flags after an 8-bit decrement of `v`: carry kept, N set, Z on a zero
/// result, H on a borrow into bit 3.
pub open spec fn dec_flags(f: u8, v: u8) -> u8 {
    (f & FLAG_C) | FLAG_N | (if dec8(v) == 0 {
        FLAG_Z
    } else {
        0u8
    }) | (if v & 0x0F == 0 {
        FLAG_H
    } else {
        0u8
    })
}

/// 8-bit register by its opcode index (B, C, D, E, H, L, -, A).
pub open spec fn reg8(r: Registers, i: u8) -> u8 {
    if i == 0 {
        r.b
    } else if i == 1 {
        r.c
    } else if i == 2 {
        r.d
    } else if i == 3 {
        r.e
    } else if i == 4 {
        r.h
    } else if i == 5 {
        r.l
    } else {
        r.a
    }
}

pub open spec fn set_reg8(r: Registers, i: u8, v: u8) -> Registers {
    if i == 0 {
        Registers { b: v, ..r }
    } else if i == 1 {
        Registers { c: v, ..r }
    } else if i == 2 {
        Registers { d: v, ..r }
    } else if i == 3 {
        Registers { e: v, ..r }
    } else if i == 4 {
        Registers { h: v, ..r }
    } else if i == 5 {
        Registers { l: v, ..r }
    } else {
        Registers { a: v, ..r }
    }
}

/// 16-bit register by its opcode index (BC, DE, HL, SP).
pub open spec fn reg16(r: Registers, p: u8) -> u16 {
    if p == 0 {
        pair(r.b, r.c)
    } else if p == 1 {
        pair(r.d, r.e)
    } else if p == 2 {
        pair(r.h, r.l)
    } else {
        r.sp
    }
}

pub open spec fn set_reg16(r: Registers, p: u8, v: u16) -> Registers {
    if p == 0 {
        Registers { b: high_byte(v), c: low_byte(v), ..r }
    } else if p == 1 {
        Registers { d: high_byte(v), e: low_byte(v), ..r }
    } else if p == 2 {
        Registers { h: high_byte(v), l: low_byte(v), ..r }
    } else {
        Registers { sp: v, ..r }
    }
}

/// A flag byte from its four flags; the low nibble stays clear.
pub open spec fn flags_of(z: bool, n: bool, h: bool, c: bool) -> u8 {
    ((if z { 0x80int } else { 0 }) + (if n { 0x40int } else { 0 }) + (if h { 0x20int } else { 0 }) + (
    if c {
        0x10int
    } else {
        0
    })) as u8
}

/// The 8-bit ALU operation `k` (ADD, ADC, SUB, SBC, AND, XOR, OR, CP) on
/// accumulator `a` and operand `v` with incoming flags `f`: the new
/// accumulator and the new flags. Carry and half-carry come from bits 7
/// and 3.
pub open spec fn alu_spec(k: u8, a: u8, v: u8, f: u8) -> (u8, u8) {
    let cin: int = if k == 1 || k == 3 {
        if f & FLAG_C != 0 {
            1
        } else {
            0
        }
    } else {
        0
    };
    if k == 0 || k == 1 {
        let r = ((a + v + cin) % 256) as u8;
        (r, flags_of(r == 0, false, (a % 16) + (v % 16) + cin > 15, a + v + cin > 255))
    } else if k == 2 || k == 3 || k == 7 {
        let r = ((a - v - cin + 256) % 256) as u8;
        let fl = flags_of(r == 0, true, (a % 16) < (v % 16) + cin, (a as int) < v + cin);
        if k == 7 {
            (a, fl)
        } else {
            (r, fl)
        }
    } else if k == 4 {
        let r = a & v;
        (r, flags_of(r == 0, false, true, false))
    } else if k == 5 {
        let r = a ^ v;
        (r, flags_of(r == 0, false, false, false))
    } else {
        let r = a | v;
        (r, flags_of(r == 0, false, false, false))
    }
}

/// Condition `cc` of a conditional jump (NZ, Z, NC, C) under flags `f`.
pub open spec fn condition(cc: u8, f: u8) -> bool {
    if cc == 0 {
        f & FLAG_Z == 0
    } else if cc == 1 {
        f & FLAG_Z != 0
    } else if cc == 2 {
        f & FLAG_C == 0
    } else {
        f & FLAG_C != 0
    }
}

/// `pc` moved by the signed displacement `e`.
pub open spec fn relative(pc: u16, e: u8) -> u16 {
    if e < 128 {
        pc.wrapping_add(e as u16)
    } else {
        pc.wrapping_sub((256 - e) as u16)
    }
}

/// 16-bit register of PUSH / POP by its opcode index (BC, DE, HL, AF).
pub open spec fn stack_pair(r: Registers, p: u8) -> u16 {
    if p == 3 {
        pair(r.a, r.f)
    } else {
        reg16(r, p)
    }
}

pub open spec fn set_stack_pair(r: Registers, p: u8, v: u16) -> Registers {
    if p == 3 {
        Registers { a: high_byte(v), f: low_byte(v) & 0xF0, ..r }
    } else {
        set_reg16(r, p, v)
    }
}

/// Push `v`: high byte at SP - 1, low byte at SP - 2.
pub open spec fn push_spec(r: Registers, m: BusModel, v: u16) -> (Registers, BusModel) {
    let sp1 = r.sp.wrapping_sub(1);
    let sp2 = sp1.wrapping_sub(1);
    (Registers { sp: sp2, ..r }, m.write(sp1, high_byte(v)).write(sp2, low_byte(v)))
}

/// Pop a 16-bit value: low byte at SP, high byte at SP + 1.
pub open spec fn pop_spec(r: Registers, m: BusModel) -> (Registers, u16) {
    let sp1 = r.sp.wrapping_add(1);
    (Registers { sp: sp1.wrapping_add(1), ..r }, pair(m.read(sp1), m.read(r.sp)))
}

/// Opcodes 0x80..0xC0 and the immediate forms 0xC6, 0xCE, ..., 0xFE.
pub open spec fn alu_op_spec(s: CpuState, m: BusModel, op: u8) -> (CpuState, BusModel, u32) {
    let r = s.regs;
    let k = (op >> 3u8) & 7;
    if op >= 0xC0 {
        let (a, f) = alu_spec(k, r.a, m.read(r.pc), r.f);
        (CpuState { regs: Registers { a, f, pc: r.pc.wrapping_add(1), ..r }, ..s }, m, 8)
    } else {
        let src = op & 7;
        let v = if src == 6 {
            m.read(pair(r.h, r.l))
        } else {
            reg8(r, src)
        };
        let (a, f) = alu_spec(k, r.a, v, r.f);
        (CpuState { regs: Registers { a, f, ..r }, ..s }, m, if src == 6 {
            8
        } else {
            4
        })
    }
}

/// PUSH, POP, CALL, RET, JR, JR cc.
pub open spec fn flow_op_spec(s: CpuState, m: BusModel, op: u8) -> (CpuState, BusModel, u32) {
    let r = s.regs;
    let p = (op >> 4u8) & 3;
    if op & 0xCF == 0xC5 {
        let (r2, m2) = push_spec(r, m, stack_pair(r, p));
        (CpuState { regs: r2, ..s }, m2, 16)
    } else if op & 0xCF == 0xC1 {
        let (r2, v) = pop_spec(r, m);
        (CpuState { regs: set_stack_pair(r2, p, v), ..s }, m, 12)
    } else if op == 0xCD {
        let target = pair(m.read(r.pc.wrapping_add(1)), m.read(r.pc));
        let (r2, m2) = push_spec(r, m, r.pc.wrapping_add(2));
        (CpuState { regs: Registers { pc: target, ..r2 }, ..s }, m2, 24)
    } else if op == 0xC9 {
        let (r2, v) = pop_spec(r, m);
        (CpuState { regs: Registers { pc: v, ..r2 }, ..s }, m, 16)
    } else {
        // JR e (0x18) and JR cc, e (0x20, 0x28, 0x30, 0x38)
        let next = r.pc.wrapping_add(1);
        if op == 0x18 || condition((op >> 3u8) & 3, r.f) {
            (CpuState { regs: Registers { pc: relative(next, m.read(r.pc)), ..r }, ..s }, m, 12)
        } else {
            (CpuState { regs: Registers { pc: next, ..r }, ..s }, m, 8)
        }
    }
}

/// Loads through HL with post-increment or post-decrement (0x22, 0x2A,
/// 0x32, 0x3A) and the high-page loads LDH (0xE0, 0xF0).
pub open spec fn memory_op_spec(s: CpuState, m: BusModel, op: u8) -> (CpuState, BusModel, u32) {
    let r = s.regs;
    let hl = pair(r.h, r.l);
    if op == 0xE0 || op == 0xF0 {
        let addr = (0xFF00 + m.read(r.pc)) as u16;
        let pc = r.pc.wrapping_add(1);
        if op == 0xE0 {
            (CpuState { regs: Registers { pc, ..r }, ..s }, m.write(addr, r.a), 12)
        } else {
            (CpuState { regs: Registers { a: m.read(addr), pc, ..r }, ..s }, m, 12)
        }
    } else {
        let hl2 = if op < 0x30 {
            hl.wrapping_add(1)
        } else {
            hl.wrapping_sub(1)
        };
        let r2 = set_reg16(r, 2, hl2);
        if op & 0x0F == 0x02 {
            (CpuState { regs: r2, ..s }, m.write(hl, r.a), 8)
        } else {
            (CpuState { regs: Registers { a: m.read(hl), ..r2 }, ..s }, m, 8)
        }
    }
}

/// Opcodes handled by `alu_op_spec`.
pub open spec fn is_alu_op(op: u8) -> bool {
    (0x80 <= op < 0xC0) || op & 0xC7 == 0xC6
}

/// Opcodes handled by `flow_op_spec`.
pub open spec fn is_flow_op(op: u8) -> bool {
    op & 0xCF == 0xC5 || op & 0xCF == 0xC1 || op == 0xCD || op == 0xC9 || op == 0x18 || op
        == 0x20 || op == 0x28 || op == 0x30 || op == 0x38
}

/// Opcodes handled by `memory_op_spec`.
pub open spec fn is_memory_op(op: u8) -> bool {
    op == 0x22 || op == 0x2A || op == 0x32 || op == 0x3A || op == 0xE0 || op == 0xF0
}

/// Rotates of A through or into carry, CPL, SCF, CCF, ADD HL,rr, JP (HL),
/// LD SP,HL, and the loads through (C) and (nn).
pub open spec fn misc_op_spec(s: CpuState, m: BusModel, op: u8) -> (CpuState, BusModel, u32) {
    let r = s.regs;
    let z = r.f & FLAG_Z != 0;
    let cin: u8 = if r.f & FLAG_C != 0 {
        1
    } else {
        0
    };
    let hl = pair(r.h, r.l);
    let nn = pair(m.read(r.pc.wrapping_add(1)), m.read(r.pc));
    if op == 0x0F {
        let c = r.a & 1;
        let a = (r.a >> 1u8) | (c << 7u8);
        (CpuState { regs: Registers { a, f: flags_of(false, false, false, c != 0), ..r }, ..s }, m, 4)
    } else if op == 0x17 {
        let a = (r.a << 1u8) | cin;
        (CpuState { regs: Registers { a, f: flags_of(false, false, false, r.a >> 7u8 != 0), ..r }, ..s }, m, 4)
    } else if op == 0x1F {
        let a = (r.a >> 1u8) | (cin << 7u8);
        (CpuState { regs: Registers { a, f: flags_of(false, false, false, r.a & 1 != 0), ..r }, ..s }, m, 4)
    } else if op == 0x2F {
        (CpuState { regs: Registers { a: !r.a, f: r.f | FLAG_N | FLAG_H, ..r }, ..s }, m, 4)
    } else if op == 0x37 {
        (CpuState { regs: Registers { f: flags_of(z, false, false, true), ..r }, ..s }, m, 4)
    } else if op == 0x3F {
        (CpuState { regs: Registers { f: flags_of(z, false, false, cin == 0), ..r }, ..s }, m, 4)
    } else if op & 0xCF == 0x09 {
        let v = reg16(r, (op >> 4u8) & 3);
        let sum = hl + v;
        let f = flags_of(z, false, (hl % 4096) + (v % 4096) > 4095, sum > 65535);
        (CpuState { regs: Registers { f, ..set_reg16(r, 2, (sum % 65536) as u16) }, ..s }, m, 8)
    } else if op == 0xE9 {
        (CpuState { regs: Registers { pc: hl, ..r }, ..s }, m, 4)
    } else if op == 0xF9 {
        (CpuState { regs: Registers { sp: hl, ..r }, ..s }, m, 8)
    } else if op == 0xE2 {
        (s, m.write((0xFF00 + r.c) as u16, r.a), 8)
    } else if op == 0xF2 {
        (CpuState { regs: Registers { a: m.read((0xFF00 + r.c) as u16), ..r }, ..s }, m, 8)
    } else if op == 0xEA {
        (CpuState { regs: Registers { pc: r.pc.wrapping_add(2), ..r }, ..s }, m.write(nn, r.a), 16)
    } else {
        // LD A, (nn)
        (CpuState { regs: Registers { a: m.read(nn), pc: r.pc.wrapping_add(2), ..r }, ..s }, m, 16)
    }
}

/// JP cc, CALL cc, RET cc, RETI and RST.
pub open spec fn branch_op_spec(s: CpuState, m: BusModel, op: u8) -> (CpuState, BusModel, u32) {
    let r = s.regs;
    let taken = condition((op >> 3u8) & 3, r.f);
    let nn = pair(m.read(r.pc.wrapping_add(1)), m.read(r.pc));
    let after = r.pc.wrapping_add(2);
    if op & 0xE7 == 0xC2 {
        if taken {
            (CpuState { regs: Registers { pc: nn, ..r }, ..s }, m, 16)
        } else {
            (CpuState { regs: Registers { pc: after, ..r }, ..s }, m, 12)
        }
    } else if op & 0xE7 == 0xC4 {
        if taken {
            let (r2, m2) = push_spec(r, m, after);
            (CpuState { regs: Registers { pc: nn, ..r2 }, ..s }, m2, 24)
        } else {
            (CpuState { regs: Registers { pc: after, ..r }, ..s }, m, 12)
        }
    } else if op & 0xE7 == 0xC0 {
        if taken {
            let (r2, v) = pop_spec(r, m);
            (CpuState { regs: Registers { pc: v, ..r2 }, ..s }, m, 20)
        } else {
            (s, m, 8)
        }
    } else if op == 0xD9 {
        let (r2, v) = pop_spec(r, m);
        (CpuState { regs: Registers { pc: v, ..r2 }, ime: true, ..s }, m, 16)
    } else {
        // RST: call the fixed vector op & 0x38
        let (r2, m2) = push_spec(r, m, r.pc);
        (CpuState { regs: Registers { pc: (op & 0x38) as u16, ..r2 }, ..s }, m2, 16)
    }
}

/// Opcodes handled by `misc_op_spec`.
pub open spec fn is_misc_op(op: u8) -> bool {
    op == 0x0F || op == 0x17 || op == 0x1F || op == 0x2F || op == 0x37 || op == 0x3F || op & 0xCF
        == 0x09 || op == 0xE9 || op == 0xF9 || op == 0xE2 || op == 0xF2 || op == 0xEA || op == 0xFA
}

/// Opcodes handled by `branch_op_spec`.
pub open spec fn is_branch_op(op: u8) -> bool {
    op & 0xE7 == 0xC2 || op & 0xE7 == 0xC4 || op & 0xE7 == 0xC0 || op == 0xD9 || op & 0xC7 == 0xC7
}

/// Rotate/shift `k` of the prefixed table (RLC, RRC, RL, RR, SLA, SRA, SWAP,
/// SRL) on `v` with incoming flags `f`: the result and the new flags.
pub open spec fn shift_spec(k: u8, v: u8, f: u8) -> (u8, u8) {
    let cin: u8 = if f & FLAG_C != 0 {
        1
    } else {
        0
    };
    let (r, c) = if k == 0 {
        ((v << 1u8) | (v >> 7u8), v >> 7u8)
    } else if k == 1 {
        ((v >> 1u8) | (v << 7u8), v & 1)
    } else if k == 2 {
        ((v << 1u8) | cin, v >> 7u8)
    } else if k == 3 {
        ((v >> 1u8) | (cin << 7u8), v & 1)
    } else if k == 4 {
        (v << 1u8, v >> 7u8)
    } else if k == 5 {
        ((v >> 1u8) | (v & 0x80), v & 1)
    } else if k == 6 {
        ((v << 4u8) | (v >> 4u8), 0u8)
    } else {
        (v >> 1u8, v & 1)
    };
    (r, flags_of(r == 0, false, false, c != 0))
}

/// Prefixed opcode `cb` on operand `v`: the new operand and the new flags.
/// Rows 0x00..0x40 rotate and shift, then BIT, RES and SET of bit
/// (cb >> 3) & 7; BIT leaves the operand as it was.
pub open spec fn prefixed_spec(cb: u8, v: u8, f: u8) -> (u8, u8) {
    let b = (cb >> 3u8) & 7;
    let group = cb >> 6u8;
    if group == 0 {
        shift_spec(b, v, f)
    } else if group == 1 {
        (v, flags_of(v & (1u8 << b) == 0, false, true, f & FLAG_C != 0))
    } else if group == 2 {
        (v & !(1u8 << b), f)
    } else {
        (v | (1u8 << b), f)
    }
}

/// Opcode 0xCB: the next byte selects a prefixed operation on a register,
/// or on the byte at HL.
pub open spec fn cb_op_spec(s: CpuState, m: BusModel) -> (CpuState, BusModel, u32) {
    let r0 = s.regs;
    let cb = m.read(r0.pc);
    let r = Registers { pc: r0.pc.wrapping_add(1), ..r0 };
    let i = cb & 7;
    let hl = pair(r.h, r.l);
    if i == 6 {
        let (v, f) = prefixed_spec(cb, m.read(hl), r.f);
        if cb >> 6u8 == 1 {
            (CpuState { regs: Registers { f, ..r }, ..s }, m, 12)
        } else {
            (CpuState { regs: Registers { f, ..r }, ..s }, m.write(hl, v), 16)
        }
    } else {
        let (v, f) = prefixed_spec(cb, reg8(r, i), r.f);
        (CpuState { regs: Registers { f, ..set_reg8(r, i, v) }, ..s }, m, 8)
    }
}

/// Decimal adjust of `a` after a BCD addition or subtraction, by the N, H
/// and C flags of `f`: the result and the new flags.
pub open spec fn daa_spec(a: u8, f: u8) -> (u8, u8) {
    let h = f & FLAG_H != 0;
    let c = f & FLAG_C != 0;
    if f & FLAG_N == 0 {
        let hi = c || a > 0x99;
        let lo = h || a % 16 > 9;
        let adj: int = (if hi { 0x60int } else { 0 }) + (if lo { 6int } else { 0 });
        let r = ((a + adj) % 256) as u8;
        (r, flags_of(r == 0, false, false, hi))
    } else {
        let adj: int = (if c { 0x60int } else { 0 }) + (if h { 6int } else { 0 });
        let r = ((a - adj + 256) % 256) as u8;
        (r, flags_of(r == 0, true, false, c))
    }
}

/// SP plus the signed byte `e`, with the flags of the unsigned low-byte
/// addition (Z and N clear).
pub open spec fn sp_offset_spec(sp: u16, e: u8) -> (u16, u8) {
    let f = flags_of(false, false, (sp % 16) + (e % 16) > 15, (sp % 256) + e > 255);
    (relative(sp, e), f)
}

/// LD (nn), SP; DAA; ADD SP, e; LD HL, SP + e.
pub open spec fn extra_op_spec(s: CpuState, m: BusModel, op: u8) -> (CpuState, BusModel, u32) {
    let r = s.regs;
    if op == 0x08 {
        let nn = pair(m.read(r.pc.wrapping_add(1)), m.read(r.pc));
        let m2 = m.write(nn, low_byte(r.sp)).write(nn.wrapping_add(1), high_byte(r.sp));
        (CpuState { regs: Registers { pc: r.pc.wrapping_add(2), ..r }, ..s }, m2, 20)
    } else if op == 0x27 {
        let (a, f) = daa_spec(r.a, r.f);
        (CpuState { regs: Registers { a, f, ..r }, ..s }, m, 4)
    } else {
        let (v, f) = sp_offset_spec(r.sp, m.read(r.pc));
        let pc = r.pc.wrapping_add(1);
        if op == 0xE8 {
            (CpuState { regs: Registers { sp: v, f, pc, ..r }, ..s }, m, 16)
        } else {
            (CpuState { regs: Registers { f, pc, ..set_reg16(r, 2, v) }, ..s }, m, 12)
        }
    }
}

/// The effect of opcode `op` on a CPU whose program counter already points
/// past it: the new CPU, the new bus and the cycles taken. NOP, STOP and the
/// eleven undefined opcodes take 4 cycles and change nothing.
pub open spec fn exec_spec(s: CpuState, m: BusModel, op: u8) -> (CpuState, BusModel, u32) {
    let r = s.regs;
    let pc1 = r.pc.wrapping_add(1);
    let pc2 = pc1.wrapping_add(1);
    let imm8 = m.read(r.pc);
    let imm16 = pair(m.read(pc1), imm8);
    let hl = pair(r.h, r.l);
    if op & 0xCF == 0x01 {
        // LD rr, nn
        (CpuState { regs: set_reg16(Registers { pc: pc2, ..r }, op >> 4u8, imm16), ..s }, m, 12)
    } else if op == 0x02 || op == 0x12 {
        // LD (BC), A / LD (DE), A
        (s, m.write(reg16(r, op >> 4u8), r.a), 8)
    } else if op == 0x0A || op == 0x1A {
        // LD A, (BC) / LD A, (DE)
        (CpuState { regs: Registers { a: m.read(reg16(r, op >> 4u8)), ..r }, ..s }, m, 8)
    } else if op & 0xCF == 0x03 {
        // INC rr
        let p = op >> 4u8;
        (CpuState { regs: set_reg16(r, p, reg16(r, p).wrapping_add(1)), ..s }, m, 8)
    } else if op & 0xCF == 0x0B {
        // DEC rr
        let p = op >> 4u8;
        (CpuState { regs: set_reg16(r, p, reg16(r, p).wrapping_sub(1)), ..s }, m, 8)
    } else if op & 0xC7 == 0x04 {
        // INC r / INC (HL)
        let i = (op >> 3u8) & 7;
        if i == 6 {
            let v = m.read(hl);
            (CpuState { regs: Registers { f: inc_flags(r.f, v), ..r }, ..s }, m.write(hl, inc8(v)), 12)
        } else {
            let v = reg8(r, i);
            (CpuState { regs: Registers { f: inc_flags(r.f, v), ..set_reg8(r, i, inc8(v)) }, ..s }, m, 4)
        }
    } else if op & 0xC7 == 0x05 {
        // DEC r / DEC (HL)
        let i = (op >> 3u8) & 7;
        if i == 6 {
            let v = m.read(hl);
            (CpuState { regs: Registers { f: dec_flags(r.f, v), ..r }, ..s }, m.write(hl, dec8(v)), 12)
        } else {
            let v = reg8(r, i);
            (CpuState { regs: Registers { f: dec_flags(r.f, v), ..set_reg8(r, i, dec8(v)) }, ..s }, m, 4)
        }
    } else if op & 0xC7 == 0x06 {
        // LD r, n / LD (HL), n
        let i = (op >> 3u8) & 7;
        if i == 6 {
            (CpuState { regs: Registers { pc: pc1, ..r }, ..s }, m.write(hl, imm8), 12)
        } else {
            (CpuState { regs: set_reg8(Registers { pc: pc1, ..r }, i, imm8), ..s }, m, 8)
        }
    } else if op == 0x07 {
        // RLCA
        let carry = r.a >> 7u8;
        let f = if carry != 0 {
            FLAG_C
        } else {
            0u8
        };
        (CpuState { regs: Registers { a: (r.a << 1u8) | carry, f, ..r }, ..s }, m, 4)
    } else if op == 0x76 {
        // HALT
        (CpuState { halted: true, ..s }, m, 4)
    } else if 0x40 <= op < 0x80 {
        // LD r, r' with (HL) on either side
        let dst = (op >> 3u8) & 7;
        let src = op & 7;
        let v = if src == 6 {
            m.read(hl)
        } else {
            reg8(r, src)
        };
        if dst == 6 {
            (s, m.write(hl, v), 8)
        } else if src == 6 {
            (CpuState { regs: set_reg8(r, dst, v), ..s }, m, 8)
        } else {
            (CpuState { regs: set_reg8(r, dst, v), ..s }, m, 4)
        }
    } else if is_alu_op(op) {
        alu_op_spec(s, m, op)
    } else if is_flow_op(op) {
        flow_op_spec(s, m, op)
    } else if is_memory_op(op) {
        memory_op_spec(s, m, op)
    } else if is_misc_op(op) {
        misc_op_spec(s, m, op)
    } else if is_branch_op(op) {
        branch_op_spec(s, m, op)
    } else if op == 0xCB {
        cb_op_spec(s, m)
    } else if op == 0x08 || op == 0x27 || op == 0xE8 || op == 0xF8 {
        extra_op_spec(s, m, op)
    } else if op == 0xC3 {
        // JP nn
        (CpuState { regs: Registers { pc: imm16, ..r }, ..s }, m, 16)
    } else if op == 0xF3 {
        // DI
        (CpuState { ime: false, ..s }, m, 4)
    } else if op == 0xFB {
        // EI
        (CpuState { ime: true, ..s }, m, 4)
    } else {
        // NOP, STOP and the undefined opcodes
        (s, m, 4)
    }
}

/// Interrupts both requested and enabled (bits 0..5 of IF & IE).
pub open spec fn pending(m: BusModel) -> u8 {
    m.read(IE_ADDR) & m.read(IF_ADDR) & 0x1F
}

/// The highest-priority pending interrupt: the lowest set bit.
pub open spec fn lowest_bit(p: u8) -> u8 {
    if p & 1 != 0 {
        0
    } else if p & 2 != 0 {
        1
    } else if p & 4 != 0 {
        2
    } else if p & 8 != 0 {
        3
    } else {
        4
    }
}

/// Interrupt dispatch: acknowledge the request, push the program counter,
/// disable interrupts and jump to the vector.
pub open spec fn service_spec(s: CpuState, m: BusModel, p: u8) -> (CpuState, BusModel, u32) {
    let k = lowest_bit(p);
    let m1 = m.write(IF_ADDR, m.read(IF_ADDR) & !(1u8 << k));
    let sp1 = s.regs.sp.wrapping_sub(1);
    let m2 = m1.write(sp1, high_byte(s.regs.pc));
    let sp2 = sp1.wrapping_sub(1);
    let m3 = m2.write(sp2, low_byte(s.regs.pc));
    (
        CpuState {
            regs: Registers { sp: sp2, pc: (0x40 + 8 * k) as u16, ..s.regs },
            ime: false,
            halted: false,
        },
        m3,
        INTERRUPT_CYCLES,
    )
}

/// One CPU step: dispatch a pending interrupt if enabled, idle while halted
/// with nothing pending, else fetch and execute one opcode.
pub open spec fn step_spec(s: CpuState, m: BusModel) -> (CpuState, BusModel, u32) {
    let p = pending(m);
    if s.ime && p != 0 {
        service_spec(s, m, p)
    } else if s.halted && p == 0 {
        (s, m, HALT_CYCLES)
    } else {
        exec_spec(
            CpuState { regs: Registers { pc: s.regs.pc.wrapping_add(1), ..s.regs }, halted: false, ..s },
            m,
            m.read(s.regs.pc),
        )
    }
}

/// The CPU.
pub struct Cpu {
    regs: Registers,
    ime: bool,
    halted: bool,
}

impl View for Cpu {
    type V = CpuState;

    closed spec fn view(&self) -> CpuState {
        CpuState { regs: self.regs, ime: self.ime, halted: self.halted }
    }
}

impl Cpu {
    /// Power-on state: boot register values, interrupts off, running.
    pub fn new() -> (r: Cpu)
        ensures
            r@ == (CpuState { regs: power_on_registers(), ime: false, halted: false }),
    {
        Cpu {
            regs: Registers {
                a: 0x01,
                f: 0xB0,
                b: 0x00,
                c: 0x13,
                d: 0x00,
                e: 0xD8,
                h: 0x01,
                l: 0x4D,
                sp: 0xFFFE,
                pc: 0x0100,
            },
            ime: false,
            halted: false,
        }
    }

    pub fn reset(&mut self)
        ensures
            final(self)@ == (CpuState { regs: power_on_registers(), ime: false, halted: false }),
    {
        *self = Self::new();
    }

    pub fn registers(&self) -> (r: Registers)
        ensures
            r == self@.regs,
    {
        self.regs
    }

    pub fn ime(&self) -> (r: bool)
        ensures
            r == self@.ime,
    {
        self.ime
    }

    pub fn halted(&self) -> (r: bool)
        ensures
            r == self@.halted,
    {
        self.halted
    }

    /// Execute one step and return the cycles it took.
    pub fn step(&mut self, bus: &mut Bus) -> (r: u32)
        requires
            old(bus).wf(),
        ensures
            final(bus).wf(),
            (final(self)@, final(bus)@, r) == step_spec(old(self)@, old(bus)@),
    {
        let pending = bus.read(IE_ADDR) & bus.read(IF_ADDR) & 0x1F;
        if self.ime && pending != 0 {
            return self.service(bus, pending);
        }
        if self.halted {
            if pending == 0 {
                return HALT_CYCLES;
            }
            self.halted = false;
        }
        let opcode = bus.read(self.regs.pc);
        self.regs.pc = self.regs.pc.wrapping_add(1);
        self.execute(opcode, bus)
    }

    /// Dispatch the highest-priority interrupt among `pending`.
    fn service(&mut self, bus: &mut Bus, pending: u8) -> (r: u32)
        requires
            old(bus).wf(),
            pending == crate::cpu::pending(old(bus)@),
        ensures
            final(bus).wf(),
            (final(self)@, final(bus)@, r) == service_spec(old(self)@, old(bus)@, pending),
    {
        let k: u8 = if pending & 1 != 0 {
            0
        } else if pending & 2 != 0 {
            1
        } else if pending & 4 != 0 {
            2
        } else if pending & 8 != 0 {
            3
        } else {
            4
        };
        let flags = bus.read(IF_ADDR);
        bus.write(IF_ADDR, flags & !(1u8 << k));
        let pc = self.regs.pc;
        self.regs.sp = self.regs.sp.wrapping_sub(1);
        bus.write(self.regs.sp, (pc >> 8) as u8);
        self.regs.sp = self.regs.sp.wrapping_sub(1);
        bus.write(self.regs.sp, pc as u8);
        self.regs.pc = 0x40 + 8 * (k as u16);
        self.ime = false;
        self.halted = false;
        INTERRUPT_CYCLES
    }

    /// Read the byte at the program counter and advance past it.
    fn fetch(&mut self, bus: &Bus) -> (r: u8)
        requires
            bus.wf(),
        ensures
            r == bus@.read(old(self)@.regs.pc),
            final(self)@ == (CpuState {
                regs: Registers { pc: old(self)@.regs.pc.wrapping_add(1), ..old(self)@.regs },
                ..old(self)@
            }),
    {
        let v = bus.read(self.regs.pc);
        self.regs.pc = self.regs.pc.wrapping_add(1);
        v
    }

    fn reg(&self, i: u8) -> (r: u8)
        ensures
            r == reg8(self@.regs, i),
    {
        match i {
            0 => self.regs.b,
            1 => self.regs.c,
            2 => self.regs.d,
            3 => self.regs.e,
            4 => self.regs.h,
            5 => self.regs.l,
            _ => self.regs.a,
        }
    }

    fn set_reg(&mut self, i: u8, v: u8)
        ensures
            final(self)@ == (CpuState { regs: set_reg8(old(self)@.regs, i, v), ..old(self)@ }),
    {
        match i {
            0 => self.regs.b = v,
            1 => self.regs.c = v,
            2 => self.regs.d = v,
            3 => self.regs.e = v,
            4 => self.regs.h = v,
            5 => self.regs.l = v,
            _ => self.regs.a = v,
        }
    }

    fn reg_pair(&self, p: u8) -> (r: u16)
        ensures
            r == reg16(self@.regs, p),
    {
        match p {
            0 => self.bc(),
            1 => self.de(),
            2 => self.hl(),
            _ => self.regs.sp,
        }
    }

    fn set_reg_pair(&mut self, p: u8, v: u16)
        ensures
            final(self)@ == (CpuState { regs: set_reg16(old(self)@.regs, p, v), ..old(self)@ }),
    {
        let hi = (v >> 8) as u8;
        let lo = v as u8;
        match p {
            0 => {
                self.regs.b = hi;
                self.regs.c = lo;
            },
            1 => {
                self.regs.d = hi;
                self.regs.e = lo;
            },
            2 => {
                self.regs.h = hi;
                self.regs.l = lo;
            },
            _ => self.regs.sp = v,
        }
    }

    /// Increment `val`, setting the flags for it; returns the result.
    pub fn inc(&mut self, val: u8) -> (r: u8)
        ensures
            r == inc8(val),
            final(self)@ == (CpuState {
                regs: Registers { f: inc_flags(old(self)@.regs.f, val), ..old(self)@.regs },
                ..old(self)@
            }),
    {
        let result = val.wrapping_add(1);
        let z: u8 = if result == 0 { FLAG_Z } else { 0 };
        let h: u8 = if (val & 0x0F) == 0x0F { FLAG_H } else { 0 };
        self.regs.f = (self.regs.f & FLAG_C) | z | h;
        result
    }

    /// Decrement `val`, setting the flags for it; returns the result.
    pub fn dec(&mut self, val: u8) -> (r: u8)
        ensures
            r == dec8(val),
            final(self)@ == (CpuState {
                regs: Registers { f: dec_flags(old(self)@.regs.f, val), ..old(self)@.regs },
                ..old(self)@
            }),
    {
        let result = val.wrapping_sub(1);
        let z: u8 = if result == 0 { FLAG_Z } else { 0 };
        let h: u8 = if (val & 0x0F) == 0 { FLAG_H } else { 0 };
        self.regs.f = (self.regs.f & FLAG_C) | FLAG_N | z | h;
        result
    }

    fn bc(&self) -> (r: u16)
        ensures
            r == pair(self@.regs.b, self@.regs.c),
    {
        ((self.regs.b as u16) << 8) | (self.regs.c as u16)
    }

    fn de(&self) -> (r: u16)
        ensures
            r == pair(self@.regs.d, self@.regs.e),
    {
        ((self.regs.d as u16) << 8) | (self.regs.e as u16)
    }

    fn hl(&self) -> (r: u16)
        ensures
            r == pair(self@.regs.h, self@.regs.l),
    {
        ((self.regs.h as u16) << 8) | (self.regs.l as u16)
    }

    /// Execute `opcode`, whose byte the program counter has already passed.
    fn execute(&mut self, opcode: u8, bus: &mut Bus) -> (r: u32)
        requires
            old(bus).wf(),
        ensures
            final(bus).wf(),
            (final(self)@, final(bus)@, r) == exec_spec(old(self)@, old(bus)@, opcode),
    {
        if opcode & 0xCF == 0x01 {
            // LD rr, nn
            let low = self.fetch(bus);
            let high = self.fetch(bus);
            self.set_reg_pair(opcode >> 4, ((high as u16) << 8) | (low as u16));
            12
        } else if opcode == 0x02 || opcode == 0x12 {
            // LD (BC), A / LD (DE), A
            let addr = self.reg_pair(opcode >> 4);
            bus.write(addr, self.regs.a);
            8
        } else if opcode == 0x0A || opcode == 0x1A {
            // LD A, (BC) / LD A, (DE)
            let addr = self.reg_pair(opcode >> 4);
            self.regs.a = bus.read(addr);
            8
        } else if opcode & 0xCF == 0x03 {
            // INC rr
            let p = opcode >> 4;
            let v = self.reg_pair(p).wrapping_add(1);
            self.set_reg_pair(p, v);
            8
        } else if opcode & 0xCF == 0x0B {
            // DEC rr
            let p = opcode >> 4;
            let v = self.reg_pair(p).wrapping_sub(1);
            self.set_reg_pair(p, v);
            8
        } else if opcode & 0xC7 == 0x04 {
            // INC r / INC (HL)
            let i = (opcode >> 3) & 7;
            if i == 6 {
                let addr = self.hl();
                let v = bus.read(addr);
                let result = self.inc(v);
                bus.write(addr, result);
                12
            } else {
                let v = self.reg(i);
                let result = self.inc(v);
                self.set_reg(i, result);
                4
            }
        } else if opcode & 0xC7 == 0x05 {
            // DEC r / DEC (HL)
            let i = (opcode >> 3) & 7;
            if i == 6 {
                let addr = self.hl();
                let v = bus.read(addr);
                let result = self.dec(v);
                bus.write(addr, result);
                12
            } else {
                let v = self.reg(i);
                let result = self.dec(v);
                self.set_reg(i, result);
                4
            }
        } else if opcode & 0xC7 == 0x06 {
            // LD r, n / LD (HL), n
            let i = (opcode >> 3) & 7;
            let n = self.fetch(bus);
            if i == 6 {
                let addr = self.hl();
                bus.write(addr, n);
                12
            } else {
                self.set_reg(i, n);
                8
            }
        } else if opcode == 0x07 {
            // RLCA
            let carry = self.regs.a >> 7;
            self.regs.a = (self.regs.a << 1) | carry;
            self.regs.f = if carry != 0 { FLAG_C } else { 0 };
            4
        } else if opcode == 0x76 {
            // HALT
            self.halted = true;
            4
        } else if 0x40 <= opcode && opcode < 0x80 {
            // LD r, r'
            let dst = (opcode >> 3) & 7;
            let src = opcode & 7;
            let v = if src == 6 {
                bus.read(self.hl())
            } else {
                self.reg(src)
            };
            if dst == 6 {
                let addr = self.hl();
                bus.write(addr, v);
                8
            } else {
                self.set_reg(dst, v);
                if src == 6 { 8 } else { 4 }
            }
        } else if (0x80 <= opcode && opcode < 0xC0) || opcode & 0xC7 == 0xC6 {
            self.alu_op(opcode, bus)
        } else if opcode & 0xCF == 0xC5 || opcode & 0xCF == 0xC1 || opcode == 0xCD || opcode == 0xC9
            || opcode == 0x18 || opcode == 0x20 || opcode == 0x28 || opcode == 0x30 || opcode
            == 0x38 {
            self.flow_op(opcode, bus)
        } else if opcode == 0x22 || opcode == 0x2A || opcode == 0x32 || opcode == 0x3A || opcode
            == 0xE0 || opcode == 0xF0 {
            self.memory_op(opcode, bus)
        } else if opcode == 0x0F || opcode == 0x17 || opcode == 0x1F || opcode == 0x2F || opcode
            == 0x37 || opcode == 0x3F || opcode & 0xCF == 0x09 || opcode == 0xE9 || opcode == 0xF9
            || opcode == 0xE2 || opcode == 0xF2 || opcode == 0xEA || opcode == 0xFA {
            self.misc_op(opcode, bus)
        } else if opcode & 0xE7 == 0xC2 || opcode & 0xE7 == 0xC4 || opcode & 0xE7 == 0xC0 || opcode
            == 0xD9 || opcode & 0xC7 == 0xC7 {
            self.branch_op(opcode, bus)
        } else if opcode == 0xCB {
            self.cb_op(bus)
        } else if opcode == 0x08 || opcode == 0x27 || opcode == 0xE8 || opcode == 0xF8 {
            self.extra_op(opcode, bus)
        } else if opcode == 0xC3 {
            // JP nn
            let low = self.fetch(bus);
            let high = self.fetch(bus);
            self.regs.pc = ((high as u16) << 8) | (low as u16);
            16
        } else if opcode == 0xF3 {
            // DI
            self.ime = false;
            4
        } else if opcode == 0xFB {
            // EI
            self.ime = true;
            4
        } else {
            // NOP, STOP and the undefined opcodes
            4
        }
    }

    /// ALU operation `k` on the accumulator and `v`.
    fn alu(&mut self, k: u8, v: u8)
        ensures
            final(self)@ == (CpuState {
                regs: Registers {
                    a: alu_spec(k, old(self)@.regs.a, v, old(self)@.regs.f).0,
                    f: alu_spec(k, old(self)@.regs.a, v, old(self)@.regs.f).1,
                    ..old(self)@.regs
                },
                ..old(self)@
            }),
    {
        let a = self.regs.a;
        let cin: u8 = if (k == 1 || k == 3) && self.regs.f & FLAG_C != 0 { 1 } else { 0 };
        if k == 0 || k == 1 {
            let sum: u16 = a as u16 + v as u16 + cin as u16;
            let r = (sum % 256) as u8;
            self.regs.f = make_flags(r == 0, false, (a % 16) + (v % 16) + cin > 15, sum > 255);
            self.regs.a = r;
        } else if k == 2 || k == 3 || k == 7 {
            let r = ((a as u16 + 256 - v as u16 - cin as u16) % 256) as u8;
            self.regs.f = make_flags(
                r == 0,
                true,
                (a % 16) < (v % 16) + cin,
                (a as u16) < (v as u16) + (cin as u16),
            );
            if k != 7 {
                self.regs.a = r;
            }
        } else if k == 4 {
            let r = a & v;
            self.regs.f = make_flags(r == 0, false, true, false);
            self.regs.a = r;
        } else if k == 5 {
            let r = a ^ v;
            self.regs.f = make_flags(r == 0, false, false, false);
            self.regs.a = r;
        } else {
            let r = a | v;
            self.regs.f = make_flags(r == 0, false, false, false);
            self.regs.a = r;
        }
    }

    /// ALU opcodes on a register, on (HL), or on an immediate byte.
    fn alu_op(&mut self, opcode: u8, bus: &mut Bus) -> (r: u32)
        requires
            old(bus).wf(),
            is_alu_op(opcode),
        ensures
            final(bus).wf(),
            (final(self)@, final(bus)@, r) == alu_op_spec(old(self)@, old(bus)@, opcode),
    {
        let k = (opcode >> 3) & 7;
        if opcode >= 0xC0 {
            let v = self.fetch(bus);
            self.alu(k, v);
            8
        } else {
            let src = opcode & 7;
            if src == 6 {
                let v = bus.read(self.hl());
                self.alu(k, v);
                8
            } else {
                let v = self.reg(src);
                self.alu(k, v);
                4
            }
        }
    }

    fn push(&mut self, bus: &mut Bus, v: u16)
        requires
            old(bus).wf(),
        ensures
            final(bus).wf(),
            (final(self)@.regs, final(bus)@) == push_spec(old(self)@.regs, old(bus)@, v),
            final(self)@.ime == old(self)@.ime,
            final(self)@.halted == old(self)@.halted,
    {
        self.regs.sp = self.regs.sp.wrapping_sub(1);
        bus.write(self.regs.sp, (v >> 8) as u8);
        self.regs.sp = self.regs.sp.wrapping_sub(1);
        bus.write(self.regs.sp, v as u8);
    }

    fn pop(&mut self, bus: &Bus) -> (r: u16)
        requires
            bus.wf(),
        ensures
            (final(self)@.regs, r) == pop_spec(old(self)@.regs, bus@),
            final(self)@.ime == old(self)@.ime,
            final(self)@.halted == old(self)@.halted,
    {
        let lo = bus.read(self.regs.sp);
        self.regs.sp = self.regs.sp.wrapping_add(1);
        let hi = bus.read(self.regs.sp);
        self.regs.sp = self.regs.sp.wrapping_add(1);
        ((hi as u16) << 8) | (lo as u16)
    }

    fn condition_holds(&self, cc: u8) -> (r: bool)
        ensures
            r == condition(cc, self@.regs.f),
    {
        match cc {
            0 => self.regs.f & FLAG_Z == 0,
            1 => self.regs.f & FLAG_Z != 0,
            2 => self.regs.f & FLAG_C == 0,
            _ => self.regs.f & FLAG_C != 0,
        }
    }

    /// Stack and jump opcodes: PUSH, POP, CALL, RET, JR, JR cc.
    fn flow_op(&mut self, opcode: u8, bus: &mut Bus) -> (r: u32)
        requires
            old(bus).wf(),
            is_flow_op(opcode),
        ensures
            final(bus).wf(),
            (final(self)@, final(bus)@, r) == flow_op_spec(old(self)@, old(bus)@, opcode),
    {
        let p = (opcode >> 4) & 3;
        if opcode & 0xCF == 0xC5 {
            let v = if p == 3 {
                ((self.regs.a as u16) << 8) | (self.regs.f as u16)
            } else {
                self.reg_pair(p)
            };
            self.push(bus, v);
            16
        } else if opcode & 0xCF == 0xC1 {
            let v = self.pop(bus);
            if p == 3 {
                self.regs.a = (v >> 8) as u8;
                self.regs.f = (v as u8) & 0xF0;
            } else {
                self.set_reg_pair(p, v);
            }
            12
        } else if opcode == 0xCD {
            let low = self.fetch(bus);
            let high = self.fetch(bus);
            let ret = self.regs.pc;
            self.push(bus, ret);
            self.regs.pc = ((high as u16) << 8) | (low as u16);
            24
        } else if opcode == 0xC9 {
            self.regs.pc = self.pop(bus);
            16
        } else {
            let e = self.fetch(bus);
            if opcode == 0x18 || self.condition_holds((opcode >> 3) & 3) {
                self.regs.pc = if e < 128 {
                    self.regs.pc.wrapping_add(e as u16)
                } else {
                    self.regs.pc.wrapping_sub(256 - e as u16)
                };
                12
            } else {
                8
            }
        }
    }

    /// LD (HL+/-), A; LD A, (HL+/-); LDH (n), A; LDH A, (n).
    fn memory_op(&mut self, opcode: u8, bus: &mut Bus) -> (r: u32)
        requires
            old(bus).wf(),
            is_memory_op(opcode),
        ensures
            final(bus).wf(),
            (final(self)@, final(bus)@, r) == memory_op_spec(old(self)@, old(bus)@, opcode),
    {
        if opcode == 0xE0 || opcode == 0xF0 {
            let n = self.fetch(bus);
            let addr: u16 = 0xFF00 + n as u16;
            if opcode == 0xE0 {
                bus.write(addr, self.regs.a);
            } else {
                self.regs.a = bus.read(addr);
            }
            12
        } else {
            let hl = self.hl();
            let next = if opcode < 0x30 { hl.wrapping_add(1) } else { hl.wrapping_sub(1) };
            if opcode & 0x0F == 0x02 {
                bus.write(hl, self.regs.a);
            } else {
                self.regs.a = bus.read(hl);
            }
            self.set_reg_pair(2, next);
            8
        }
    }

    /// Rotates of A, CPL, SCF, CCF, ADD HL,rr, JP (HL), LD SP,HL and the
    /// loads through (C) and (nn).
    fn misc_op(&mut self, opcode: u8, bus: &mut Bus) -> (r: u32)
        requires
            old(bus).wf(),
            is_misc_op(opcode),
        ensures
            final(bus).wf(),
            (final(self)@, final(bus)@, r) == misc_op_spec(old(self)@, old(bus)@, opcode),
    {
        let a = self.regs.a;
        let z = self.regs.f & FLAG_Z != 0;
        let cin: u8 = if self.regs.f & FLAG_C != 0 { 1 } else { 0 };
        if opcode == 0x0F {
            let c = a & 1;
            self.regs.a = (a >> 1) | (c << 7);
            self.regs.f = make_flags(false, false, false, c != 0);
            4
        } else if opcode == 0x17 {
            self.regs.a = (a << 1) | cin;
            self.regs.f = make_flags(false, false, false, a >> 7 != 0);
            4
        } else if opcode == 0x1F {
            self.regs.a = (a >> 1) | (cin << 7);
            self.regs.f = make_flags(false, false, false, a & 1 != 0);
            4
        } else if opcode == 0x2F {
            self.regs.a = !a;
            self.regs.f = self.regs.f | FLAG_N | FLAG_H;
            4
        } else if opcode == 0x37 {
            self.regs.f = make_flags(z, false, false, true);
            4
        } else if opcode == 0x3F {
            self.regs.f = make_flags(z, false, false, cin == 0);
            4
        } else if opcode & 0xCF == 0x09 {
            let hl = self.hl();
            let v = self.reg_pair((opcode >> 4) & 3);
            let sum: u32 = hl as u32 + v as u32;
            let f = make_flags(z, false, (hl % 4096) + (v % 4096) > 4095, sum > 65535);
            self.set_reg_pair(2, (sum % 65536) as u16);
            self.regs.f = f;
            8
        } else if opcode == 0xE9 {
            self.regs.pc = self.hl();
            4
        } else if opcode == 0xF9 {
            self.regs.sp = self.hl();
            8
        } else if opcode == 0xE2 {
            bus.write(0xFF00 + self.regs.c as u16, a);
            8
        } else if opcode == 0xF2 {
            self.regs.a = bus.read(0xFF00 + self.regs.c as u16);
            8
        } else {
            let low = self.fetch(bus);
            let high = self.fetch(bus);
            let addr = ((high as u16) << 8) | (low as u16);
            if opcode == 0xEA {
                bus.write(addr, a);
            } else {
                self.regs.a = bus.read(addr);
            }
            16
        }
    }

    /// JP cc, CALL cc, RET cc, RETI and RST.
    fn branch_op(&mut self, opcode: u8, bus: &mut Bus) -> (r: u32)
        requires
            old(bus).wf(),
            is_branch_op(opcode),
        ensures
            final(bus).wf(),
            (final(self)@, final(bus)@, r) == branch_op_spec(old(self)@, old(bus)@, opcode),
    {
        let taken = self.condition_holds((opcode >> 3) & 3);
        if opcode & 0xE7 == 0xC2 || opcode & 0xE7 == 0xC4 {
            let low = self.fetch(bus);
            let high = self.fetch(bus);
            if !taken {
                return 12;
            }
            let target = ((high as u16) << 8) | (low as u16);
            if opcode & 0xE7 == 0xC2 {
                self.regs.pc = target;
                16
            } else {
                let ret = self.regs.pc;
                self.push(bus, ret);
                self.regs.pc = target;
                24
            }
        } else if opcode & 0xE7 == 0xC0 {
            if !taken {
                return 8;
            }
            self.regs.pc = self.pop(bus);
            20
        } else if opcode == 0xD9 {
            self.regs.pc = self.pop(bus);
            self.ime = true;
            16
        } else {
            let ret = self.regs.pc;
            self.push(bus, ret);
            self.regs.pc = (opcode & 0x38) as u16;
            16
        }
    }

    /// Prefixed operation `cb` on `v`, setting the flags; returns the new
    /// operand.
    fn prefixed(&mut self, cb: u8, v: u8) -> (r: u8)
        ensures
            (r, final(self)@.regs.f) == prefixed_spec(cb, v, old(self)@.regs.f),
            final(self)@ == (CpuState {
                regs: Registers { f: final(self)@.regs.f, ..old(self)@.regs },
                ..old(self)@
            }),
    {
        let b = (cb >> 3) & 7;
        assert(b < 8) by (bit_vector)
            requires
                b == (cb >> 3u8) & 7u8,
        ;
        let group = cb >> 6;
        let f = self.regs.f;
        if group == 0 {
            let cin: u8 = if f & FLAG_C != 0 { 1 } else { 0 };
            let (r, c) = if b == 0 {
                ((v << 1) | (v >> 7), v >> 7)
            } else if b == 1 {
                ((v >> 1) | (v << 7), v & 1)
            } else if b == 2 {
                ((v << 1) | cin, v >> 7)
            } else if b == 3 {
                ((v >> 1) | (cin << 7), v & 1)
            } else if b == 4 {
                (v << 1, v >> 7)
            } else if b == 5 {
                ((v >> 1) | (v & 0x80), v & 1)
            } else if b == 6 {
                ((v << 4) | (v >> 4), 0u8)
            } else {
                (v >> 1, v & 1)
            };
            self.regs.f = make_flags(r == 0, false, false, c != 0);
            r
        } else if group == 1 {
            self.regs.f = make_flags(v & (1u8 << b) == 0, false, true, f & FLAG_C != 0);
            v
        } else if group == 2 {
            v & !(1u8 << b)
        } else {
            v | (1u8 << b)
        }
    }

    /// The 0xCB-prefixed table.
    fn cb_op(&mut self, bus: &mut Bus) -> (r: u32)
        requires
            old(bus).wf(),
        ensures
            final(bus).wf(),
            (final(self)@, final(bus)@, r) == cb_op_spec(old(self)@, old(bus)@),
    {
        let cb = self.fetch(bus);
        let i = cb & 7;
        if i == 6 {
            let addr = self.hl();
            let v = bus.read(addr);
            let result = self.prefixed(cb, v);
            if cb >> 6 == 1 {
                12
            } else {
                bus.write(addr, result);
                16
            }
        } else {
            let v = self.reg(i);
            let result = self.prefixed(cb, v);
            self.set_reg(i, result);
            8
        }
    }

    /// LD (nn), SP; DAA; ADD SP, e; LD HL, SP + e.
    fn extra_op(&mut self, opcode: u8, bus: &mut Bus) -> (r: u32)
        requires
            old(bus).wf(),
            opcode == 0x08 || opcode == 0x27 || opcode == 0xE8 || opcode == 0xF8,
        ensures
            final(bus).wf(),
            (final(self)@, final(bus)@, r) == extra_op_spec(old(self)@, old(bus)@, opcode),
    {
        if opcode == 0x08 {
            let low = self.fetch(bus);
            let high = self.fetch(bus);
            let addr = ((high as u16) << 8) | (low as u16);
            let sp = self.regs.sp;
            bus.write(addr, sp as u8);
            bus.write(addr.wrapping_add(1), (sp >> 8) as u8);
            20
        } else if opcode == 0x27 {
            let a = self.regs.a;
            let f = self.regs.f;
            let h = f & FLAG_H != 0;
            let c = f & FLAG_C != 0;
            if f & FLAG_N == 0 {
                let hi = c || a > 0x99;
                let lo = h || a % 16 > 9;
                let adj: u16 = (if hi { 0x60 } else { 0 }) + (if lo { 6 } else { 0 });
                let r = ((a as u16 + adj) % 256) as u8;
                self.regs.a = r;
                self.regs.f = make_flags(r == 0, false, false, hi);
            } else {
                let adj: u16 = (if c { 0x60 } else { 0 }) + (if h { 6 } else { 0 });
                let r = ((a as u16 + 256 - adj) % 256) as u8;
                self.regs.a = r;
                self.regs.f = make_flags(r == 0, true, false, c);
            }
            4
        } else {
            let e = self.fetch(bus);
            let sp = self.regs.sp;
            let f = make_flags(false, false, (sp % 16) + (e as u16 % 16) > 15, (sp % 256) + e as u16 > 255);
            let v = if e < 128 { sp.wrapping_add(e as u16) } else { sp.wrapping_sub(256 - e as u16) };
            if opcode == 0xE8 {
                self.regs.sp = v;
            } else {
                self.set_reg_pair(2, v);
            }
            self.regs.f = f;
            if opcode == 0xE8 { 16 } else { 12 }
        }
    }
}

fn make_flags(z: bool, n: bool, h: bool, c: bool) -> (r: u8)
    ensures
        r == flags_of(z, n, h, c),
{
    let mut r: u8 = 0;
    if z {
        r = r + 0x80;
    }
    if n {
        r = r + 0x40;
    }
    if h {
        r = r + 0x20;
    }
    if c {
        r = r + 0x10;
    }
    r
}

/// Incrementing then decrementing any byte gives it back. The flags follow
/// the carry rules at every boundary: Z exactly on a zero result, H exactly
/// on a carry out of (borrow into) bit 3, N only for the decrement, the
/// carry kept, and the low nibble of F always clear.
pub proof fn lemma_inc_dec_round_trip(v: u8, f: u8)
    ensures
        dec8(inc8(v)) == v,
        inc8(dec8(v)) == v,
        (inc_flags(f, v) & FLAG_Z != 0) == (inc8(v) == 0),
        (inc_flags(f, v) & FLAG_H != 0) == (v & 0x0F == 0x0F),
        inc_flags(f, v) & FLAG_N == 0,
        inc_flags(f, v) & FLAG_C == f & FLAG_C,
        inc_flags(f, v) & 0x0F == 0,
        (dec_flags(f, v) & FLAG_Z != 0) == (dec8(v) == 0),
        (dec_flags(f, v) & FLAG_H != 0) == (v & 0x0F == 0),
        dec_flags(f, v) & FLAG_N != 0,
        dec_flags(f, v) & FLAG_C == f & FLAG_C,
        dec_flags(f, v) & 0x0F == 0,
        inc8(0x0F) == 0x10 && inc_flags(f, 0x0F) & FLAG_H != 0,
        inc8(0xFF) == 0 && inc_flags(f, 0xFF) & FLAG_Z != 0,
{
    lemma_flag_bits(v, f);
    lemma_flag_bits(0x0F, f);
    lemma_flag_bits(0xFF, f);
    assert(0x0Fu8 & 0x0F == 0x0F && 0xFFu8 & 0x0F == 0x0F) by (bit_vector);
}

proof fn lemma_flag_bits(v: u8, f: u8)
    ensures
        dec8(inc8(v)) == v,
        inc8(dec8(v)) == v,
        (inc_flags(f, v) & FLAG_Z != 0) == (inc8(v) == 0),
        (inc_flags(f, v) & FLAG_H != 0) == (v & 0x0F == 0x0F),
        inc_flags(f, v) & FLAG_N == 0,
        inc_flags(f, v) & FLAG_C == f & FLAG_C,
        inc_flags(f, v) & 0x0F == 0,
        (dec_flags(f, v) & FLAG_Z != 0) == (dec8(v) == 0),
        (dec_flags(f, v) & FLAG_H != 0) == (v & 0x0F == 0),
        dec_flags(f, v) & FLAG_N != 0,
        dec_flags(f, v) & FLAG_C == f & FLAG_C,
        dec_flags(f, v) & 0x0F == 0,
{
    let z: u8 = if inc8(v) == 0 { FLAG_Z } else { 0u8 };
    let h: u8 = if v & 0x0F == 0x0F { FLAG_H } else { 0u8 };
    assert(((f & 0x10) | z | h) & 0x80 != 0 <==> z == 0x80) by (bit_vector)
        requires z == 0 || z == 0x80, h == 0 || h == 0x20;
    assert(((f & 0x10) | z | h) & 0x20 != 0 <==> h == 0x20) by (bit_vector)
        requires z == 0 || z == 0x80, h == 0 || h == 0x20;
    assert(((f & 0x10) | z | h) & 0x40 == 0) by (bit_vector)
        requires z == 0 || z == 0x80, h == 0 || h == 0x20;
    assert(((f & 0x10) | z | h) & 0x10 == f & 0x10) by (bit_vector)
        requires z == 0 || z == 0x80, h == 0 || h == 0x20;
    assert(((f & 0x10) | z | h) & 0x0F == 0) by (bit_vector)
        requires z == 0 || z == 0x80, h == 0 || h == 0x20;
    let dz: u8 = if dec8(v) == 0 { FLAG_Z } else { 0u8 };
    let dh: u8 = if v & 0x0F == 0 { FLAG_H } else { 0u8 };
    assert(((f & 0x10) | 0x40 | dz | dh) & 0x80 != 0 <==> dz == 0x80) by (bit_vector)
        requires dz == 0 || dz == 0x80, dh == 0 || dh == 0x20;
    assert(((f & 0x10) | 0x40 | dz | dh) & 0x20 != 0 <==> dh == 0x20) by (bit_vector)
        requires dz == 0 || dz == 0x80, dh == 0 || dh == 0x20;
    assert(((f & 0x10) | 0x40 | dz | dh) & 0x40 != 0) by (bit_vector);
    assert(((f & 0x10) | 0x40 | dz | dh) & 0x10 == f & 0x10) by (bit_vector)
        requires dz == 0 || dz == 0x80, dh == 0 || dh == 0x20;
    assert(((f & 0x10) | 0x40 | dz | dh) & 0x0F == 0) by (bit_vector)
        requires dz == 0 || dz == 0x80, dh == 0 || dh == 0x20;
}

/// Every step takes between 4 and 24 cycles.
pub proof fn lemma_step_cycles(s: CpuState, m: BusModel)
    ensures
        4 <= step_spec(s, m).2 <= 24,
{
}

} // verus!
