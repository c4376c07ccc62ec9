use vstd::prelude::*;

use crate::bus::{BusOp, Memory};
use crate::flags::P65Flags;

verus! {

/// The processor: architectural registers, the micro-sequencer's scratch
/// registers, the bus-cycle counter and the interrupt lines and latches.
#[derive(Clone, Copy, PartialEq, Eq, Structural)]
pub struct P65 {
    pub a: u8,
    pub x: u8,
    pub y: u8,
    pub p: P65Flags,
    /// Stack pointer; the stack lives at 0x0100 + s.
    pub s: u8,
    pub pc: u16,
    /// Bus cycles elapsed.
    pub cycle: u64,
    /// Sub-cycle within the current instruction: 0 right after the opcode
    /// fetch, 1 at the start of the instruction's first execute cycle.
    pub ts: u8,
    /// The latched opcode.
    pub op: u8,
    /// Operand or result scratch byte.
    pub v1: u8,
    /// Page-carry or saved high byte scratch.
    pub v2: u8,
    /// Effective address, high byte.
    pub ah: u8,
    /// Effective address, low byte.
    pub al: u8,
    pub nmi: bool,
    pub nmi_cycle: u64,
    pub nmi_triggered: bool,
    pub irq: bool,
    pub irq_cycle: u64,
    pub irq_triggered: bool,
    pub reset_triggered: bool,
}

/// Why the processor stopped before finishing the cycles it was asked for.
#[derive(Clone, Copy, PartialEq, Eq, Structural, Debug)]
pub enum CpuError {
    /// The latched opcode has no implementation; `pc` is the address after it.
    IllegalOpcode { op: u8, pc: u16 },
    /// The cycle counter reached its largest value.
    CycleLimit,
}

/// Base of the stack page.
pub const STACK_BASE: u16 = 0x0100;

pub open spec fn add8(x: u8, y: u8) -> u8 {
    ((x + y) % 256) as u8
}

pub open spec fn sub8(x: u8, y: u8) -> u8 {
    ((x + 256 - y) % 256) as u8
}

pub open spec fn inc16(x: u16) -> u16 {
    ((x + 1) % 0x10000) as u16
}

pub open spec fn dec16(x: u16) -> u16 {
    ((x + 0xFFFF) % 0x10000) as u16
}

/// The 16-bit address with high byte `h` and low byte `l`.
pub open spec fn word(h: u8, l: u8) -> u16 {
    (h * 256 + l) as u16
}

pub open spec fn hi(x: u16) -> u8 {
    (x / 256) as u8
}

pub open spec fn lo(x: u16) -> u8 {
    (x % 256) as u8
}

/// The address of stack slot `s`.
pub open spec fn stack_addr(s: u8) -> u16 {
    (0x100 + s) as u16
}

/// The difference of two cycle stamps, modulo 2^64.
pub open spec fn elapsed(now: u64, then: u64) -> int {
    if now >= then { now - then } else { now + 0x1_0000_0000_0000_0000 - then }
}

/// The state just after an opcode fetch that read `d`.
pub open spec fn fetched(s: P65, d: u8) -> P65 {
    P65 { op: d, pc: inc16(s.pc), ts: 0, ..s }
}

/// The state that the processor is in after `new`.
pub open spec fn power_up() -> P65 {
    P65 {
        a: 0xaa,
        x: 0,
        y: 0,
        p: P65Flags { n: false, v: false, bit5: true, b: true, d: false, i: true, z: true, c: false },
        s: 0xfd,
        pc: 0,
        cycle: 0,
        ts: 0,
        op: 0,
        v1: 0,
        v2: 0,
        ah: 0,
        al: 0,
        nmi: false,
        nmi_cycle: 0,
        nmi_triggered: false,
        irq: false,
        irq_cycle: 0,
        irq_triggered: false,
        reset_triggered: false,
    }
}

impl P65 {
    /// A processor in the documented power-up state: I, Z and B set,
    /// S = 0xFD, A = 0xAA, everything else zero.
    pub fn new() -> (r: P65)
        ensures
            r == power_up(),
    {
        P65 {
            a: 0xaa,
            x: 0,
            y: 0,
            p: P65Flags {
                n: false,
                v: false,
                bit5: true,
                b: true,
                d: false,
                i: true,
                z: true,
                c: false,
            },
            s: 0xfd,
            pc: 0,
            cycle: 0,
            ts: 0,
            op: 0,
            v1: 0,
            v2: 0,
            ah: 0,
            al: 0,
            nmi: false,
            nmi_cycle: 0,
            nmi_triggered: false,
            irq: false,
            irq_cycle: 0,
            irq_triggered: false,
            reset_triggered: false,
        }
    }

    pub fn ah_al(&self) -> (r: u16)
        ensures
            r == word(self.ah, self.al),
    {
        (self.ah as u16) * 256 + (self.al as u16)
    }

    pub fn inc_pc(&mut self)
        ensures
            *final(self) == (P65 { pc: inc16(old(self).pc), ..*old(self) }),
    {
        self.pc = self.pc.wrapping_add(1);
    }

    pub fn set_pc(&mut self, pch: u8, pcl: u8)
        ensures
            *final(self) == (P65 { pc: word(pch, pcl), ..*old(self) }),
    {
        self.pc = (pch as u16) * 256 + (pcl as u16);
    }

    pub fn set_pcl(&mut self, pcl: u8)
        ensures
            *final(self) == (P65 { pc: word(hi(old(self).pc), pcl), ..*old(self) }),
    {
        self.pc = (self.pc / 256) * 256 + (pcl as u16);
    }

    pub fn set_pch(&mut self, pch: u8)
        ensures
            *final(self) == (P65 { pc: word(pch, lo(old(self).pc)), ..*old(self) }),
    {
        self.pc = (pch as u16) * 256 + (self.pc % 256);
    }

    pub fn inc_sp(&mut self)
        ensures
            *final(self) == (P65 { s: add8(old(self).s, 1), ..*old(self) }),
    {
        self.s = self.s.wrapping_add(1);
    }

    pub fn dec_sp(&mut self)
        ensures
            *final(self) == (P65 { s: sub8(old(self).s, 1), ..*old(self) }),
    {
        self.s = self.s.wrapping_sub(1);
    }

    /// Reads the next opcode at PC and latches it; ts = 0 marks the
    /// instruction boundary.
    pub fn fetch_op<M: Memory>(&mut self, mem: &mut M) -> (r: u8)
        ensures
            final(mem).bus_log() == old(mem).bus_log().push(BusOp::Read { addr: old(self).pc, value: r }),
            *final(self) == fetched(*old(self), r),
    {
        self.op = mem.read(self.pc);
        self.inc_pc();
        self.ts = 0;
        self.op
    }

    /// The address of the current stack slot.
    pub fn stack(&self) -> (r: u16)
        ensures
            r == stack_addr(self.s),
    {
        STACK_BASE + self.s as u16
    }
}

} // verus!
