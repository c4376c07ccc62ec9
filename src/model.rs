use vstd::prelude::*;

use crate::cpu;
use crate::decode;
use crate::ops;
use crate::bus::BusOp;
use crate::cpu::P65;
use crate::decode::{Mode, Op};
use crate::flags::P65Flags;

verus! {

/// What one bus cycle puts on the bus.
pub enum Access {
    Read(u16),
    Write(u16, u8),
    /// No transaction: the sequencer has nothing to do at this sub-cycle.
    Idle,
}

/// The byte that a transaction carried.
pub open spec fn bus_value(b: BusOp) -> u8 {
    match b {
        BusOp::Read { value, .. } => value,
        BusOp::Write { value, .. } => value,
    }
}

/// The opcode fetch that ends every instruction: read at PC, latch, ts = 0.
pub open spec fn fetch(s: P65, d: u8) -> (Access, P65) {
    (Access::Read(s.pc), cpu::fetched(s, d))
}

/// Run the semantic, then fetch the next opcode.
pub open spec fn finish(s: P65, o: Op, d: u8) -> (Access, P65) {
    fetch(ops::op_spec(s, o), d)
}

/// Read an operand byte into the low address byte and step PC.
pub open spec fn operand_lo(s: P65, d: u8) -> (Access, P65) {
    (Access::Read(s.pc), P65 { al: d, pc: cpu::inc16(s.pc), ..s })
}

/// Read an operand byte into the high address byte and step PC.
pub open spec fn operand_hi(s: P65, d: u8) -> (Access, P65) {
    (Access::Read(s.pc), P65 { ah: d, pc: cpu::inc16(s.pc), ..s })
}

/// Read the high address byte while adding the index to the low byte;
/// v2 keeps the carry.
pub open spec fn operand_hi_indexed(s: P65, idx: u8, d: u8) -> (Access, P65) {
    (Access::Read(s.pc), P65 { ah: d, pc: cpu::inc16(s.pc), v2: ((s.al + idx) / 256) as u8, al: cpu::add8(s.al, idx), ..s })
}

/// Read at the unfixed address and propagate the carry into the high byte;
/// with no carry, skip the re-read.
pub open spec fn read_unfixed(s: P65, d: u8) -> (Access, P65) {
    (
        Access::Read(cpu::word(s.ah, s.al)),
        P65 { v1: d, ah: cpu::add8(s.ah, s.v2), ts: if s.v2 == 0 { cpu::add8(s.ts, 1) } else { s.ts }, ..s },
    )
}

pub open spec fn read_effective(s: P65, d: u8) -> (Access, P65) {
    (Access::Read(cpu::word(s.ah, s.al)), P65 { v1: d, ..s })
}

/// Run the semantic, then write v1 to the effective address.
pub open spec fn store_effective(s: P65, o: Op) -> (Access, P65) {
    let t = ops::op_spec(s, o);
    (Access::Write(cpu::word(t.ah, t.al), t.v1), t)
}

/// Run the semantic, then write v1 to the zero-page address al.
pub open spec fn store_zero_page(s: P65, o: Op) -> (Access, P65) {
    let t = ops::op_spec(s, o);
    (Access::Write(t.al as u16, t.v1), t)
}

pub open spec fn idle(s: P65) -> (Access, P65) {
    (Access::Idle, s)
}

pub open spec fn implied_step(s: P65, o: Op, d: u8) -> (Access, P65) {
    match s.ts {
        1 => (Access::Read(s.pc), s),
        2 => finish(s, o, d),
        _ => idle(s),
    }
}

pub open spec fn accumulator_step(s: P65, o: Op, d: u8) -> (Access, P65) {
    match s.ts {
        1 => (Access::Read(s.pc), s),
        2 => {
            let t = ops::op_spec(P65 { v1: s.a, ..s }, o);
            fetch(P65 { a: t.v1, ..t }, d)
        },
        _ => idle(s),
    }
}

pub open spec fn immediate_step(s: P65, o: Op, d: u8) -> (Access, P65) {
    match s.ts {
        1 => (Access::Read(s.pc), P65 { v1: d, pc: cpu::inc16(s.pc), ..s }),
        2 => finish(s, o, d),
        _ => idle(s),
    }
}

pub open spec fn read_zp_step(s: P65, o: Op, d: u8) -> (Access, P65) {
    match s.ts {
        1 => operand_lo(s, d),
        2 => (Access::Read(s.al as u16), P65 { v1: d, ..s }),
        3 => finish(s, o, d),
        _ => idle(s),
    }
}

pub open spec fn read_zp_indexed_step(s: P65, idx: u8, o: Op, d: u8) -> (Access, P65) {
    match s.ts {
        1 => operand_lo(s, d),
        2 => (Access::Read(s.al as u16), P65 { al: cpu::add8(s.al, idx), ..s }),
        3 => (Access::Read(s.al as u16), P65 { v1: d, ..s }),
        4 => finish(s, o, d),
        _ => idle(s),
    }
}

pub open spec fn read_abs_step(s: P65, o: Op, d: u8) -> (Access, P65) {
    match s.ts {
        1 => operand_lo(s, d),
        2 => operand_hi(s, d),
        3 => read_effective(s, d),
        4 => finish(s, o, d),
        _ => idle(s),
    }
}

pub open spec fn read_abs_indexed_step(s: P65, idx: u8, o: Op, d: u8) -> (Access, P65) {
    match s.ts {
        1 => operand_lo(s, d),
        2 => operand_hi_indexed(s, idx, d),
        3 => read_unfixed(s, d),
        4 => read_effective(s, d),
        5 => finish(s, o, d),
        _ => idle(s),
    }
}

pub open spec fn read_ind_x_step(s: P65, o: Op, d: u8) -> (Access, P65) {
    match s.ts {
        1 => operand_lo(s, d),
        2 => (Access::Read(s.al as u16), P65 { v1: cpu::add8(s.al, s.x), ..s }),
        3 => (Access::Read(s.v1 as u16), P65 { al: d, v1: cpu::add8(s.v1, 1), ..s }),
        4 => (Access::Read(s.v1 as u16), P65 { ah: d, ..s }),
        5 => read_effective(s, d),
        6 => finish(s, o, d),
        _ => idle(s),
    }
}

pub open spec fn read_ind_y_step(s: P65, o: Op, d: u8) -> (Access, P65) {
    match s.ts {
        1 => (Access::Read(s.pc), P65 { v1: d, pc: cpu::inc16(s.pc), ..s }),
        2 => (Access::Read(s.v1 as u16), P65 { al: d, v1: cpu::add8(s.v1, 1), ..s }),
        3 => (
            Access::Read(s.v1 as u16),
            P65 { ah: d, v2: ((s.al + s.y) / 256) as u8, al: cpu::add8(s.al, s.y), ..s },
        ),
        4 => read_unfixed(s, d),
        5 => read_effective(s, d),
        6 => finish(s, o, d),
        _ => idle(s),
    }
}

pub open spec fn store_zp_step(s: P65, o: Op, d: u8) -> (Access, P65) {
    match s.ts {
        1 => operand_lo(s, d),
        2 => store_zero_page(s, o),
        3 => fetch(s, d),
        _ => idle(s),
    }
}

pub open spec fn store_zp_indexed_step(s: P65, idx: u8, o: Op, d: u8) -> (Access, P65) {
    match s.ts {
        1 => operand_lo(s, d),
        2 => (Access::Read(s.al as u16), P65 { al: cpu::add8(s.al, idx), ..s }),
        3 => store_zero_page(s, o),
        4 => fetch(s, d),
        _ => idle(s),
    }
}

pub open spec fn store_abs_step(s: P65, o: Op, d: u8) -> (Access, P65) {
    match s.ts {
        1 => operand_lo(s, d),
        2 => operand_hi(s, d),
        3 => store_effective(s, o),
        4 => fetch(s, d),
        _ => idle(s),
    }
}

pub open spec fn store_abs_indexed_step(s: P65, idx: u8, o: Op, d: u8) -> (Access, P65) {
    match s.ts {
        1 => operand_lo(s, d),
        2 => operand_hi_indexed(s, idx, d),
        3 => (Access::Read(cpu::word(s.ah, s.al)), P65 { v1: d, ah: cpu::add8(s.ah, s.v2), ..s }),
        4 => store_effective(s, o),
        5 => fetch(s, d),
        _ => idle(s),
    }
}

pub open spec fn store_ind_x_step(s: P65, o: Op, d: u8) -> (Access, P65) {
    match s.ts {
        1 => operand_lo(s, d),
        2 => (Access::Read(s.al as u16), P65 { v1: cpu::add8(s.al, s.x), ..s }),
        3 => (Access::Read(s.v1 as u16), P65 { al: d, v1: cpu::add8(s.v1, 1), ..s }),
        4 => (Access::Read(s.v1 as u16), P65 { ah: d, ..s }),
        5 => store_effective(s, o),
        6 => fetch(s, d),
        _ => idle(s),
    }
}

pub open spec fn store_ind_y_step(s: P65, o: Op, d: u8) -> (Access, P65) {
    match s.ts {
        1 => (Access::Read(s.pc), P65 { v1: d, pc: cpu::inc16(s.pc), ..s }),
        2 => (Access::Read(s.v1 as u16), P65 { al: d, v1: cpu::add8(s.v1, 1), ..s }),
        3 => (
            Access::Read(s.v1 as u16),
            P65 { ah: d, v2: ((s.al + s.y) / 256) as u8, al: cpu::add8(s.al, s.y), ..s },
        ),
        4 => (Access::Read(cpu::word(s.ah, s.al)), P65 { ah: cpu::add8(s.ah, s.v2), ..s }),
        5 => store_effective(s, o),
        6 => fetch(s, d),
        _ => idle(s),
    }
}

pub open spec fn rmw_zp_step(s: P65, o: Op, d: u8) -> (Access, P65) {
    match s.ts {
        1 => operand_lo(s, d),
        2 => (Access::Read(s.al as u16), P65 { v1: d, ..s }),
        3 => (Access::Write(s.al as u16, s.v1), s),
        4 => store_zero_page(s, o),
        5 => fetch(s, d),
        _ => idle(s),
    }
}

pub open spec fn rmw_zp_x_step(s: P65, o: Op, d: u8) -> (Access, P65) {
    match s.ts {
        1 => operand_lo(s, d),
        2 => (Access::Read(s.al as u16), P65 { al: cpu::add8(s.al, s.x), ..s }),
        3 => (Access::Read(s.al as u16), P65 { v1: d, ..s }),
        4 => (Access::Write(s.al as u16, s.v1), s),
        5 => store_zero_page(s, o),
        6 => fetch(s, d),
        _ => idle(s),
    }
}

pub open spec fn rmw_abs_step(s: P65, o: Op, d: u8) -> (Access, P65) {
    match s.ts {
        1 => operand_lo(s, d),
        2 => operand_hi(s, d),
        3 => read_effective(s, d),
        4 => (Access::Write(cpu::word(s.ah, s.al), s.v1), s),
        5 => store_effective(s, o),
        6 => fetch(s, d),
        _ => idle(s),
    }
}

pub open spec fn rmw_abs_x_step(s: P65, o: Op, d: u8) -> (Access, P65) {
    match s.ts {
        1 => operand_lo(s, d),
        2 => operand_hi_indexed(s, s.x, d),
        3 => (Access::Read(cpu::word(s.ah, s.al)), P65 { ah: cpu::add8(s.ah, s.v2), ..s }),
        4 => read_effective(s, d),
        5 => (Access::Write(cpu::word(s.ah, s.al), s.v1), s),
        6 => store_effective(s, o),
        7 => fetch(s, d),
        _ => idle(s),
    }
}

/// A push: write at the stack slot, then step S down.
pub open spec fn push_byte(s: P65, v: u8) -> (Access, P65) {
    (Access::Write(cpu::stack_addr(s.s), v), P65 { s: cpu::sub8(s.s, 1), ..s })
}

pub open spec fn jsr_step(s: P65, d: u8) -> (Access, P65) {
    match s.ts {
        1 => operand_lo(s, d),
        2 => (Access::Read(cpu::stack_addr(s.s)), s),
        3 => push_byte(s, cpu::hi(s.pc)),
        4 => push_byte(s, cpu::lo(s.pc)),
        5 => (Access::Read(s.pc), P65 { ah: d, ..s }),
        6 => fetch(P65 { pc: cpu::word(s.ah, s.al), ..s }, d),
        _ => idle(s),
    }
}

/// A push, or under RESET a read at the stack slot; S steps down either way.
pub open spec fn push_or_dummy(s: P65, v: u8) -> (Access, P65) {
    if s.reset_triggered {
        (Access::Read(cpu::stack_addr(s.s)), P65 { s: cpu::sub8(s.s, 1), ..s })
    } else {
        push_byte(s, v)
    }
}

/// T5 of the BRK sequence: the vector is chosen now, RESET before NMI before
/// IRQ/BRK; I and B are set and the low byte of the vector is read.
pub open spec fn vector_step(s: P65, d: u8) -> (Access, P65) {
    let f = P65Flags { i: true, b: true, ..s.p };
    let pc = cpu::word(cpu::hi(s.pc), d);
    if s.reset_triggered {
        (Access::Read(0xFFFC), P65 { p: f, pc, ah: 0xFF, al: 0xFD, reset_triggered: false, ..s })
    } else if s.nmi_triggered {
        (Access::Read(0xFFFA), P65 { p: f, pc, ah: 0xFF, al: 0xFB, nmi_triggered: false, ..s })
    } else {
        (Access::Read(0xFFFE), P65 { p: f, pc, ah: 0xFF, al: 0xFF, irq_triggered: false, ..s })
    }
}

pub open spec fn brk_step(s: P65, d: u8) -> (Access, P65) {
    match s.ts {
        1 => (Access::Read(s.pc), P65 { pc: cpu::inc16(s.pc), p: P65Flags { b: true, ..s.p }, ..s }),
        2 => push_or_dummy(s, cpu::hi(s.pc)),
        3 => push_or_dummy(s, cpu::lo(s.pc)),
        4 => push_or_dummy(s, crate::flags::packed(s.p)),
        5 => vector_step(s, d),
        6 => (Access::Read(cpu::word(s.ah, s.al)), P65 { pc: cpu::word(d, cpu::lo(s.pc)), ..s }),
        7 => fetch(s, d),
        _ => idle(s),
    }
}

/// A pull: step S up, then read at the new slot.
pub open spec fn pull_read(s: P65) -> (Access, P65) {
    (Access::Read(cpu::stack_addr(s.s)), P65 { s: cpu::add8(s.s, 1), ..s })
}

pub open spec fn rti_step(s: P65, d: u8) -> (Access, P65) {
    match s.ts {
        1 => (Access::Read(s.pc), P65 { pc: cpu::inc16(s.pc), ..s }),
        2 => pull_read(s),
        3 => (
            Access::Read(cpu::stack_addr(s.s)),
            P65 { p: crate::flags::unpacked_keep_b(d, s.p.b), s: cpu::add8(s.s, 1), ..s },
        ),
        4 => (Access::Read(cpu::stack_addr(s.s)), P65 { pc: d as u16, s: cpu::add8(s.s, 1), ..s }),
        5 => (Access::Read(cpu::stack_addr(s.s)), P65 { pc: cpu::word(d, cpu::lo(s.pc)), ..s }),
        6 => fetch(s, d),
        _ => idle(s),
    }
}

pub open spec fn jmp_abs_step(s: P65, d: u8) -> (Access, P65) {
    match s.ts {
        1 => operand_lo(s, d),
        2 => operand_hi(s, d),
        3 => fetch(P65 { pc: cpu::word(s.ah, s.al), ..s }, d),
        _ => idle(s),
    }
}

/// JMP (ind): the high byte of the target comes from al + 1 within the same
/// page, as on the NMOS part.
pub open spec fn jmp_ind_step(s: P65, d: u8) -> (Access, P65) {
    match s.ts {
        1 => operand_lo(s, d),
        2 => operand_hi(s, d),
        3 => (Access::Read(cpu::word(s.ah, s.al)), P65 { pc: d as u16, al: cpu::add8(s.al, 1), ..s }),
        4 => (Access::Read(cpu::word(s.ah, s.al)), P65 { pc: cpu::word(d, cpu::lo(s.pc)), ..s }),
        5 => fetch(s, d),
        _ => idle(s),
    }
}

pub open spec fn rts_step(s: P65, d: u8) -> (Access, P65) {
    match s.ts {
        1 => (Access::Read(s.pc), P65 { pc: cpu::inc16(s.pc), ..s }),
        2 => pull_read(s),
        3 => (Access::Read(cpu::stack_addr(s.s)), P65 { pc: d as u16, s: cpu::add8(s.s, 1), ..s }),
        4 => (Access::Read(cpu::stack_addr(s.s)), P65 { pc: cpu::word(d, cpu::lo(s.pc)), ..s }),
        5 => (Access::Read(s.pc), P65 { pc: cpu::inc16(s.pc), ..s }),
        6 => fetch(s, d),
        _ => idle(s),
    }
}

/// The branch target: `pc` plus the signed offset `off`, modulo 2^16.
pub open spec fn branch_target(pc: u16, off: u8) -> u16 {
    ((pc + (if off < 128 { off as int } else { off - 256 }) + 0x10000) % 0x10000) as u16
}

/// Bxx: T1 reads the offset and tests the condition (not taken: ts = 3);
/// T2 fixes PCL and skips T3 when the page is unchanged; T3 fixes PCH.
pub open spec fn branch_step(s: P65, o: Op, d: u8) -> (Access, P65) {
    match s.ts {
        1 => (Access::Read(s.pc), ops::op_spec(P65 { v1: d, pc: cpu::inc16(s.pc), ..s }, o)),
        2 => {
            let t = branch_target(s.pc, s.v1);
            (
                Access::Read(s.pc),
                P65 {
                    pc: cpu::word(cpu::hi(s.pc), cpu::lo(t)),
                    ts: if cpu::hi(t) == cpu::hi(s.pc) { cpu::add8(s.ts, 1) } else { s.ts },
                    v2: cpu::hi(t),
                    ..s
                },
            )
        },
        3 => (Access::Read(s.pc), P65 { pc: cpu::word(s.v2, cpu::lo(s.pc)), ..s }),
        4 => fetch(s, d),
        _ => idle(s),
    }
}

pub open spec fn pull_step(s: P65, o: Op, d: u8) -> (Access, P65) {
    match s.ts {
        1 => (Access::Read(s.pc), s),
        2 => pull_read(s),
        3 => (Access::Read(cpu::stack_addr(s.s)), P65 { v1: d, ..s }),
        4 => finish(s, o, d),
        _ => idle(s),
    }
}

pub open spec fn push_step(s: P65, o: Op, d: u8) -> (Access, P65) {
    match s.ts {
        1 => (Access::Read(s.pc), s),
        2 => push_byte(ops::op_spec(s, o), ops::op_spec(s, o).v1),
        3 => fetch(s, d),
        _ => idle(s),
    }
}

/// One cycle of sequencer `m` running semantic `o`: the transaction it puts
/// on the bus and, given the byte `d` that a read returns, the next state.
#[verifier::opaque]
pub open spec fn mode_step(s: P65, m: Mode, o: Op, d: u8) -> (Access, P65) {
    match m {
        Mode::Accumulator => accumulator_step(s, o, d),
        Mode::Implied => implied_step(s, o, d),
        Mode::Immediate => immediate_step(s, o, d),
        Mode::ReadZp => read_zp_step(s, o, d),
        Mode::ReadZpX => read_zp_indexed_step(s, s.x, o, d),
        Mode::ReadZpY => read_zp_indexed_step(s, s.y, o, d),
        Mode::ReadAbs => read_abs_step(s, o, d),
        Mode::ReadAbsX => read_abs_indexed_step(s, s.x, o, d),
        Mode::ReadAbsY => read_abs_indexed_step(s, s.y, o, d),
        Mode::ReadIndX => read_ind_x_step(s, o, d),
        Mode::ReadIndY => read_ind_y_step(s, o, d),
        Mode::StoreZp => store_zp_step(s, o, d),
        Mode::StoreZpX => store_zp_indexed_step(s, s.x, o, d),
        Mode::StoreZpY => store_zp_indexed_step(s, s.y, o, d),
        Mode::StoreAbs => store_abs_step(s, o, d),
        Mode::StoreAbsX => store_abs_indexed_step(s, s.x, o, d),
        Mode::StoreAbsY => store_abs_indexed_step(s, s.y, o, d),
        Mode::StoreIndX => store_ind_x_step(s, o, d),
        Mode::StoreIndY => store_ind_y_step(s, o, d),
        Mode::RmwZp => rmw_zp_step(s, o, d),
        Mode::RmwZpX => rmw_zp_x_step(s, o, d),
        Mode::RmwAbs => rmw_abs_step(s, o, d),
        Mode::RmwAbsX => rmw_abs_x_step(s, o, d),
        Mode::Jsr => jsr_step(s, d),
        Mode::Brk => brk_step(s, d),
        Mode::Rti => rti_step(s, d),
        Mode::JmpAbs => jmp_abs_step(s, d),
        Mode::JmpInd => jmp_ind_step(s, d),
        Mode::Rts => rts_step(s, d),
        Mode::Branch => branch_step(s, o, d),
        Mode::Pull => pull_step(s, o, d),
        Mode::Push => push_step(s, o, d),
        Mode::Illegal => idle(s),
    }
}

/// No sequencer touches the cycle counter or the interrupt lines.
pub proof fn lemma_mode_step_frame(s: P65, m: Mode, o: Op, d: u8)
    ensures
        mode_step(s, m, o, d).1.cycle == s.cycle,
        mode_step(s, m, o, d).1.nmi == s.nmi,
        mode_step(s, m, o, d).1.nmi_cycle == s.nmi_cycle,
        mode_step(s, m, o, d).1.irq == s.irq,
        mode_step(s, m, o, d).1.irq_cycle == s.irq_cycle,
        mode_step(s, m, o, d).1.nmi_triggered ==> s.nmi_triggered,
        mode_step(s, m, o, d).1.irq_triggered ==> s.irq_triggered,
        mode_step(s, m, o, d).1.reset_triggered ==> s.reset_triggered,
{
    reveal(mode_step);
    ops::lemma_op_frame(s, o);
    ops::lemma_op_frame(P65 { v1: s.a, ..s }, o);
    ops::lemma_op_frame(P65 { v1: d, pc: cpu::inc16(s.pc), ..s }, o);
    match m {
        Mode::Accumulator => {},
        Mode::Implied => {},
        Mode::Immediate => {},
        Mode::ReadZp => {},
        Mode::ReadZpX => {},
        Mode::ReadZpY => {},
        Mode::ReadAbs => {},
        Mode::ReadAbsX => {},
        Mode::ReadAbsY => {},
        Mode::ReadIndX => {},
        Mode::ReadIndY => {},
        Mode::StoreZp => {},
        Mode::StoreZpX => {},
        Mode::StoreZpY => {},
        Mode::StoreAbs => {},
        Mode::StoreAbsX => {},
        Mode::StoreAbsY => {},
        Mode::StoreIndX => {},
        Mode::StoreIndY => {},
        Mode::RmwZp => {},
        Mode::RmwZpX => {},
        Mode::RmwAbs => {},
        Mode::RmwAbsX => {},
        Mode::Jsr => {},
        Mode::Brk => {},
        Mode::Rti => {},
        Mode::JmpAbs => {},
        Mode::JmpInd => {},
        Mode::Rts => {},
        Mode::Branch => {},
        Mode::Pull => {},
        Mode::Push => {},
        Mode::Illegal => {},
    }
}

/// What the clock adds around a sequencer cycle is one step of `run_from`.
pub proof fn lemma_clock(s0: P65, log1: Seq<BusOp>, log2: Seq<BusOp>, t: P65)
    requires
        !illegal(s0),
        cycle_done(polled(s0), decode::mode_of(s0.op), decode::op_of(s0.op), log1, log2, t),
    ensures
        extends(log1, log2),
        run_from(s0, appended(log1, log2), 1) == Some((ticked(injected(t)), start_count(ticked(injected(t)), 0))),
{
    reveal(machine_step);
    reveal_with_fuel(run_from, 2);
    let (m, o, sp) = (decode::mode_of(s0.op), decode::op_of(s0.op), polled(s0));
    let delta = appended(log1, log2);
    match mode_step(sp, m, o, 0).0 {
        Access::Read(a) => {
            assert(delta =~= seq![log2.last()]);
            assert(delta.drop_first() =~= Seq::<BusOp>::empty());
        },
        Access::Write(a, v) => {
            assert(delta =~= seq![BusOp::Write { addr: a, value: v }]);
            assert(delta.drop_first() =~= Seq::<BusOp>::empty());
        },
        Access::Idle => {
            assert(delta =~= Seq::<BusOp>::empty());
        },
    }
    assert(log2.subrange(0, log1.len() as int) =~= log1);
}

/// `s2` and `log2` are what one step of `f` leaves from `log1`: the bus log
/// grows by the step's transaction, and a read's byte feeds the next state.
pub open spec fn step_done(
    f: spec_fn(u8) -> (Access, P65),
    log1: Seq<BusOp>,
    log2: Seq<BusOp>,
    s2: P65,
) -> bool {
    match f(0).0 {
        Access::Read(a) => log2.len() == log1.len() + 1 && log2 == log1.push(
            BusOp::Read { addr: a, value: bus_value(log2.last()) },
        ) && s2 == f(bus_value(log2.last())).1,
        Access::Write(a, v) => log2 == log1.push(BusOp::Write { addr: a, value: v }) && s2 == f(0).1,
        Access::Idle => log2 == log1 && s2 == f(0).1,
    }
}

/// One cycle of sequencer `m`, as `step_done` says.
pub open spec fn cycle_done(
    s: P65,
    m: Mode,
    o: Op,
    log1: Seq<BusOp>,
    log2: Seq<BusOp>,
    s2: P65,
) -> bool {
    step_done(|d: u8| mode_step(s, m, o, d), log1, log2, s2)
}

/// The arbiter's update of the latches: NMI latches once, two cycles after
/// its rising edge; IRQ latches while its line has been high for two cycles
/// and I is clear.
pub open spec fn polled(s: P65) -> P65 {
    P65 {
        nmi_triggered: s.nmi_triggered || (s.nmi && cpu::elapsed(s.cycle, s.nmi_cycle) == 2),
        irq_triggered: s.irq_triggered || (!s.p.i && s.irq && cpu::elapsed(s.cycle, s.irq_cycle) >= 2),
        ..s
    }
}

/// Whether any interrupt or reset is waiting to be serviced.
pub open spec fn pending(s: P65) -> bool {
    s.nmi_triggered || s.irq_triggered || s.reset_triggered
}

/// At an instruction boundary with a latch set, the fetched opcode is
/// replaced by BRK entered at T2, PC steps back over the fetch and B is clear.
pub open spec fn injected(s: P65) -> P65 {
    if pending(s) && s.ts == 0 {
        P65 { op: 0, ts: 1, pc: cpu::dec16(s.pc), p: P65Flags { b: false, ..s.p }, ..s }
    } else {
        s
    }
}

pub open spec fn ticked(s: P65) -> P65 {
    P65 { ts: cpu::add8(s.ts, 1), cycle: (s.cycle + 1) as u64, ..s }
}

/// The latched opcode has no sequencer.
pub open spec fn illegal(s: P65) -> bool {
    decode::mode_of(s.op) == Mode::Illegal
}

/// One whole bus cycle of the processor: poll, sequencer, injection, tick.
#[verifier::opaque]
pub open spec fn machine_step(s: P65, d: u8) -> (Access, P65) {
    let (acc, t) = mode_step(polled(s), decode::mode_of(s.op), decode::op_of(s.op), d);
    (acc, ticked(injected(t)))
}

/// One more after `s2` if `s2` starts an instruction (ts = 1).
pub open spec fn start_count(s2: P65, k: nat) -> nat {
    if s2.ts == 1 { k + 1 } else { k }
}

/// Running `n` cycles from `s` on a bus whose transactions are exactly `log`:
/// the state reached and how many instruction starts (ts = 1 after a cycle)
/// were passed; `None` when `log` is not what those cycles put on the bus or
/// an illegal opcode is met.
pub open spec fn run_from(s: P65, log: Seq<BusOp>, n: nat) -> Option<(P65, nat)>
    decreases n,
{
    if n == 0 {
        if log.len() == 0 { Some((s, 0)) } else { None }
    } else if illegal(s) {
        None
    } else {
        match machine_step(s, 0).0 {
            Access::Idle => {
                let s2 = machine_step(s, 0).1;
                match run_from(s2, log, (n - 1) as nat) {
                    Some((f, k)) => Some((f, start_count(s2, k))),
                    None => None,
                }
            },
            Access::Read(a) => {
                if log.len() > 0 && log[0] == (BusOp::Read { addr: a, value: bus_value(log[0]) }) {
                    let s2 = machine_step(s, bus_value(log[0])).1;
                    match run_from(s2, log.drop_first(), (n - 1) as nat) {
                        Some((f, k)) => Some((f, start_count(s2, k))),
                        None => None,
                    }
                } else {
                    None
                }
            },
            Access::Write(a, v) => {
                if log.len() > 0 && log[0] == (BusOp::Write { addr: a, value: v }) {
                    let s2 = machine_step(s, 0).1;
                    match run_from(s2, log.drop_first(), (n - 1) as nat) {
                        Some((f, k)) => Some((f, start_count(s2, k))),
                        None => None,
                    }
                } else {
                    None
                }
            },
        }
    }
}

/// The transactions appended to `log1` to make `log2`.
pub open spec fn appended(log1: Seq<BusOp>, log2: Seq<BusOp>) -> Seq<BusOp> {
    log2.subrange(log1.len() as int, log2.len() as int)
}

/// `log2` extends `log1`.
pub open spec fn extends(log1: Seq<BusOp>, log2: Seq<BusOp>) -> bool {
    log1.len() <= log2.len() && log2.subrange(0, log1.len() as int) == log1
}

/// Running cycles one after the other: the runs compose.
pub proof fn lemma_run_from_append(s: P65, l1: Seq<BusOp>, n1: nat, l2: Seq<BusOp>, n2: nat)
    requires
        run_from(s, l1, n1) is Some,
    ensures
        ({
            let (m, k1) = run_from(s, l1, n1).unwrap();
            run_from(s, l1 + l2, n1 + n2) == match run_from(m, l2, n2) {
                Some((f, k2)) => Some((f, k1 + k2)),
                None => None::<(P65, nat)>,
            }
        }),
    decreases n1,
{
    if n1 == 0 {
        assert(l1 + l2 =~= l2);
    } else {
        let (acc, _) = machine_step(s, 0);
        match acc {
            Access::Idle => {
                lemma_run_from_append(machine_step(s, 0).1, l1, (n1 - 1) as nat, l2, n2);
                assert((n1 + n2 - 1) as nat == (n1 - 1) as nat + n2);
            },
            Access::Read(a) => {
                assert((l1 + l2)[0] == l1[0]);
                assert((l1 + l2).drop_first() =~= l1.drop_first() + l2);
                let s2 = machine_step(s, bus_value(l1[0])).1;
                lemma_run_from_append(s2, l1.drop_first(), (n1 - 1) as nat, l2, n2);
                assert((n1 + n2 - 1) as nat == (n1 - 1) as nat + n2);
            },
            Access::Write(a, v) => {
                assert((l1 + l2)[0] == l1[0]);
                assert((l1 + l2).drop_first() =~= l1.drop_first() + l2);
                let s2 = machine_step(s, 0).1;
                lemma_run_from_append(s2, l1.drop_first(), (n1 - 1) as nat, l2, n2);
                assert((n1 + n2 - 1) as nat == (n1 - 1) as nat + n2);
            },
        }
    }
}

/// One cycle advances the cycle counter by one.
pub proof fn lemma_cycle_advances(s: P65, log: Seq<BusOp>, s2: P65)
    requires
        s.cycle < u64::MAX,
        run_from(s, log, 1) is Some,
        run_from(s, log, 1).unwrap().0 == s2,
    ensures
        s2.cycle == s.cycle + 1,
{
    reveal(machine_step);
    reveal_with_fuel(run_from, 2);
    let m = decode::mode_of(s.op);
    let o = decode::op_of(s.op);
    lemma_mode_step_frame(polled(s), m, o, 0);
    if log.len() > 0 {
        lemma_mode_step_frame(polled(s), m, o, bus_value(log[0]));
    }
}

/// With both lines low and nothing latched, a cycle is the sequencer's
/// cycle and a tick, and stays so.
pub proof fn lemma_quiet_cycle(s: P65, d: u8)
    requires
        !s.nmi && !s.irq && !pending(s),
    ensures
        machine_step(s, d) == (
            mode_step(s, decode::mode_of(s.op), decode::op_of(s.op), d).0,
            ticked(mode_step(s, decode::mode_of(s.op), decode::op_of(s.op), d).1),
        ),
        !machine_step(s, d).1.nmi && !machine_step(s, d).1.irq && !pending(machine_step(s, d).1),
{
    reveal(machine_step);
    assert(polled(s) == s);
    lemma_mode_step_frame(s, decode::mode_of(s.op), decode::op_of(s.op), d);
}

/// The first cycle of `run_from`, for a run of at least one cycle.
pub proof fn lemma_run_from_first(s: P65, log: Seq<BusOp>, n: nat)
    requires
        n > 0,
        run_from(s, log, n) is Some,
    ensures
        !illegal(s),
        ({
            let (acc, _) = machine_step(s, 0);
            match acc {
                Access::Read(a) => log.len() > 0 && log[0] == (BusOp::Read { addr: a, value: bus_value(log[0]) }),
                Access::Write(a, v) => log.len() > 0 && log[0] == (BusOp::Write { addr: a, value: v }),
                Access::Idle => true,
            }
        }),
        ({
            let (acc, _) = machine_step(s, 0);
            let rest = if acc is Idle { log } else { log.drop_first() };
            let s2 = machine_step(s, if acc is Read { bus_value(log[0]) } else { 0 }).1;
            &&& run_from(s2, rest, (n - 1) as nat) is Some
            &&& run_from(s, log, n) == Some(
                (run_from(s2, rest, (n - 1) as nat).unwrap().0, start_count(s2, run_from(s2, rest, (n - 1) as nat).unwrap().1)),
            )
        }),
{
}

} // verus!
