use vstd::prelude::*;

use crate::cpu;
use crate::decode;
use crate::bus::{BusOp, Memory};
use crate::cpu::{CpuError, P65};
use crate::decode::{decode_addr_mode, decode_op, Mode, Op};
use crate::model;
use crate::model::Access;

verus! {

/// The state after `reset` from `s`, having read `lo` and `hi` from the reset
/// vector and `op` at the address they form.
pub open spec fn after_reset(s: P65, lo: u8, hi: u8, op: u8) -> P65 {
    P65 {
        s: 0xFD,
        al: lo,
        ah: hi,
        pc: crate::cpu::inc16(crate::cpu::word(hi, lo)),
        op,
        ts: 1,
        cycle: 8,
        nmi_triggered: false,
        irq_triggered: false,
        reset_triggered: false,
        ..s
    }
}

/// Whether a line change at `now` is far enough from the last one at `then`.
pub open spec fn debounced(now: u64, then: u64) -> bool {
    cpu::elapsed(now, then) >= 2
}

impl P65 {
    /// Runs one cycle of sequencer `m` with semantic `o`.
    #[verifier::rlimit(60)]
    pub fn dispatch<M: Memory>(&mut self, mem: &mut M, m: Mode, o: Op)
        ensures
            model::cycle_done(*old(self), m, o, old(mem).bus_log(), final(mem).bus_log(), *final(self)),
    {
        proof {
            reveal(model::mode_step);
        }
        match m {
            Mode::Accumulator => self.a1_ac(mem, o),
            Mode::Implied => self.a1_imp(mem, o),
            Mode::Immediate => self.a2_imm(mem, o),
            Mode::ReadZp => self.a2_zp(mem, o),
            Mode::ReadZpX | Mode::ReadZpY => self.a2_zpi(mem, m, o),
            Mode::ReadAbs => self.a2_abs(mem, o),
            Mode::ReadAbsX | Mode::ReadAbsY => self.a2_ai(mem, m, o),
            Mode::ReadIndX => self.a2_ix(mem, o),
            Mode::ReadIndY => self.a2_iy(mem, o),
            Mode::StoreZp => self.a3_zp(mem, o),
            Mode::StoreZpX | Mode::StoreZpY => self.a3_zpi(mem, m, o),
            Mode::StoreAbs => self.a3_abs(mem, o),
            Mode::StoreAbsX | Mode::StoreAbsY => self.a3_ai(mem, m, o),
            Mode::StoreIndX => self.a3_ix(mem, o),
            Mode::StoreIndY => self.a3_iy(mem, o),
            Mode::RmwZp => self.a4_zp(mem, o),
            Mode::RmwZpX => self.a4_zpx(mem, o),
            Mode::RmwAbs => self.a4_abs(mem, o),
            Mode::RmwAbsX => self.a4_ax(mem, o),
            Mode::Jsr => self.jsr_abs(mem),
            Mode::Brk => self.brk_imp(mem),
            Mode::Rti => self.rti_imp(mem),
            Mode::JmpAbs => self.jmp_abs(mem),
            Mode::JmpInd => self.jmp_ind(mem),
            Mode::Rts => self.rts_imp(mem),
            Mode::Branch => self.a5_bxx(mem, o),
            Mode::Pull => self.a5_plx(mem, o),
            Mode::Push => self.a5_phx(mem, o),
            Mode::Illegal => {},
        }
    }

    /// Updates the NMI and IRQ latches from the lines.
    pub fn check_interrupts(&mut self)
        ensures
            *final(self) == model::polled(*old(self)),
    {
        if self.nmi && self.cycle.wrapping_sub(self.nmi_cycle) == 2 {
            self.nmi_triggered = true;
        }
        if !self.p.i && self.irq && self.cycle.wrapping_sub(self.irq_cycle) >= 2 {
            self.irq_triggered = true;
        }
    }

    pub fn tick(&mut self)
        requires
            old(self).cycle < u64::MAX,
        ensures
            *final(self) == model::ticked(*old(self)),
    {
        self.ts = self.ts.wrapping_add(1);
        self.cycle = self.cycle + 1;
    }

    /// One bus cycle: poll the interrupt lines, run the sequencer of the
    /// latched opcode, enter BRK at an instruction boundary if a latch is
    /// set, and advance ts and the cycle counter. An illegal opcode stops
    /// before anything changes.
    pub fn clock<M: Memory>(&mut self, mem: &mut M) -> (r: Result<(), CpuError>)
        requires
            old(self).cycle < u64::MAX,
        ensures
            model::extends(old(mem).bus_log(), final(mem).bus_log()),
            r is Ok <==> !model::illegal(*old(self)),
            r is Ok ==> model::run_from(*old(self), model::appended(old(mem).bus_log(), final(mem).bus_log()), 1)
                == Some((*final(self), model::start_count(*final(self), 0))),
            r is Err ==> *final(self) == *old(self) && final(mem).bus_log() == old(mem).bus_log()
                && r == Err::<(), CpuError>(CpuError::IllegalOpcode { op: old(self).op, pc: old(self).pc }),
    {
        let ghost s0 = *self;
        let ghost log1 = mem.bus_log();
        let m = decode_addr_mode(self.op);
        if m == Mode::Illegal {
            assert(mem.bus_log().subrange(0, log1.len() as int) =~= log1);
            return Err(CpuError::IllegalOpcode { op: self.op, pc: self.pc });
        }
        let o = decode_op(self.op);
        self.check_interrupts();
        let ghost sp = *self;
        self.dispatch(mem, m, o);
        let ghost t = *self;
        proof {
            let log2 = mem.bus_log();
            model::lemma_mode_step_frame(sp, m, o, 0);
            model::lemma_mode_step_frame(sp, m, o, crate::model::bus_value(log2.last()));
        }
        if (self.nmi_triggered || self.irq_triggered || self.reset_triggered) && self.ts == 0 {
            self.op = 0x00;
            self.ts = 1;
            self.pc = self.pc.wrapping_sub(1);
            self.p.b = false;
        }
        assert(*self == model::injected(t));
        self.tick();
        proof {
            model::lemma_clock(s0, log1, mem.bus_log(), t);
        }
        Ok(())
    }

    /// Runs exactly `count` bus cycles, possibly stopping mid-instruction,
    /// and returns the new cycle count. An illegal opcode stops the run at
    /// the start of the cycle that meets it.
    pub fn run<M: Memory>(&mut self, mem: &mut M, count: u64) -> (r: Result<u64, CpuError>)
        requires
            old(self).cycle + count <= u64::MAX,
        ensures
            model::extends(old(mem).bus_log(), final(mem).bus_log()),
            r is Ok ==> r == Ok::<u64, CpuError>(final(self).cycle) && model::run_from(
                *old(self),
                model::appended(old(mem).bus_log(), final(mem).bus_log()),
                count as nat,
            ) is Some && model::run_from(
                *old(self),
                model::appended(old(mem).bus_log(), final(mem).bus_log()),
                count as nat,
            ).unwrap().0 == *final(self),
            r is Err ==> model::illegal(*final(self)) && r == Err::<u64, CpuError>(
                CpuError::IllegalOpcode { op: final(self).op, pc: final(self).pc },
            ) && exists|k: nat|
                #![trigger model::run_from(*old(self), model::appended(old(mem).bus_log(), final(mem).bus_log()), k)]
                k < count && model::run_from(
                    *old(self),
                    model::appended(old(mem).bus_log(), final(mem).bus_log()),
                    k,
                ) is Some && model::run_from(
                    *old(self),
                    model::appended(old(mem).bus_log(), final(mem).bus_log()),
                    k,
                ).unwrap().0 == *final(self),
    {
        let ghost s0 = *self;
        let ghost log0 = mem.bus_log();
        let mut i: u64 = 0;
        proof {
            assert(model::appended(log0, log0) =~= Seq::<BusOp>::empty());
            assert(log0.subrange(0, log0.len() as int) =~= log0);
        }
        while i < count
            invariant
                s0 == *old(self),
                log0 == old(mem).bus_log(),
                i <= count,
                self.cycle == s0.cycle + i,
                s0.cycle + count <= u64::MAX,
                model::extends(log0, mem.bus_log()),
                model::run_from(s0, model::appended(log0, mem.bus_log()), i as nat) is Some,
                model::run_from(s0, model::appended(log0, mem.bus_log()), i as nat).unwrap().0 == *self,
            decreases count - i,
        {
            let ghost before = *self;
            let ghost log1 = mem.bus_log();
            match self.clock(mem) {
                Ok(()) => {},
                Err(e) => {
                    proof {
                        assert(mem.bus_log() == log1);
                        assert(*self == before);
                        assert(model::extends(log0, mem.bus_log()));
                        assert(model::run_from(s0, model::appended(log0, mem.bus_log()), i as nat)
                            .unwrap().0 == *self);
                    }
                    return Err(e);
                },
            }
            proof {
                let log2 = mem.bus_log();
                let d1 = model::appended(log0, log1);
                let d2 = model::appended(log1, log2);
                model::lemma_run_from_append(s0, d1, i as nat, d2, 1);
                assert(d1 + d2 =~= model::appended(log0, log2));
                assert(log2.subrange(0, log0.len() as int) =~= log0) by {
                    assert(log2.subrange(0, log1.len() as int) == log1);
                }
                model::lemma_cycle_advances(before, d2, *self);
            }
            i = i + 1;
        }
        Ok(self.cycle)
    }

    /// Runs whole instructions: cycles until `count` instructions have
    /// started (ts = 1 after a cycle), so that it stops at the T1 of an
    /// instruction.
    pub fn step<M: Memory>(&mut self, mem: &mut M, count: u64) -> (r: Result<(), CpuError>)
        ensures
            model::extends(old(mem).bus_log(), final(mem).bus_log()),
            exists|n: nat|
                #![trigger model::run_from(*old(self), model::appended(old(mem).bus_log(), final(mem).bus_log()), n)]
                model::run_from(*old(self), model::appended(old(mem).bus_log(), final(mem).bus_log()), n)
                    is Some && model::run_from(
                    *old(self),
                    model::appended(old(mem).bus_log(), final(mem).bus_log()),
                    n,
                ).unwrap().0 == *final(self) && (r is Ok <==> model::run_from(
                    *old(self),
                    model::appended(old(mem).bus_log(), final(mem).bus_log()),
                    n,
                ).unwrap().1 == count) && (r is Err ==> model::run_from(
                    *old(self),
                    model::appended(old(mem).bus_log(), final(mem).bus_log()),
                    n,
                ).unwrap().1 < count),
            r is Ok && count > 0 ==> final(self).ts == 1,
            r is Err ==> r == Err::<(), CpuError>(CpuError::CycleLimit) && final(self).cycle == u64::MAX
                || model::illegal(*final(self)) && r == Err::<(), CpuError>(
                CpuError::IllegalOpcode { op: final(self).op, pc: final(self).pc },
            ),
    {
        let ghost s0 = *self;
        let ghost log0 = mem.bus_log();
        let ghost mut n: nat = 0;
        let mut left = count;
        proof {
            assert(model::appended(log0, log0) =~= Seq::<BusOp>::empty());
            assert(log0.subrange(0, log0.len() as int) =~= log0);
        }
        while left > 0
            invariant
                s0 == *old(self),
                log0 == old(mem).bus_log(),
                left <= count,
                model::extends(log0, mem.bus_log()),
                model::run_from(s0, model::appended(log0, mem.bus_log()), n) == Some(
                    (*self, (count - left) as nat),
                ),
                count > 0 && left == 0 ==> self.ts == 1,
            decreases u64::MAX - self.cycle,
        {
            if self.cycle == u64::MAX {
                return Err(CpuError::CycleLimit);
            }
            let ghost before = *self;
            let ghost log1 = mem.bus_log();
            match self.clock(mem) {
                Ok(()) => {},
                Err(e) => {
                    proof {
                        assert(*self == before);
                        assert(model::extends(log0, mem.bus_log()));
                    }
                    return Err(e);
                },
            }
            proof {
                let log2 = mem.bus_log();
                let d1 = model::appended(log0, log1);
                let d2 = model::appended(log1, log2);
                model::lemma_run_from_append(s0, d1, n, d2, 1);
                assert(d1 + d2 =~= model::appended(log0, log2));
                assert(log2.subrange(0, log0.len() as int) =~= log0) by {
                    assert(log2.subrange(0, log1.len() as int) == log1);
                }
                model::lemma_cycle_advances(before, d2, *self);
                n = n + 1;
            }
            if self.ts == 1 {
                left = left - 1;
            }
        }
        Ok(())
    }

    /// Loads PC from the reset vector at 0xFFFC/0xFFFD, fetches the first
    /// opcode, sets S = 0xFD and the cycle count to 8, and clears the latches.
    pub fn reset<M: Memory>(&mut self, mem: &mut M)
        ensures
            ({
                let log = final(mem).bus_log();
                let n = old(mem).bus_log().len() as int;
                let lo = model::bus_value(log[n]);
                let hi = model::bus_value(log[n + 1]);
                let op = model::bus_value(log[n + 2]);
                &&& log == old(mem).bus_log().push(BusOp::Read { addr: 0xFFFC, value: lo }).push(
                    BusOp::Read { addr: 0xFFFD, value: hi },
                ).push(BusOp::Read { addr: cpu::word(hi, lo), value: op })
                &&& *final(self) == after_reset(*old(self), lo, hi, op)
            }),
    {
        self.s = 0xFD;
        self.op = 0x00;
        self.al = mem.read(0xFFFC);
        self.ah = mem.read(0xFFFD);
        self.pc = self.ah_al();
        self.fetch_op(mem);
        self.ts = 1;
        self.cycle = 8;
        self.nmi_triggered = false;
        self.irq_triggered = false;
        self.reset_triggered = false;
    }

    /// Raises the IRQ line, unless it is high already or changed less than
    /// two cycles ago.
    pub fn irq_set(&mut self)
        ensures
            *final(self) == if !old(self).irq && debounced(old(self).cycle, old(self).irq_cycle) {
                P65 { irq: true, irq_cycle: old(self).cycle, ..*old(self) }
            } else {
                *old(self)
            },
    {
        if !self.irq && self.cycle.wrapping_sub(self.irq_cycle) >= 2 {
            self.irq_cycle = self.cycle;
            self.irq = true;
        }
    }

    /// Lowers the IRQ line, unless it is low already or changed less than two
    /// cycles ago.
    pub fn irq_clear(&mut self)
        ensures
            *final(self) == if old(self).irq && debounced(old(self).cycle, old(self).irq_cycle) {
                P65 { irq: false, irq_cycle: old(self).cycle, ..*old(self) }
            } else {
                *old(self)
            },
    {
        if self.irq && self.cycle.wrapping_sub(self.irq_cycle) >= 2 {
            self.irq_cycle = self.cycle;
            self.irq = false;
        }
    }

    /// Raises the NMI line, unless it is high already or changed less than
    /// two cycles ago. The NMI latches once, two cycles after this edge.
    pub fn nmi_set(&mut self)
        ensures
            *final(self) == if !old(self).nmi && debounced(old(self).cycle, old(self).nmi_cycle) {
                P65 { nmi: true, nmi_cycle: old(self).cycle, ..*old(self) }
            } else {
                *old(self)
            },
    {
        if !self.nmi && self.cycle.wrapping_sub(self.nmi_cycle) >= 2 {
            self.nmi_cycle = self.cycle;
            self.nmi = true;
        }
    }

    /// Lowers the NMI line, unless it is low already or changed less than two
    /// cycles ago.
    pub fn nmi_clear(&mut self)
        ensures
            *final(self) == if old(self).nmi && debounced(old(self).cycle, old(self).nmi_cycle) {
                P65 { nmi: false, nmi_cycle: old(self).cycle, ..*old(self) }
            } else {
                *old(self)
            },
    {
        if self.nmi && self.cycle.wrapping_sub(self.nmi_cycle) >= 2 {
            self.nmi_cycle = self.cycle;
            self.nmi = false;
        }
    }
}

} // verus!
