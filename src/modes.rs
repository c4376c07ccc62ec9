use vstd::prelude::*;

use crate::cpu;
use crate::model;
use crate::bus::Memory;
use crate::cpu::P65;
use crate::decode::{Mode, Op};

verus! {

impl P65 {
    pub fn a1_ac<M: Memory>(&mut self, mem: &mut M, o: Op)
        ensures
            model::step_done(|d: u8| model::accumulator_step(*old(self), o, d), old(mem).bus_log(), final(mem).bus_log(), *final(self)),
    {
        match self.ts {
            1 => {
                mem.read(self.pc);
            },
            2 => {
                self.v1 = self.a;
                self.execute(o);
                self.a = self.v1;
                self.fetch_op(mem);
            },
            _ => {},
        }
    }

    pub fn a1_imp<M: Memory>(&mut self, mem: &mut M, o: Op)
        ensures
            model::step_done(|d: u8| model::implied_step(*old(self), o, d), old(mem).bus_log(), final(mem).bus_log(), *final(self)),
    {
        match self.ts {
            1 => {
                mem.read(self.pc);
            },
            2 => {
                self.execute(o);
                self.fetch_op(mem);
            },
            _ => {},
        }
    }

    pub fn a2_imm<M: Memory>(&mut self, mem: &mut M, o: Op)
        ensures
            model::step_done(|d: u8| model::immediate_step(*old(self), o, d), old(mem).bus_log(), final(mem).bus_log(), *final(self)),
    {
        match self.ts {
            1 => {
                self.v1 = mem.read(self.pc);
                self.inc_pc();
            },
            2 => {
                self.execute(o);
                self.fetch_op(mem);
            },
            _ => {},
        }
    }

    pub fn a2_zp<M: Memory>(&mut self, mem: &mut M, o: Op)
        ensures
            model::step_done(|d: u8| model::read_zp_step(*old(self), o, d), old(mem).bus_log(), final(mem).bus_log(), *final(self)),
    {
        match self.ts {
            1 => {
                self.al = mem.read(self.pc);
                self.inc_pc();
            },
            2 => {
                self.v1 = mem.read(self.al as u16);
            },
            3 => {
                self.execute(o);
                self.fetch_op(mem);
            },
            _ => {},
        }
    }

    /// Zero page indexed by X (`m` is `ReadZpX`) or by Y.
    pub fn a2_zpi<M: Memory>(&mut self, mem: &mut M, m: Mode, o: Op)
        requires
            m == Mode::ReadZpX || m == Mode::ReadZpY,
        ensures
            model::step_done(
                |d: u8| model::read_zp_indexed_step(*old(self), if m == Mode::ReadZpX { old(self).x } else { old(self).y }, o, d),
                old(mem).bus_log(), final(mem).bus_log(), *final(self)),
    {
        let idx = if m == Mode::ReadZpX { self.x } else { self.y };
        match self.ts {
            1 => {
                self.al = mem.read(self.pc);
                self.inc_pc();
            },
            2 => {
                mem.read(self.al as u16);
                self.al = self.al.wrapping_add(idx);
            },
            3 => {
                self.v1 = mem.read(self.al as u16);
            },
            4 => {
                self.execute(o);
                self.fetch_op(mem);
            },
            _ => {},
        }
    }

    pub fn a2_abs<M: Memory>(&mut self, mem: &mut M, o: Op)
        ensures
            model::step_done(|d: u8| model::read_abs_step(*old(self), o, d), old(mem).bus_log(), final(mem).bus_log(), *final(self)),
    {
        match self.ts {
            1 => {
                self.al = mem.read(self.pc);
                self.inc_pc();
            },
            2 => {
                self.ah = mem.read(self.pc);
                self.inc_pc();
            },
            3 => {
                self.v1 = mem.read(self.ah_al());
            },
            4 => {
                self.execute(o);
                self.fetch_op(mem);
            },
            _ => {},
        }
    }

    /// T2 of the indexed absolute modes: read the high byte, add the index to
    /// the low byte, keep the carry in v2.
    pub fn index_abs<M: Memory>(&mut self, mem: &mut M, idx: u8)
        ensures
            ({
                let d = crate::model::bus_value(final(mem).bus_log().last());
                let (acc, t) = crate::model::operand_hi_indexed(*old(self), idx, d);
                &&& final(mem).bus_log() == old(mem).bus_log().push(
                    crate::bus::BusOp::Read { addr: old(self).pc, value: d },
                )
                &&& *final(self) == t
            }),
    {
        self.ah = mem.read(self.pc);
        self.inc_pc();
        self.v2 = ((self.al as u16 + idx as u16) / 256) as u8;
        self.al = self.al.wrapping_add(idx);
    }

    /// Absolute indexed by X (`m` is `ReadAbsX`) or by Y.
    pub fn a2_ai<M: Memory>(&mut self, mem: &mut M, m: Mode, o: Op)
        requires
            m == Mode::ReadAbsX || m == Mode::ReadAbsY,
        ensures
            model::step_done(
                |d: u8| model::read_abs_indexed_step(*old(self), if m == Mode::ReadAbsX { old(self).x } else { old(self).y }, o, d),
                old(mem).bus_log(), final(mem).bus_log(), *final(self)),
    {
        let idx = if m == Mode::ReadAbsX { self.x } else { self.y };
        match self.ts {
            1 => {
                self.al = mem.read(self.pc);
                self.inc_pc();
            },
            2 => self.index_abs(mem, idx),
            3 => {
                self.v1 = mem.read(self.ah_al());
                self.ah = self.ah.wrapping_add(self.v2);
                if self.v2 == 0 {
                    self.ts = self.ts.wrapping_add(1);
                }
            },
            4 => {
                self.v1 = mem.read(self.ah_al());
            },
            5 => {
                self.execute(o);
                self.fetch_op(mem);
            },
            _ => {},
        }
    }

    pub fn a2_ix<M: Memory>(&mut self, mem: &mut M, o: Op)
        ensures
            model::step_done(|d: u8| model::read_ind_x_step(*old(self), o, d), old(mem).bus_log(), final(mem).bus_log(), *final(self)),
    {
        match self.ts {
            1 => {
                self.al = mem.read(self.pc);
                self.inc_pc();
            },
            2 => {
                mem.read(self.al as u16);
                self.v1 = self.al.wrapping_add(self.x);
            },
            3 => {
                self.al = mem.read(self.v1 as u16);
                self.v1 = self.v1.wrapping_add(1);
            },
            4 => {
                self.ah = mem.read(self.v1 as u16);
            },
            5 => {
                self.v1 = mem.read(self.ah_al());
            },
            6 => {
                self.execute(o);
                self.fetch_op(mem);
            },
            _ => {},
        }
    }

    pub fn a2_iy<M: Memory>(&mut self, mem: &mut M, o: Op)
        ensures
            model::step_done(|d: u8| model::read_ind_y_step(*old(self), o, d), old(mem).bus_log(), final(mem).bus_log(), *final(self)),
    {
        match self.ts {
            1 => {
                self.v1 = mem.read(self.pc);
                self.inc_pc();
            },
            2 => {
                self.al = mem.read(self.v1 as u16);
                self.v1 = self.v1.wrapping_add(1);
            },
            3 => {
                self.ah = mem.read(self.v1 as u16);
                self.v2 = ((self.al as u16 + self.y as u16) / 256) as u8;
                self.al = self.al.wrapping_add(self.y);
            },
            4 => {
                self.v1 = mem.read(self.ah_al());
                self.ah = self.ah.wrapping_add(self.v2);
                if self.v2 == 0 {
                    self.ts = self.ts.wrapping_add(1);
                }
            },
            5 => {
                self.v1 = mem.read(self.ah_al());
            },
            6 => {
                self.execute(o);
                self.fetch_op(mem);
            },
            _ => {},
        }
    }

    pub fn a3_zp<M: Memory>(&mut self, mem: &mut M, o: Op)
        ensures
            model::step_done(|d: u8| model::store_zp_step(*old(self), o, d), old(mem).bus_log(), final(mem).bus_log(), *final(self)),
    {
        match self.ts {
            1 => {
                self.al = mem.read(self.pc);
                self.inc_pc();
            },
            2 => {
                self.execute(o);
                mem.write(self.al as u16, self.v1);
            },
            3 => {
                self.fetch_op(mem);
            },
            _ => {},
        }
    }

    pub fn a3_abs<M: Memory>(&mut self, mem: &mut M, o: Op)
        ensures
            model::step_done(|d: u8| model::store_abs_step(*old(self), o, d), old(mem).bus_log(), final(mem).bus_log(), *final(self)),
    {
        match self.ts {
            1 => {
                self.al = mem.read(self.pc);
                self.inc_pc();
            },
            2 => {
                self.ah = mem.read(self.pc);
                self.inc_pc();
            },
            3 => {
                self.execute(o);
                mem.write(self.ah_al(), self.v1);
            },
            4 => {
                self.fetch_op(mem);
            },
            _ => {},
        }
    }

    pub fn a3_ix<M: Memory>(&mut self, mem: &mut M, o: Op)
        ensures
            model::step_done(|d: u8| model::store_ind_x_step(*old(self), o, d), old(mem).bus_log(), final(mem).bus_log(), *final(self)),
    {
        match self.ts {
            1 => {
                self.al = mem.read(self.pc);
                self.inc_pc();
            },
            2 => {
                mem.read(self.al as u16);
                self.v1 = self.al.wrapping_add(self.x);
            },
            3 => {
                self.al = mem.read(self.v1 as u16);
                self.v1 = self.v1.wrapping_add(1);
            },
            4 => {
                self.ah = mem.read(self.v1 as u16);
            },
            5 => {
                self.execute(o);
                mem.write(self.ah_al(), self.v1);
            },
            6 => {
                self.fetch_op(mem);
            },
            _ => {},
        }
    }

    /// Zero page store indexed by X (`m` is `StoreZpX`) or by Y.
    pub fn a3_zpi<M: Memory>(&mut self, mem: &mut M, m: Mode, o: Op)
        requires
            m == Mode::StoreZpX || m == Mode::StoreZpY,
        ensures
            model::step_done(
                |d: u8| model::store_zp_indexed_step(*old(self), if m == Mode::StoreZpX { old(self).x } else { old(self).y }, o, d),
                old(mem).bus_log(), final(mem).bus_log(), *final(self)),
    {
        let idx = if m == Mode::StoreZpX { self.x } else { self.y };
        match self.ts {
            1 => {
                self.al = mem.read(self.pc);
                self.inc_pc();
            },
            2 => {
                mem.read(self.al as u16);
                self.al = self.al.wrapping_add(idx);
            },
            3 => {
                self.execute(o);
                mem.write(self.al as u16, self.v1);
            },
            4 => {
                self.fetch_op(mem);
            },
            _ => {},
        }
    }

    /// Absolute store indexed by X (`m` is `StoreAbsX`) or by Y.
    pub fn a3_ai<M: Memory>(&mut self, mem: &mut M, m: Mode, o: Op)
        requires
            m == Mode::StoreAbsX || m == Mode::StoreAbsY,
        ensures
            model::step_done(
                |d: u8| model::store_abs_indexed_step(*old(self), if m == Mode::StoreAbsX { old(self).x } else { old(self).y }, o, d),
                old(mem).bus_log(), final(mem).bus_log(), *final(self)),
    {
        let idx = if m == Mode::StoreAbsX { self.x } else { self.y };
        match self.ts {
            1 => {
                self.al = mem.read(self.pc);
                self.inc_pc();
            },
            2 => {
                self.index_abs(mem, idx);
            },
            3 => {
                self.v1 = mem.read(self.ah_al());
                self.ah = self.ah.wrapping_add(self.v2);
            },
            4 => {
                self.execute(o);
                mem.write(self.ah_al(), self.v1);
            },
            5 => {
                self.fetch_op(mem);
            },
            _ => {},
        }
    }

    pub fn a3_iy<M: Memory>(&mut self, mem: &mut M, o: Op)
        ensures
            model::step_done(|d: u8| model::store_ind_y_step(*old(self), o, d), old(mem).bus_log(), final(mem).bus_log(), *final(self)),
    {
        match self.ts {
            1 => {
                self.v1 = mem.read(self.pc);
                self.inc_pc();
            },
            2 => {
                self.al = mem.read(self.v1 as u16);
                self.v1 = self.v1.wrapping_add(1);
            },
            3 => {
                self.ah = mem.read(self.v1 as u16);
                self.v2 = ((self.al as u16 + self.y as u16) / 256) as u8;
                self.al = self.al.wrapping_add(self.y);
            },
            4 => {
                mem.read(self.ah_al());
                self.ah = self.ah.wrapping_add(self.v2);
            },
            5 => {
                self.execute(o);
                mem.write(self.ah_al(), self.v1);
            },
            6 => {
                self.fetch_op(mem);
            },
            _ => {},
        }
    }

    pub fn a4_zp<M: Memory>(&mut self, mem: &mut M, o: Op)
        ensures
            model::step_done(|d: u8| model::rmw_zp_step(*old(self), o, d), old(mem).bus_log(), final(mem).bus_log(), *final(self)),
    {
        match self.ts {
            1 => {
                self.al = mem.read(self.pc);
                self.inc_pc();
            },
            2 => {
                self.v1 = mem.read(self.al as u16);
            },
            3 => {
                mem.write(self.al as u16, self.v1); // wasted write
            },
            4 => {
                self.execute(o);
                mem.write(self.al as u16, self.v1);
            },
            5 => {
                self.fetch_op(mem);
            },
            _ => {},
        }
    }

    pub fn a4_zpx<M: Memory>(&mut self, mem: &mut M, o: Op)
        ensures
            model::step_done(|d: u8| model::rmw_zp_x_step(*old(self), o, d), old(mem).bus_log(), final(mem).bus_log(), *final(self)),
    {
        match self.ts {
            1 => {
                self.al = mem.read(self.pc);
                self.inc_pc();
            },
            2 => {
                mem.read(self.al as u16);
                self.al = self.al.wrapping_add(self.x);
            },
            3 => {
                self.v1 = mem.read(self.al as u16);
            },
            4 => {
                mem.write(self.al as u16, self.v1); // wasted write
            },
            5 => {
                self.execute(o);
                mem.write(self.al as u16, self.v1);
            },
            6 => {
                self.fetch_op(mem);
            },
            _ => {},
        }
    }

    pub fn a4_abs<M: Memory>(&mut self, mem: &mut M, o: Op)
        ensures
            model::step_done(|d: u8| model::rmw_abs_step(*old(self), o, d), old(mem).bus_log(), final(mem).bus_log(), *final(self)),
    {
        match self.ts {
            1 => {
                self.al = mem.read(self.pc);
                self.inc_pc();
            },
            2 => {
                self.ah = mem.read(self.pc);
                self.inc_pc();
            },
            3 => {
                self.v1 = mem.read(self.ah_al());
            },
            4 => {
                mem.write(self.ah_al(), self.v1); // wasted write
            },
            5 => {
                self.execute(o);
                mem.write(self.ah_al(), self.v1);
            },
            6 => {
                self.fetch_op(mem);
            },
            _ => {},
        }
    }

    pub fn a4_ax<M: Memory>(&mut self, mem: &mut M, o: Op)
        ensures
            model::step_done(|d: u8| model::rmw_abs_x_step(*old(self), o, d), old(mem).bus_log(), final(mem).bus_log(), *final(self)),
    {
        match self.ts {
            1 => {
                self.al = mem.read(self.pc);
                self.inc_pc();
            },
            2 => {
                let idx = self.x;
                self.index_abs(mem, idx);
            },
            3 => {
                mem.read(self.ah_al());
                self.ah = self.ah.wrapping_add(self.v2);
            },
            4 => {
                self.v1 = mem.read(self.ah_al());
            },
            5 => {
                mem.write(self.ah_al(), self.v1); // wasted write
            },
            6 => {
                self.execute(o);
                mem.write(self.ah_al(), self.v1);
            },
            7 => {
                self.fetch_op(mem);
            },
            _ => {},
        }
    }

    pub fn a5_plx<M: Memory>(&mut self, mem: &mut M, o: Op)
        ensures
            model::step_done(|d: u8| model::pull_step(*old(self), o, d), old(mem).bus_log(), final(mem).bus_log(), *final(self)),
    {
        match self.ts {
            1 => {
                mem.read(self.pc);
            },
            2 => {
                let a = self.stack();
                mem.read(a);
                self.inc_sp();
            },
            3 => {
                let a = self.stack();
                self.v1 = mem.read(a);
            },
            4 => {
                self.execute(o);
                self.fetch_op(mem);
            },
            _ => {},
        }
    }

    pub fn a5_phx<M: Memory>(&mut self, mem: &mut M, o: Op)
        ensures
            model::step_done(|d: u8| model::push_step(*old(self), o, d), old(mem).bus_log(), final(mem).bus_log(), *final(self)),
    {
        match self.ts {
            1 => {
                mem.read(self.pc);
            },
            2 => {
                self.execute(o);
                let a = self.stack();
                mem.write(a, self.v1);
                self.dec_sp();
            },
            3 => {
                self.fetch_op(mem);
            },
            _ => {},
        }
    }

    /// T2 of a taken branch: PCL from the target, T3 skipped when the page
    /// stays, the target's high byte kept in v2.
    pub fn branch_fix_pcl(&mut self)
        requires
            old(self).ts == 2,
        ensures
            ({
                let s = *old(self);
                let t = model::branch_target(s.pc, s.v1);
                *final(self) == P65 {
                    pc: cpu::word(cpu::hi(s.pc), cpu::lo(t)),
                    ts: if cpu::hi(t) == cpu::hi(s.pc) { cpu::add8(s.ts, 1) } else { s.ts },
                    v2: cpu::hi(t),
                    ..s
                }
            }),
    {
        let offset: i32 = if self.v1 < 128 { self.v1 as i32 } else { self.v1 as i32 - 256 };
        let target: u16 = ((self.pc as i32 + offset + 0x10000) % 0x10000) as u16;
        let same_page = target / 256 == self.pc / 256;
        self.set_pcl((target % 256) as u8);
        if same_page {
            self.ts = self.ts + 1;
        }
        self.v2 = (target / 256) as u8;
    }

    pub fn a5_bxx<M: Memory>(&mut self, mem: &mut M, o: Op)
        ensures
            model::step_done(|d: u8| model::branch_step(*old(self), o, d), old(mem).bus_log(), final(mem).bus_log(), *final(self)),
    {
        match self.ts {
            1 => {
                self.v1 = mem.read(self.pc);
                self.inc_pc();
                self.execute(o);
            },
            2 => {
                mem.read(self.pc);
                self.branch_fix_pcl();
            },
            3 => {
                mem.read(self.pc);
                let h = self.v2;
                self.set_pch(h);
            },
            4 => {
                self.fetch_op(mem);
            },
            _ => {},
        }
    }

    /// JSR pushes the address of its own last byte, high byte first.
    pub fn jsr_abs<M: Memory>(&mut self, mem: &mut M)
        ensures
            model::step_done(|d: u8| model::jsr_step(*old(self), d), old(mem).bus_log(), final(mem).bus_log(), *final(self)),
    {
        match self.ts {
            1 => {
                self.al = mem.read(self.pc);
                self.inc_pc();
            },
            2 => {
                let a = self.stack();
                mem.read(a);
            },
            3 => {
                let a = self.stack();
                mem.write(a, (self.pc / 256) as u8);
                self.dec_sp();
            },
            4 => {
                let a = self.stack();
                mem.write(a, (self.pc % 256) as u8);
                self.dec_sp();
            },
            5 => {
                self.ah = mem.read(self.pc);
            },
            6 => {
                self.pc = self.ah_al();
                self.fetch_op(mem);
            },
            _ => {},
        }
    }

    /// BRK, and the entry into IRQ, NMI and RESET. Software BRK starts at T1;
    /// injected interrupts start at T2 with B clear. Under RESET the three
    /// pushes are reads. The vector is chosen at T5, so an NMI that arrives
    /// during a BRK takes it over.
    pub fn brk_imp<M: Memory>(&mut self, mem: &mut M)
        ensures
            model::step_done(|d: u8| model::brk_step(*old(self), d), old(mem).bus_log(), final(mem).bus_log(), *final(self)),
    {
        match self.ts {
            1 => {
                mem.read(self.pc);
                self.inc_pc();
                self.p.b = true;
            },
            2 => {
                let a = self.stack();
                if self.reset_triggered {
                    mem.read(a);
                } else {
                    mem.write(a, (self.pc / 256) as u8);
                }
                self.dec_sp();
            },
            3 => {
                let a = self.stack();
                if self.reset_triggered {
                    mem.read(a);
                } else {
                    mem.write(a, (self.pc % 256) as u8);
                }
                self.dec_sp();
            },
            4 => {
                let a = self.stack();
                if self.reset_triggered {
                    mem.read(a);
                } else {
                    mem.write(a, self.p.pack());
                }
                self.dec_sp();
            },
            5 => {
                self.p.i = true;
                self.p.b = true;
                if self.reset_triggered {
                    let d = mem.read(0xFFFC);
                    self.set_pcl(d);
                    self.ah = 0xFF;
                    self.al = 0xFD;
                    self.reset_triggered = false;
                } else if self.nmi_triggered {
                    let d = mem.read(0xFFFA);
                    self.set_pcl(d);
                    self.ah = 0xFF;
                    self.al = 0xFB;
                    self.nmi_triggered = false;
                } else {
                    let d = mem.read(0xFFFE);
                    self.set_pcl(d);
                    self.ah = 0xFF;
                    self.al = 0xFF;
                    self.irq_triggered = false;
                }
            },
            6 => {
                let d = mem.read(self.ah_al());
                self.set_pch(d);
            },
            7 => {
                self.fetch_op(mem);
            },
            _ => {},
        }
    }

    pub fn rti_imp<M: Memory>(&mut self, mem: &mut M)
        ensures
            model::step_done(|d: u8| model::rti_step(*old(self), d), old(mem).bus_log(), final(mem).bus_log(), *final(self)),
    {
        match self.ts {
            1 => {
                mem.read(self.pc);
                self.inc_pc();
            },
            2 => {
                let a = self.stack();
                mem.read(a);
                self.inc_sp();
            },
            3 => {
                let a = self.stack();
                let d = mem.read(a);
                self.p.unpack(d);
                self.inc_sp();
            },
            4 => {
                let a = self.stack();
                self.pc = mem.read(a) as u16;
                self.inc_sp();
            },
            5 => {
                let a = self.stack();
                let d = mem.read(a);
                self.set_pch(d);
            },
            6 => {
                self.fetch_op(mem);
            },
            _ => {},
        }
    }

    pub fn jmp_abs<M: Memory>(&mut self, mem: &mut M)
        ensures
            model::step_done(|d: u8| model::jmp_abs_step(*old(self), d), old(mem).bus_log(), final(mem).bus_log(), *final(self)),
    {
        match self.ts {
            1 => {
                self.al = mem.read(self.pc);
                self.inc_pc();
            },
            2 => {
                self.ah = mem.read(self.pc);
                self.inc_pc();
            },
            3 => {
                self.pc = self.ah_al();
                self.fetch_op(mem);
            },
            _ => {},
        }
    }

    /// JMP (ind), with the NMOS page wrap when fetching the target's high byte.
    pub fn jmp_ind<M: Memory>(&mut self, mem: &mut M)
        ensures
            model::step_done(|d: u8| model::jmp_ind_step(*old(self), d), old(mem).bus_log(), final(mem).bus_log(), *final(self)),
    {
        match self.ts {
            1 => {
                self.al = mem.read(self.pc);
                self.inc_pc();
            },
            2 => {
                self.ah = mem.read(self.pc);
                self.inc_pc();
            },
            3 => {
                self.pc = mem.read(self.ah_al()) as u16;
                self.al = self.al.wrapping_add(1);
            },
            4 => {
                let d = mem.read(self.ah_al());
                self.set_pch(d);
            },
            5 => {
                self.fetch_op(mem);
            },
            _ => {},
        }
    }

    pub fn rts_imp<M: Memory>(&mut self, mem: &mut M)
        ensures
            model::step_done(|d: u8| model::rts_step(*old(self), d), old(mem).bus_log(), final(mem).bus_log(), *final(self)),
    {
        match self.ts {
            1 => {
                mem.read(self.pc);
                self.inc_pc();
            },
            2 => {
                let a = self.stack();
                mem.read(a);
                self.inc_sp();
            },
            3 => {
                let a = self.stack();
                self.pc = mem.read(a) as u16;
                self.inc_sp();
            },
            4 => {
                let a = self.stack();
                let d = mem.read(a);
                self.set_pch(d);
            },
            5 => {
                mem.read(self.pc);
                self.inc_pc();
            },
            6 => {
                self.fetch_op(mem);
            },
            _ => {},
        }
    }
}

} // verus!
