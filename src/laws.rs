use vstd::prelude::*;

use crate::bus::BusOp;
use crate::cpu;
use crate::cpu::P65;
use crate::decode;
use crate::decode::{Mode, Op};
use crate::model;
use crate::ops;

verus! {

/// No interrupt is latched or can latch: both lines are low and nothing is
/// pending.
pub open spec fn quiet(s: P65) -> bool {
    !s.nmi && !s.irq && !model::pending(s)
}

/// The state after one quiet cycle from `s` on a bus whose next transaction
/// is `log[0]`.
pub open spec fn quiet_next(s: P65, log: Seq<BusOp>) -> P65 {
    let m = decode::mode_of(s.op);
    let o = decode::op_of(s.op);
    let d = if model::mode_step(s, m, o, 0).0 is Read { model::bus_value(log[0]) } else { 0 };
    model::ticked(model::mode_step(s, m, o, d).1)
}

/// The transactions left after one quiet cycle from `s`.
pub open spec fn quiet_rest(s: P65, log: Seq<BusOp>) -> Seq<BusOp> {
    if model::mode_step(s, decode::mode_of(s.op), decode::op_of(s.op), 0).0 is Idle {
        log
    } else {
        log.drop_first()
    }
}

/// One cycle of a quiet run, unfolded.
pub proof fn lemma_quiet_step(s: P65, log: Seq<BusOp>, n: nat)
    requires
        quiet(s),
        n > 0,
        s.cycle < u64::MAX,
        model::run_from(s, log, n) is Some,
    ensures
        ({
            let s2 = quiet_next(s, log);
            let r = model::run_from(s2, quiet_rest(s, log), (n - 1) as nat);
            &&& quiet(s2)
            &&& s2.cycle == s.cycle + 1
            &&& r is Some
            &&& model::run_from(s, log, n) == Some((r.unwrap().0, model::start_count(s2, r.unwrap().1)))
            &&& match model::mode_step(s, decode::mode_of(s.op), decode::op_of(s.op), 0).0 {
                model::Access::Read(a) => log.len() > 0 && log[0] == (BusOp::Read { addr: a, value: model::bus_value(log[0]) }),
                model::Access::Write(a, v) => log.len() > 0 && log[0] == (BusOp::Write { addr: a, value: v }),
                model::Access::Idle => true,
            }
        }),
{
    let m = decode::mode_of(s.op);
    let o = decode::op_of(s.op);
    model::lemma_run_from_first(s, log, n);
    model::lemma_quiet_cycle(s, 0);
    if log.len() > 0 {
        model::lemma_quiet_cycle(s, model::bus_value(log[0]));
        model::lemma_mode_step_frame(s, m, o, model::bus_value(log[0]));
    }
    model::lemma_mode_step_frame(s, m, o, 0);
}

/// A register-only instruction (implied or accumulator addressing) takes two
/// cycles and one byte: two cycles after its T1 the next instruction starts,
/// one byte further on.
pub proof fn lemma_register_op_timing(s: P65, log: Seq<BusOp>)
    requires
        s.ts == 1,
        decode::mode_of(s.op) == Mode::Implied || decode::mode_of(s.op) == Mode::Accumulator,
        quiet(s),
        s.cycle + 2 <= u64::MAX,
        model::run_from(s, log, 2) is Some,
    ensures
        ({
            let (f, k) = model::run_from(s, log, 2).unwrap();
            &&& k == 1 && f.ts == 1
            &&& f.pc == cpu::inc16(s.pc)
            &&& f.cycle == s.cycle + 2
        }),
{
    let m = decode::mode_of(s.op);
    let o = decode::op_of(s.op);
    model::lemma_run_from_first(s, log, 2);
    model::lemma_quiet_cycle(s, 0);
    let v0 = model::bus_value(log[0]);
    model::lemma_quiet_cycle(s, v0);
    let s2 = model::machine_step(s, v0).1;
    assert(model::mode_step(s, m, o, 0).0 == model::Access::Read(s.pc)
        && model::mode_step(s, m, o, v0).1 == s) by {
        reveal(model::mode_step);
    }
    let rest = log.drop_first();
    model::lemma_run_from_first(s2, rest, 1);
    model::lemma_quiet_cycle(s2, 0);
    let v1 = model::bus_value(rest[0]);
    model::lemma_quiet_cycle(s2, v1);
    let s3 = model::machine_step(s2, v1).1;
    ops::lemma_op_frame(s2, o);
    ops::lemma_op_frame(P65 { v1: s2.a, ..s2 }, o);
    assert(s3.ts == 1 && s3.pc == cpu::inc16(s.pc) && model::mode_step(s2, m, o, 0).0 is Read) by {
        reveal(model::mode_step);
    }
    model::lemma_mode_step_frame(s2, m, o, v1);
    assert(model::run_from(s3, rest.drop_first(), 0) == Some((s3, 0nat)));
}

/// The sequencer cycle of an absolute indexed read.
pub proof fn lemma_mode_abs_indexed(s: P65, o: Op, d: u8)
    requires
        decode::mode_of(s.op) == Mode::ReadAbsX || decode::mode_of(s.op) == Mode::ReadAbsY,
    ensures
        model::mode_step(s, decode::mode_of(s.op), o, d) == model::read_abs_indexed_step(
            s,
            if decode::mode_of(s.op) == Mode::ReadAbsX { s.x } else { s.y },
            o,
            d,
        ),
{
    reveal(model::mode_step);
}

/// An absolute indexed read takes four cycles, or five when adding the index
/// to the low address byte crosses a page.
#[verifier::spinoff_prover]
#[verifier::rlimit(100)]
pub proof fn lemma_abs_indexed_timing(s: P65, log: Seq<BusOp>, n: nat)
    requires
        s.ts == 1,
        decode::mode_of(s.op) == Mode::ReadAbsX || decode::mode_of(s.op) == Mode::ReadAbsY,
        quiet(s),
        s.cycle + 5 <= u64::MAX,
        log.len() > 0,
        model::run_from(s, log, n) is Some,
    ensures
        ({
            let idx = if decode::mode_of(s.op) == Mode::ReadAbsX { s.x } else { s.y };
            let cross: nat = if model::bus_value(log[0]) + idx >= 256 { 1 } else { 0 };
            let (f, k) = model::run_from(s, log, n).unwrap();
            &&& n == 4 + cross ==> k == 1 && f.ts == 1
            &&& n < 4 + cross ==> k == 0
        }),
{
    let m = decode::mode_of(s.op);
    let o = decode::op_of(s.op);
    let idx = if m == Mode::ReadAbsX { s.x } else { s.y };
    let cross = model::bus_value(log[0]) + idx >= 256;
    if n == 0 {
        return;
    }
    lemma_quiet_step(s, log, n);
    let (s1, l1) = (quiet_next(s, log), quiet_rest(s, log));
    lemma_mode_abs_indexed(s, o, 0);
    lemma_mode_abs_indexed(s, o, model::bus_value(log[0]));
    assert(s1.ts == 2 && s1.op == s.op && s1.x == s.x && s1.y == s.y && s1.al == model::bus_value(log[0])
        && l1 == log.drop_first());
    if n == 1 {
        return;
    }
    lemma_quiet_step(s1, l1, (n - 1) as nat);
    let (s2, l2) = (quiet_next(s1, l1), quiet_rest(s1, l1));
    lemma_mode_abs_indexed(s1, o, 0);
    lemma_mode_abs_indexed(s1, o, model::bus_value(l1[0]));
    assert(s2.ts == 3 && s2.op == s.op && (s2.v2 == 0 <==> !cross) && l2 == l1.drop_first());
    if n == 2 {
        return;
    }
    lemma_quiet_step(s2, l2, (n - 2) as nat);
    let (s3, l3) = (quiet_next(s2, l2), quiet_rest(s2, l2));
    lemma_mode_abs_indexed(s2, o, 0);
    lemma_mode_abs_indexed(s2, o, model::bus_value(l2[0]));
    assert(s3.ts == if cross { 4u8 } else { 5u8 } && s3.op == s.op && l3 == l2.drop_first());
    if n == 3 {
        return;
    }
    lemma_quiet_step(s3, l3, (n - 3) as nat);
    let (s4, l4) = (quiet_next(s3, l3), quiet_rest(s3, l3));
    lemma_mode_abs_indexed(s3, o, 0);
    lemma_mode_abs_indexed(s3, o, model::bus_value(l3[0]));
    assert(s4.ts == if cross { 5u8 } else { 1u8 } && (cross ==> s4.op == s.op) && l4 == l3.drop_first());
    if n == 4 {
        assert(model::run_from(s4, l4, 0) == Some((s4, 0nat)));
        return;
    }
    if cross {
        lemma_quiet_step(s4, l4, (n - 4) as nat);
        let (s5, l5) = (quiet_next(s4, l4), quiet_rest(s4, l4));
        lemma_mode_abs_indexed(s4, o, 0);
        lemma_mode_abs_indexed(s4, o, model::bus_value(l4[0]));
        assert(s5.ts == 1 && l5 == l4.drop_first());
        if n == 5 {
            assert(model::run_from(s5, l5, 0) == Some((s5, 0nat)));
        }
    }
}

/// The sequencer cycle of an indirect indexed read.
pub proof fn lemma_mode_ind_y(s: P65, o: Op, d: u8)
    requires
        decode::mode_of(s.op) == Mode::ReadIndY,
    ensures
        model::mode_step(s, decode::mode_of(s.op), o, d) == model::read_ind_y_step(s, o, d),
{
    reveal(model::mode_step);
}

/// An indirect indexed read, (zp),Y, takes five cycles, or six when adding Y
/// to the low byte of the pointed-to address crosses a page.
#[verifier::spinoff_prover]
#[verifier::rlimit(100)]
pub proof fn lemma_ind_y_timing(s: P65, log: Seq<BusOp>, n: nat)
    requires
        s.ts == 1,
        decode::mode_of(s.op) == Mode::ReadIndY,
        quiet(s),
        s.cycle + 6 <= u64::MAX,
        log.len() > 1,
        model::run_from(s, log, n) is Some,
    ensures
        ({
            let cross: nat = if model::bus_value(log[1]) + s.y >= 256 { 1 } else { 0 };
            let (f, k) = model::run_from(s, log, n).unwrap();
            &&& n == 5 + cross ==> k == 1 && f.ts == 1
            &&& n < 5 + cross ==> k == 0
        }),
{
    let o = decode::op_of(s.op);
    let cross = model::bus_value(log[1]) + s.y >= 256;
    if n == 0 {
        return;
    }
    lemma_quiet_step(s, log, n);
    let (s1, l1) = (quiet_next(s, log), quiet_rest(s, log));
    lemma_mode_ind_y(s, o, 0);
    lemma_mode_ind_y(s, o, model::bus_value(log[0]));
    assert(s1.ts == 2 && s1.op == s.op && s1.y == s.y && l1 == log.drop_first());
    if n == 1 {
        return;
    }
    lemma_quiet_step(s1, l1, (n - 1) as nat);
    let (s2, l2) = (quiet_next(s1, l1), quiet_rest(s1, l1));
    lemma_mode_ind_y(s1, o, 0);
    lemma_mode_ind_y(s1, o, model::bus_value(l1[0]));
    assert(l1[0] == log[1]);
    assert(s2.ts == 3 && s2.op == s.op && s2.y == s.y && s2.al == model::bus_value(log[1])
        && l2 == l1.drop_first());
    if n == 2 {
        return;
    }
    lemma_quiet_step(s2, l2, (n - 2) as nat);
    let (s3, l3) = (quiet_next(s2, l2), quiet_rest(s2, l2));
    lemma_mode_ind_y(s2, o, 0);
    lemma_mode_ind_y(s2, o, model::bus_value(l2[0]));
    assert(s3.ts == 4 && s3.op == s.op && (s3.v2 == 0 <==> !cross) && l3 == l2.drop_first());
    if n == 3 {
        return;
    }
    lemma_quiet_step(s3, l3, (n - 3) as nat);
    let (s4, l4) = (quiet_next(s3, l3), quiet_rest(s3, l3));
    lemma_mode_ind_y(s3, o, 0);
    lemma_mode_ind_y(s3, o, model::bus_value(l3[0]));
    assert(s4.ts == if cross { 5u8 } else { 6u8 } && s4.op == s.op && l4 == l3.drop_first());
    if n == 4 {
        return;
    }
    lemma_quiet_step(s4, l4, (n - 4) as nat);
    let (s5, l5) = (quiet_next(s4, l4), quiet_rest(s4, l4));
    lemma_mode_ind_y(s4, o, 0);
    lemma_mode_ind_y(s4, o, model::bus_value(l4[0]));
    assert(s5.ts == if cross { 6u8 } else { 1u8 } && (cross ==> s5.op == s.op) && l5 == l4.drop_first());
    if n == 5 {
        if !cross {
            assert(model::run_from(s5, l5, 0) == Some((s5, 0nat)));
        }
        return;
    }
    if cross {
        lemma_quiet_step(s5, l5, (n - 5) as nat);
        let (s6, l6) = (quiet_next(s5, l5), quiet_rest(s5, l5));
        lemma_mode_ind_y(s5, o, 0);
        lemma_mode_ind_y(s5, o, model::bus_value(l5[0]));
        assert(s6.ts == 1 && l6 == l5.drop_first());
        if n == 6 {
            assert(model::run_from(s6, l6, 0) == Some((s6, 0nat)));
        }
    }
}

/// Every opcode that the branch sequencer runs is a conditional branch.
pub proof fn lemma_branch_opcodes(op: u8)
    requires
        decode::mode_of(op) == Mode::Branch,
    ensures
        ops::is_branch(decode::op_of(op)),
{
    reveal(decode::mode_of);
    reveal(decode::op_of);
}

/// A branch semantic only marks a failed condition, with ts = 3.
pub proof fn lemma_branch_semantic(s: P65, o: Op)
    requires
        ops::is_branch(o),
    ensures
        ops::op_spec(s, o) == if ops::branch_taken(s.p, o) { s } else { P65 { ts: 3, ..s } },
{
}

/// The sequencer cycle of a branch.
pub proof fn lemma_mode_branch(s: P65, o: Op, d: u8)
    requires
        decode::mode_of(s.op) == Mode::Branch,
    ensures
        model::mode_step(s, decode::mode_of(s.op), o, d) == model::branch_step(s, o, d),
{
    reveal(model::mode_step);
}

/// A word splits into its high and low bytes.
pub proof fn lemma_word_hi_lo(x: u16)
    ensures
        cpu::word(cpu::hi(x), cpu::lo(x)) == x,
{
}

/// A taken branch after its T2: from T3 (page change) or T4 (same page) to
/// the next instruction at the target.
#[verifier::spinoff_prover]
#[verifier::rlimit(100)]
pub proof fn lemma_branch_fix_timing(s2: P65, l2: Seq<BusOp>, n2: nat, target: u16)
    requires
        s2.ts == 3 || s2.ts == 4,
        decode::mode_of(s2.op) == Mode::Branch,
        quiet(s2),
        s2.cycle + 2 <= u64::MAX,
        s2.ts == 3 ==> s2.v2 == cpu::hi(target) && cpu::lo(s2.pc) == cpu::lo(target),
        s2.ts == 4 ==> s2.pc == target,
        model::run_from(s2, l2, n2) is Some,
    ensures
        ({
            let cycles: nat = if s2.ts == 4 { 1 } else { 2 };
            let (f, k) = model::run_from(s2, l2, n2).unwrap();
            &&& n2 == cycles ==> k == 1 && f.ts == 1 && f.pc == cpu::inc16(target)
            &&& n2 < cycles ==> k == 0
        }),
{
    let o = decode::op_of(s2.op);
    lemma_word_hi_lo(target);
    if n2 == 0 {
        return;
    }
    lemma_quiet_step(s2, l2, n2);
    let (s3, l3) = (quiet_next(s2, l2), quiet_rest(s2, l2));
    lemma_mode_branch(s2, o, 0);
    lemma_mode_branch(s2, o, model::bus_value(l2[0]));
    if s2.ts == 4 {
        assert(s3.ts == 1 && s3.pc == cpu::inc16(target) && l3 == l2.drop_first());
        if n2 == 1 {
            assert(model::run_from(s3, l3, 0) == Some((s3, 0nat)));
        }
        return;
    }
    assert(s3.ts == 4 && s3.op == s2.op && s3.pc == target && l3 == l2.drop_first());
    if n2 == 1 {
        return;
    }
    lemma_quiet_step(s3, l3, (n2 - 1) as nat);
    let (s4, l4) = (quiet_next(s3, l3), quiet_rest(s3, l3));
    lemma_mode_branch(s3, o, 0);
    lemma_mode_branch(s3, o, model::bus_value(l3[0]));
    assert(s4.ts == 1 && s4.pc == cpu::inc16(target) && l4 == l3.drop_first());
    if n2 == 2 {
        assert(model::run_from(s4, l4, 0) == Some((s4, 0nat)));
    }
}

/// A taken branch from its T2: one more cycle to the target on the same
/// page, two when the page changes.
#[verifier::spinoff_prover]
#[verifier::rlimit(100)]
pub proof fn lemma_branch_taken_timing(s1: P65, l1: Seq<BusOp>, n1: nat)
    requires
        s1.ts == 2,
        decode::mode_of(s1.op) == Mode::Branch,
        quiet(s1),
        s1.cycle + 3 <= u64::MAX,
        model::run_from(s1, l1, n1) is Some,
    ensures
        ({
            let target = model::branch_target(s1.pc, s1.v1);
            let cycles: nat = if cpu::hi(target) == cpu::hi(s1.pc) { 2 } else { 3 };
            let (f, k) = model::run_from(s1, l1, n1).unwrap();
            &&& n1 == cycles ==> k == 1 && f.ts == 1 && f.pc == cpu::inc16(target)
            &&& n1 < cycles ==> k == 0
        }),
{
    let o = decode::op_of(s1.op);
    let target = model::branch_target(s1.pc, s1.v1);
    let same = cpu::hi(target) == cpu::hi(s1.pc);
    lemma_word_hi_lo(target);
    if n1 == 0 {
        return;
    }
    lemma_quiet_step(s1, l1, n1);
    let (s2, l2) = (quiet_next(s1, l1), quiet_rest(s1, l1));
    lemma_mode_branch(s1, o, 0);
    lemma_mode_branch(s1, o, model::bus_value(l1[0]));
    assert(s2.ts == if same { 4u8 } else { 3u8 } && s2.op == s1.op && s2.v2 == cpu::hi(target)
        && s2.pc == cpu::word(cpu::hi(s1.pc), cpu::lo(target)) && l2 == l1.drop_first());
    if n1 == 1 {
        return;
    }
    lemma_branch_fix_timing(s2, l2, (n1 - 1) as nat, target);
}

/// A branch takes two cycles when its condition fails, three when it is
/// taken to the same page as the next instruction, and four when the target
/// is on another page; it continues at the target when taken.
#[verifier::spinoff_prover]
#[verifier::rlimit(100)]
pub proof fn lemma_branch_timing(s: P65, log: Seq<BusOp>, n: nat)
    requires
        s.ts == 1,
        decode::mode_of(s.op) == Mode::Branch,
        quiet(s),
        s.cycle + 4 <= u64::MAX,
        log.len() > 0,
        model::run_from(s, log, n) is Some,
    ensures
        ({
            let next = cpu::inc16(s.pc);
            let taken = ops::branch_taken(s.p, decode::op_of(s.op));
            let target = model::branch_target(next, model::bus_value(log[0]));
            let cycles: nat = if !taken { 2 } else if cpu::hi(target) == cpu::hi(next) { 3 } else { 4 };
            let (f, k) = model::run_from(s, log, n).unwrap();
            &&& n == cycles ==> k == 1 && f.ts == 1 && f.pc == cpu::inc16(if taken { target } else { next })
            &&& n < cycles ==> k == 0
        }),
{
    let o = decode::op_of(s.op);
    lemma_branch_opcodes(s.op);
    let next = cpu::inc16(s.pc);
    let off = model::bus_value(log[0]);
    let taken = ops::branch_taken(s.p, o);
    if n == 0 {
        return;
    }
    lemma_quiet_step(s, log, n);
    let (s1, l1) = (quiet_next(s, log), quiet_rest(s, log));
    lemma_mode_branch(s, o, 0);
    lemma_mode_branch(s, o, off);
    lemma_branch_semantic(P65 { v1: 0, pc: next, ..s }, o);
    lemma_branch_semantic(P65 { v1: off, pc: next, ..s }, o);
    assert(s1.ts == if taken { 2u8 } else { 4u8 } && s1.op == s.op && s1.pc == next && s1.v1 == off
        && l1 == log.drop_first());
    if n == 1 {
        return;
    }
    if taken {
        lemma_branch_taken_timing(s1, l1, (n - 1) as nat);
        return;
    }
    lemma_quiet_step(s1, l1, (n - 1) as nat);
    let (s2, l2) = (quiet_next(s1, l1), quiet_rest(s1, l1));
    lemma_mode_branch(s1, o, 0);
    lemma_mode_branch(s1, o, model::bus_value(l1[0]));
    assert(s2.ts == 1 && s2.pc == cpu::inc16(next) && l2 == l1.drop_first());
    if n == 2 {
        assert(model::run_from(s2, l2, 0) == Some((s2, 0nat)));
    }
}

/// Binary ADC: A' = (A + v1 + C) mod 256, C' = (A + v1 + C >= 256) and V' is
/// set when A' has the other sign than both A and v1. Binary SBC is ADC of
/// the complemented operand.
pub proof fn lemma_adc_sbc_binary(s: P65)
    requires
        !s.p.d,
    ensures
        ({
            let sum = s.a + s.v1 + ops::carry_in(s);
            let t = ops::op_spec(s, Op::Adc);
            &&& t.a == sum % 256
            &&& t.p.c == (sum >= 256)
            &&& t.p.v == ((s.a ^ t.a) & (s.v1 ^ t.a) & 0x80 != 0)
        }),
        ({
            let u = ops::op_spec(s, Op::Sbc);
            let w = ops::op_spec(P65 { v1: !s.v1, ..s }, Op::Adc);
            u.a == w.a && u.p == w.p
        }),
{
    let (a, v1) = (s.a, s.v1);
    let nv = !v1;
    assert(nv == 255 - v1) by (bit_vector)
        requires
            nv == !v1,
    ;
    let r = ops::op_spec(s, Op::Sbc).a;
    assert(((a ^ v1) & (a ^ r) & 0x80 != 0) == ((a ^ r) & (nv ^ r) & 0x80 != 0)) by (bit_vector)
        requires
            nv == !v1,
    ;
}

/// The stack opcodes.
pub proof fn lemma_stack_opcodes()
    ensures
        decode::mode_of(0x48) == Mode::Push && decode::op_of(0x48) == Op::Pha,
        decode::mode_of(0x08) == Mode::Push && decode::op_of(0x08) == Op::Php,
        decode::mode_of(0x68) == Mode::Pull && decode::op_of(0x68) == Op::Pla,
        decode::mode_of(0x28) == Mode::Pull && decode::op_of(0x28) == Op::Plp,
{
    reveal(decode::mode_of);
    reveal(decode::op_of);
}

pub proof fn lemma_mode_push(s: P65, o: Op, d: u8)
    requires
        decode::mode_of(s.op) == Mode::Push,
    ensures
        model::mode_step(s, decode::mode_of(s.op), o, d) == model::push_step(s, o, d),
{
    reveal(model::mode_step);
}

pub proof fn lemma_mode_pull(s: P65, o: Op, d: u8)
    requires
        decode::mode_of(s.op) == Mode::Pull,
    ensures
        model::mode_step(s, decode::mode_of(s.op), o, d) == model::pull_step(s, o, d),
{
    reveal(model::mode_step);
}

/// PHA then PLA, on a bus whose stack slot reads back what was written,
/// restores A, N and Z (where N and Z reflect A to begin with) and leaves X,
/// Y, S and P as they were; PC moves on by the two bytes.
#[verifier::spinoff_prover]
#[verifier::rlimit(100)]
pub proof fn lemma_pha_pla(s: P65, log: Seq<BusOp>)
    requires
        s.ts == 1,
        s.op == 0x48,
        quiet(s),
        s.cycle + 7 <= u64::MAX,
        model::run_from(s, log, 7) is Some,
        log.len() >= 6,
        model::bus_value(log[2]) == 0x68,
        model::bus_value(log[5]) == model::bus_value(log[1]),
        s.p.n == (s.a >= 0x80),
        s.p.z == (s.a == 0),
    ensures
        ({
            let (f, k) = model::run_from(s, log, 7).unwrap();
            &&& log[1] == (BusOp::Write { addr: cpu::stack_addr(s.s), value: s.a })
            &&& f.a == s.a && f.p == s.p
            &&& f.x == s.x && f.y == s.y && f.s == s.s
            &&& f.ts == 1 && k == 2 && f.cycle == s.cycle + 7
            &&& f.pc == cpu::inc16(cpu::inc16(s.pc))
        }),
{
    lemma_stack_opcodes();
    lemma_quiet_step(s, log, 7);
    let (s1, l1) = (quiet_next(s, log), quiet_rest(s, log));
    lemma_mode_push(s, Op::Pha, 0);
    lemma_mode_push(s, Op::Pha, model::bus_value(log[0]));
    assert(s1 == model::ticked(s) && l1 == log.drop_first());
    lemma_quiet_step(s1, l1, 6);
    let (s2, l2) = (quiet_next(s1, l1), quiet_rest(s1, l1));
    lemma_mode_push(s1, Op::Pha, 0);
    let t = ops::op_spec(s1, Op::Pha);
    assert(log[1] == (BusOp::Write { addr: cpu::stack_addr(s.s), value: t.v1 }));
    assert(s2 == model::ticked(P65 { s: cpu::sub8(s.s, 1), ..t }) && l2 == l1.drop_first());
    lemma_quiet_step(s2, l2, 5);
    let (s3, l3) = (quiet_next(s2, l2), quiet_rest(s2, l2));
    lemma_mode_push(s2, Op::Pha, 0);
    lemma_mode_push(s2, Op::Pha, l2[0]->Read_value);
    assert(s3.op == 0x68 && s3.ts == 1 && s3.pc == cpu::inc16(s.pc) && l3 == l2.drop_first());
    lemma_quiet_step(s3, l3, 4);
    let (s4, l4) = (quiet_next(s3, l3), quiet_rest(s3, l3));
    lemma_mode_pull(s3, Op::Pla, 0);
    lemma_mode_pull(s3, Op::Pla, model::bus_value(l3[0]));
    assert(s4 == model::ticked(s3) && l4 == l3.drop_first());
    lemma_quiet_step(s4, l4, 3);
    let (s5, l5) = (quiet_next(s4, l4), quiet_rest(s4, l4));
    lemma_mode_pull(s4, Op::Pla, 0);
    lemma_mode_pull(s4, Op::Pla, model::bus_value(l4[0]));
    assert(s5.s == s.s && s5.ts == 3 && s5.op == s3.op && l5 == l4.drop_first());
    lemma_quiet_step(s5, l5, 2);
    let (s6, l6) = (quiet_next(s5, l5), quiet_rest(s5, l5));
    lemma_mode_pull(s5, Op::Pla, 0);
    lemma_mode_pull(s5, Op::Pla, l5[0]->Read_value);
    assert(s6.v1 == t.v1 && s6.ts == 4 && s6.op == s3.op && l6 == l5.drop_first());
    lemma_quiet_step(s6, l6, 1);
    let (s7, l7) = (quiet_next(s6, l6), quiet_rest(s6, l6));
    lemma_mode_pull(s6, Op::Pla, 0);
    lemma_mode_pull(s6, Op::Pla, l6[0]->Read_value);
    assert(model::run_from(s7, l7, 0) == Some((s7, 0nat)));
}

/// PHP then PLP, on a bus whose stack slot reads back what was written,
/// pushes P with B set and bit 5 set, and restores every flag.
#[verifier::spinoff_prover]
#[verifier::rlimit(100)]
pub proof fn lemma_php_plp(s: P65, log: Seq<BusOp>)
    requires
        s.ts == 1,
        s.op == 0x08,
        quiet(s),
        s.cycle + 7 <= u64::MAX,
        model::run_from(s, log, 7) is Some,
        log.len() >= 6,
        model::bus_value(log[2]) == 0x28,
        model::bus_value(log[5]) == model::bus_value(log[1]),
        s.p.bit5,
    ensures
        ({
            let (f, k) = model::run_from(s, log, 7).unwrap();
            &&& log[1] == (BusOp::Write {
                addr: cpu::stack_addr(s.s),
                value: crate::flags::packed(crate::flags::P65Flags { b: true, ..s.p }),
            })
            &&& f.a == s.a && f.p == s.p
            &&& f.x == s.x && f.y == s.y && f.s == s.s
            &&& f.ts == 1 && k == 2 && f.cycle == s.cycle + 7
            &&& f.pc == cpu::inc16(cpu::inc16(s.pc))
        }),
{
    lemma_stack_opcodes();
    lemma_quiet_step(s, log, 7);
    let (s1, l1) = (quiet_next(s, log), quiet_rest(s, log));
    lemma_mode_push(s, Op::Php, 0);
    lemma_mode_push(s, Op::Php, model::bus_value(log[0]));
    assert(s1 == model::ticked(s) && l1 == log.drop_first());
    lemma_quiet_step(s1, l1, 6);
    let (s2, l2) = (quiet_next(s1, l1), quiet_rest(s1, l1));
    lemma_mode_push(s1, Op::Php, 0);
    let t = ops::op_spec(s1, Op::Php);
    assert(log[1] == (BusOp::Write { addr: cpu::stack_addr(s.s), value: t.v1 }));
    assert(s2 == model::ticked(P65 { s: cpu::sub8(s.s, 1), ..t }) && l2 == l1.drop_first());
    lemma_quiet_step(s2, l2, 5);
    let (s3, l3) = (quiet_next(s2, l2), quiet_rest(s2, l2));
    lemma_mode_push(s2, Op::Php, 0);
    lemma_mode_push(s2, Op::Php, l2[0]->Read_value);
    assert(s3.op == 0x28 && s3.ts == 1 && s3.pc == cpu::inc16(s.pc) && l3 == l2.drop_first());
    lemma_quiet_step(s3, l3, 4);
    let (s4, l4) = (quiet_next(s3, l3), quiet_rest(s3, l3));
    lemma_mode_pull(s3, Op::Plp, 0);
    lemma_mode_pull(s3, Op::Plp, model::bus_value(l3[0]));
    assert(s4 == model::ticked(s3) && l4 == l3.drop_first());
    lemma_quiet_step(s4, l4, 3);
    let (s5, l5) = (quiet_next(s4, l4), quiet_rest(s4, l4));
    lemma_mode_pull(s4, Op::Plp, 0);
    lemma_mode_pull(s4, Op::Plp, model::bus_value(l4[0]));
    assert(s5.s == s.s && s5.ts == 3 && s5.op == s3.op && l5 == l4.drop_first());
    lemma_quiet_step(s5, l5, 2);
    let (s6, l6) = (quiet_next(s5, l5), quiet_rest(s5, l5));
    lemma_mode_pull(s5, Op::Plp, 0);
    lemma_mode_pull(s5, Op::Plp, l5[0]->Read_value);
    assert(s6.v1 == t.v1 && s6.ts == 4 && s6.op == s3.op && l6 == l5.drop_first());
    lemma_quiet_step(s6, l6, 1);
    let (s7, l7) = (quiet_next(s6, l6), quiet_rest(s6, l6));
    lemma_mode_pull(s6, Op::Plp, 0);
    lemma_mode_pull(s6, Op::Plp, l6[0]->Read_value);
    crate::flags::lemma_pack_unpack(crate::flags::P65Flags { b: true, ..s.p });
    assert(model::run_from(s7, l7, 0) == Some((s7, 0nat)));
}

/// The state after one cycle from `s` on a bus whose next transaction is
/// `log[0]`.
pub open spec fn next_of(s: P65, log: Seq<BusOp>) -> P65 {
    let d = if model::machine_step(s, 0).0 is Read { model::bus_value(log[0]) } else { 0 };
    model::machine_step(s, d).1
}

/// The transactions left after one cycle from `s`.
pub open spec fn rest_of(s: P65, log: Seq<BusOp>) -> Seq<BusOp> {
    if model::machine_step(s, 0).0 is Idle { log } else { log.drop_first() }
}

/// One cycle of a run, unfolded.
pub proof fn lemma_any_step(s: P65, log: Seq<BusOp>, n: nat)
    requires
        n > 0,
        model::run_from(s, log, n) is Some,
    ensures
        ({
            let s2 = next_of(s, log);
            let r = model::run_from(s2, rest_of(s, log), (n - 1) as nat);
            &&& r is Some
            &&& model::run_from(s, log, n) == Some((r.unwrap().0, model::start_count(s2, r.unwrap().1)))
            &&& match model::machine_step(s, 0).0 {
                model::Access::Read(a) => log.len() > 0 && log[0] == (BusOp::Read { addr: a, value: model::bus_value(log[0]) }),
                model::Access::Write(a, v) => log.len() > 0 && log[0] == (BusOp::Write { addr: a, value: v }),
                model::Access::Idle => true,
            }
        }),
{
    model::lemma_run_from_first(s, log, n);
}

pub proof fn lemma_mode_implied(s: P65, o: Op, d: u8)
    requires
        decode::mode_of(s.op) == Mode::Implied,
    ensures
        model::mode_step(s, decode::mode_of(s.op), o, d) == model::implied_step(s, o, d),
{
    reveal(model::mode_step);
}

pub proof fn lemma_mode_brk(s: P65, o: Op, d: u8)
    requires
        s.op == 0,
    ensures
        model::mode_step(s, decode::mode_of(s.op), o, d) == model::brk_step(s, d),
{
    reveal(decode::mode_of);
    reveal(model::mode_step);
}

/// Only CLI, SEI and PLP change I.
pub proof fn lemma_semantic_keeps_i(s: P65, o: Op)
    requires
        o != Op::Cli && o != Op::Sei && o != Op::Plp,
    ensures
        ops::op_spec(s, o).p.i == s.p.i && ops::op_spec(s, o).p.bit5 == s.p.bit5,
{
}

/// When a latched IRQ is serviced after an implied-mode instruction that
/// leaves I alone, the P pushed on the stack has B clear and the I of before
/// the interrupt, the vector is read at 0xFFFE, and I is set.
#[verifier::spinoff_prover]
#[verifier::rlimit(100)]
pub proof fn lemma_irq_service(s: P65, log: Seq<BusOp>)
    requires
        s.ts == 1,
        decode::mode_of(s.op) == Mode::Implied,
        decode::op_of(s.op) != Op::Cli && decode::op_of(s.op) != Op::Sei,
        s.irq_triggered && !s.nmi_triggered && !s.reset_triggered && !s.nmi,
        s.p.bit5,
        s.cycle + 6 <= u64::MAX,
        model::run_from(s, log, 6) is Some,
    ensures
        ({
            let (f, k) = model::run_from(s, log, 6).unwrap();
            &&& log[4] is Write
            &&& !crate::flags::unpacked(model::bus_value(log[4])).b
            &&& crate::flags::unpacked(model::bus_value(log[4])).i == s.p.i
            &&& log[5] == (BusOp::Read { addr: 0xFFFE, value: model::bus_value(log[5]) })
            &&& f.p.i
        }),
{
    let o = decode::op_of(s.op);
    reveal(decode::mode_of);
    assert(o != Op::Plp) by {
        reveal(decode::op_of);
    }
    lemma_semantic_keeps_i(s, o);
    lemma_semantic_keeps_i(model::ticked(s), o);
    lemma_any_step(s, log, 6);
    let (s1, l1) = (next_of(s, log), rest_of(s, log));
    assert(model::polled(s) == s);
    lemma_mode_implied(s, o, 0);
    lemma_mode_implied(s, o, model::bus_value(log[0]));
    assert(s1 == model::ticked(s) && l1 == log.drop_first()) by {
        reveal(model::machine_step);
    }
    lemma_any_step(s1, l1, 5);
    let (s2, l2) = (next_of(s1, l1), rest_of(s1, l1));
    assert(model::polled(s1) == s1);
    lemma_mode_implied(s1, o, 0);
    lemma_mode_implied(s1, o, model::bus_value(l1[0]));
    let t = ops::op_spec(s1, o);
    ops::lemma_op_frame(s1, o);
    let fl = crate::flags::P65Flags { b: false, ..t.p };
    assert(s2.op == 0 && s2.ts == 2 && s2.p == fl && s2.irq_triggered && !s2.nmi_triggered
        && !s2.reset_triggered && !s2.nmi && l2 == l1.drop_first()) by {
        reveal(model::machine_step);
    }
    lemma_any_step(s2, l2, 4);
    let (s3, l3) = (next_of(s2, l2), rest_of(s2, l2));
    assert(model::polled(s2) == s2);
    lemma_mode_brk(s2, o, 0);
    lemma_mode_brk(s2, Op::Nil, 0);
    lemma_mode_brk(s2, decode::op_of(s2.op), 0);
    assert(s3.op == 0 && s3.ts == 3 && s3.p == fl && s3.irq_triggered && !s3.nmi_triggered
        && !s3.reset_triggered && !s3.nmi && l3 == l2.drop_first()) by {
        reveal(model::machine_step);
    }
    lemma_any_step(s3, l3, 3);
    let (s4, l4) = (next_of(s3, l3), rest_of(s3, l3));
    assert(model::polled(s3) == s3);
    lemma_mode_brk(s3, decode::op_of(s3.op), 0);
    assert(s4.op == 0 && s4.ts == 4 && s4.p == fl && s4.irq_triggered && !s4.nmi_triggered
        && !s4.reset_triggered && !s4.nmi && l4 == l3.drop_first()) by {
        reveal(model::machine_step);
    }
    lemma_any_step(s4, l4, 2);
    let (s5, l5) = (next_of(s4, l4), rest_of(s4, l4));
    assert(model::polled(s4) == s4);
    lemma_mode_brk(s4, decode::op_of(s4.op), 0);
    assert(log[4] == (BusOp::Write { addr: cpu::stack_addr(s4.s), value: crate::flags::packed(fl) })
        && s5.op == 0 && s5.ts == 5 && s5.irq_triggered && !s5.nmi_triggered && !s5.reset_triggered
        && !s5.nmi && l5 == l4.drop_first()) by {
        reveal(model::machine_step);
    }
    crate::flags::lemma_pack_unpack(fl);
    lemma_any_step(s5, l5, 1);
    let (s6, l6) = (next_of(s5, l5), rest_of(s5, l5));
    assert(model::polled(s5) == s5);
    lemma_mode_brk(s5, decode::op_of(s5.op), 0);
    lemma_mode_brk(s5, decode::op_of(s5.op), model::bus_value(l5[0]));
    assert(s6.p.i && l6 == l5.drop_first() && model::machine_step(s5, 0).0 == model::Access::Read(0xFFFE)) by {
        reveal(model::machine_step);
    }
    assert(l4[0] == log[4] && l5[0] == log[5]);
    assert(model::run_from(s6, l6, 0) == Some((s6, 0nat)));
}

} // verus!
