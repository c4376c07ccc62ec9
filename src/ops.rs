use vstd::prelude::*;

use crate::cpu::P65;
use crate::decode::Op;
use crate::flags::P65Flags;

verus! {

/// N and Z set from the value `v`.
pub open spec fn with_nz(s: P65, v: u8) -> P65 {
    P65 { p: P65Flags { n: v >= 0x80, z: v == 0, ..s.p }, ..s }
}

pub open spec fn carry_in(s: P65) -> int {
    if s.p.c { 1 } else { 0 }
}

/// Binary ADC: A + v1 + C into A (and v1), carry out of bit 7, signed overflow.
pub open spec fn adc_bin(s: P65) -> P65 {
    let sum = s.a + s.v1 + carry_in(s);
    let r = (sum % 256) as u8;
    with_nz(
        P65 { a: r, v1: r, p: P65Flags { c: sum >= 256, v: (s.a ^ r) & (s.v1 ^ r) & 0x80 != 0, ..s.p }, ..s },
        r,
    )
}

/// Binary SBC: A - v1 - (1 - C) into A (and v1); C is the inverted borrow.
pub open spec fn sbc_bin(s: P65) -> P65 {
    let diff = s.a - s.v1 - (1 - carry_in(s));
    let r = ((diff + 256) % 256) as u8;
    with_nz(
        P65 { a: r, v1: r, p: P65Flags { c: diff >= 0, v: (s.a ^ s.v1) & (s.a ^ r) & 0x80 != 0, ..s.p }, ..s },
        r,
    )
}

/// The sum of two BCD bytes and a carry: the adjusted byte and the carry out.
pub open spec fn bcd_sum(a: u8, b: u8, c: int) -> (u8, bool) {
    let lo0 = a % 16 + b % 16 + c;
    let hi0 = a / 16 + b / 16 + if lo0 >= 10 { 1int } else { 0 };
    let lo = if lo0 >= 10 { lo0 - 10 } else { lo0 };
    let hi = if hi0 >= 10 { hi0 - 10 } else { hi0 };
    (((hi * 16) % 256) as u8 | lo as u8, hi0 >= 10)
}

/// The difference of two BCD bytes with a borrow of 1 - c: the adjusted byte
/// and the inverted borrow out.
pub open spec fn bcd_diff(a: u8, b: u8, c: int) -> (u8, bool) {
    let lo0 = (10 + a % 16 + 256 - b % 16 - (1 - c)) % 256;
    let hi0 = (10 + a / 16 + 256 - b / 16) % 256;
    let lo = if lo0 >= 10 { lo0 - 10 } else { lo0 };
    let hi1 = if lo0 >= 10 { hi0 } else { (hi0 + 255) % 256 };
    let hi = if hi1 >= 10 { hi1 - 10 } else { hi1 };
    (((hi * 16) % 256) as u8 | lo as u8, hi1 >= 10)
}

/// Decimal ADC: A and C from the BCD sum; N, V and Z as the binary sum
/// leaves them.
pub open spec fn adc_dec(s: P65) -> P65 {
    let (r, c) = bcd_sum(s.a, s.v1, carry_in(s));
    P65 { a: r, p: P65Flags { c, ..adc_bin(s).p }, ..s }
}

/// Decimal SBC: A and C from the BCD difference; N, V and Z as the binary
/// difference leaves them.
pub open spec fn sbc_dec(s: P65) -> P65 {
    let (r, c) = bcd_diff(s.a, s.v1, carry_in(s));
    P65 { a: r, p: P65Flags { c, ..sbc_bin(s).p }, ..s }
}

/// Adds two BCD bytes and a carry.
pub fn bcd_add(a: u8, b: u8, carry: bool) -> (r: (u8, bool))
    ensures
        r == bcd_sum(a, b, if carry { 1 } else { 0 }),
{
    let mut lo: u8 = a % 16 + b % 16 + if carry { 1u8 } else { 0u8 };
    let mut hi: u8 = a / 16 + b / 16;
    if lo >= 10 {
        lo = lo - 10;
        hi = hi + 1;
    }
    let c = hi >= 10;
    if c {
        hi = hi - 10;
    }
    (((hi as u16 * 16) % 256) as u8 | lo, c)
}

/// Subtracts two BCD bytes with a borrow of one when `carry` is clear.
pub fn bcd_sub(a: u8, b: u8, carry: bool) -> (r: (u8, bool))
    ensures
        r == bcd_diff(a, b, if carry { 1 } else { 0 }),
{
    let borrow: u16 = if carry { 0 } else { 1 };
    let mut lo: u16 = (10 + (a % 16) as u16 + 256 - (b % 16) as u16 - borrow) % 256;
    let mut hi: u16 = (10 + (a / 16) as u16 + 256 - (b / 16) as u16) % 256;
    if lo >= 10 {
        lo = lo - 10;
    } else {
        hi = (hi + 255) % 256;
    }
    let c = hi >= 10;
    if c {
        hi = hi - 10;
    }
    (((hi * 16) % 256) as u8 | lo as u8, c)
}

/// Compare `r` with v1: C when r >= v1, N and Z from r - v1.
pub open spec fn compare(s: P65, r: u8) -> P65 {
    with_nz(P65 { p: P65Flags { c: r >= s.v1, ..s.p }, ..s }, crate::cpu::sub8(r, s.v1))
}

/// Whether a branch opcode's condition holds.
pub open spec fn branch_taken(f: P65Flags, o: Op) -> bool {
    match o {
        Op::Bcs => f.c,
        Op::Bcc => !f.c,
        Op::Beq => f.z,
        Op::Bne => !f.z,
        Op::Bvs => f.v,
        Op::Bvc => !f.v,
        Op::Bmi => f.n,
        Op::Bpl => !f.n,
        _ => true,
    }
}

pub open spec fn is_branch(o: Op) -> bool {
    matches!(o, Op::Bcs | Op::Bcc | Op::Beq | Op::Bne | Op::Bvs | Op::Bvc | Op::Bmi | Op::Bpl)
}

/// What each opcode semantic does to the processor.
pub open spec fn op_spec(s: P65, o: Op) -> P65 {
    let v1 = s.v1;
    match o {
        Op::Nil | Op::Nop | Op::Unk => s,
        Op::Ora => with_nz(P65 { a: s.a | v1, ..s }, s.a | v1),
        Op::And => with_nz(P65 { a: s.a & v1, ..s }, s.a & v1),
        Op::Eor => with_nz(P65 { a: s.a ^ v1, ..s }, s.a ^ v1),
        Op::Adc => if s.p.d { adc_dec(s) } else { adc_bin(s) },
        Op::Sbc => if s.p.d { sbc_dec(s) } else { sbc_bin(s) },
        Op::Cmp => compare(s, s.a),
        Op::Cpx => compare(s, s.x),
        Op::Cpy => compare(s, s.y),
        Op::Bit => P65 { p: P65Flags { z: v1 & s.a == 0, n: v1 >= 0x80, v: v1 & 0x40 != 0, ..s.p }, ..s },
        Op::Asl => {
            let r = ((v1 * 2) % 256) as u8;
            with_nz(P65 { v1: r, p: P65Flags { c: v1 >= 0x80, ..s.p }, ..s }, r)
        },
        Op::Lsr => {
            let r = (v1 / 2) as u8;
            with_nz(P65 { v1: r, p: P65Flags { c: v1 % 2 == 1, ..s.p }, ..s }, r)
        },
        Op::Rol => {
            let r = ((v1 * 2) % 256 + carry_in(s)) as u8;
            with_nz(P65 { v1: r, p: P65Flags { c: v1 >= 0x80, ..s.p }, ..s }, r)
        },
        Op::Ror => {
            let r = (v1 / 2 + 128 * carry_in(s)) as u8;
            with_nz(P65 { v1: r, p: P65Flags { c: v1 % 2 == 1, ..s.p }, ..s }, r)
        },
        Op::Inc => with_nz(P65 { v1: crate::cpu::add8(v1, 1), ..s }, crate::cpu::add8(v1, 1)),
        Op::Dec => with_nz(P65 { v1: crate::cpu::sub8(v1, 1), ..s }, crate::cpu::sub8(v1, 1)),
        Op::Lda | Op::Pla => with_nz(P65 { a: v1, ..s }, v1),
        Op::Ldx => with_nz(P65 { x: v1, ..s }, v1),
        Op::Ldy => with_nz(P65 { y: v1, ..s }, v1),
        Op::Sta | Op::Pha => P65 { v1: s.a, ..s },
        Op::Stx => P65 { v1: s.x, ..s },
        Op::Sty => P65 { v1: s.y, ..s },
        Op::Php => P65 { v1: crate::flags::packed(P65Flags { b: true, ..s.p }), ..s },
        Op::Plp => P65 { p: crate::flags::unpacked_keep_b(v1, s.p.b), ..s },
        Op::Sec => P65 { p: P65Flags { c: true, ..s.p }, ..s },
        Op::Clc => P65 { p: P65Flags { c: false, ..s.p }, ..s },
        Op::Sei => P65 { p: P65Flags { i: true, ..s.p }, ..s },
        Op::Cli => P65 { p: P65Flags { i: false, ..s.p }, ..s },
        Op::Sed => P65 { p: P65Flags { d: true, ..s.p }, ..s },
        Op::Cld => P65 { p: P65Flags { d: false, ..s.p }, ..s },
        Op::Clv => P65 { p: P65Flags { v: false, ..s.p }, ..s },
        Op::Inx => with_nz(P65 { x: crate::cpu::add8(s.x, 1), ..s }, crate::cpu::add8(s.x, 1)),
        Op::Dex => with_nz(P65 { x: crate::cpu::sub8(s.x, 1), ..s }, crate::cpu::sub8(s.x, 1)),
        Op::Iny => with_nz(P65 { y: crate::cpu::add8(s.y, 1), ..s }, crate::cpu::add8(s.y, 1)),
        Op::Dey => with_nz(P65 { y: crate::cpu::sub8(s.y, 1), ..s }, crate::cpu::sub8(s.y, 1)),
        Op::Tax => with_nz(P65 { x: s.a, ..s }, s.a),
        Op::Tay => with_nz(P65 { y: s.a, ..s }, s.a),
        Op::Tsx => with_nz(P65 { x: s.s, ..s }, s.s),
        Op::Txa => with_nz(P65 { a: s.x, ..s }, s.x),
        Op::Txs => P65 { s: s.x, ..s },
        Op::Tya => with_nz(P65 { a: s.y, ..s }, s.y),
        Op::Bcs | Op::Bcc | Op::Beq | Op::Bne | Op::Bvs | Op::Bvc | Op::Bmi | Op::Bpl => {
            if branch_taken(s.p, o) { s } else { P65 { ts: 3, ..s } }
        },
    }
}

/// A semantic changes only A, X, Y, S, P, v1, and ts for a branch not taken.
#[verifier::spinoff_prover]
#[verifier::rlimit(100)]
pub proof fn lemma_op_frame(s: P65, o: Op)
    ensures
        ({
            let t = op_spec(s, o);
            &&& t.pc == s.pc && t.cycle == s.cycle && t.op == s.op && t.v2 == s.v2
            &&& t.ah == s.ah && t.al == s.al
            &&& t.nmi == s.nmi && t.nmi_cycle == s.nmi_cycle && t.nmi_triggered == s.nmi_triggered
            &&& t.irq == s.irq && t.irq_cycle == s.irq_cycle && t.irq_triggered == s.irq_triggered
            &&& t.reset_triggered == s.reset_triggered
            &&& (t.ts == s.ts || (is_branch(o) && t.ts == 3))
        }),
{
    match o {
        Op::Adc => {},
        Op::And => {},
        Op::Asl => {},
        Op::Bcc => {},
        Op::Bcs => {},
        Op::Beq => {},
        Op::Bit => {},
        Op::Bmi => {},
        Op::Bne => {},
        Op::Bpl => {},
        Op::Bvc => {},
        Op::Bvs => {},
        Op::Clc => {},
        Op::Cld => {},
        Op::Cli => {},
        Op::Clv => {},
        Op::Cmp => {},
        Op::Cpx => {},
        Op::Cpy => {},
        Op::Dec => {},
        Op::Dex => {},
        Op::Dey => {},
        Op::Eor => {},
        Op::Inc => {},
        Op::Inx => {},
        Op::Iny => {},
        Op::Lda => {},
        Op::Ldx => {},
        Op::Ldy => {},
        Op::Lsr => {},
        Op::Nil => {},
        Op::Nop => {},
        Op::Ora => {},
        Op::Pha => {},
        Op::Php => {},
        Op::Pla => {},
        Op::Plp => {},
        Op::Rol => {},
        Op::Ror => {},
        Op::Sbc => {},
        Op::Sec => {},
        Op::Sed => {},
        Op::Sei => {},
        Op::Sta => {},
        Op::Stx => {},
        Op::Sty => {},
        Op::Tax => {},
        Op::Tay => {},
        Op::Tsx => {},
        Op::Txa => {},
        Op::Txs => {},
        Op::Tya => {},
        Op::Unk => {},
    }
}

impl P65 {
    pub fn fix_nz(&mut self, v: u8)
        ensures
            *final(self) == with_nz(*old(self), v),
    {
        self.p.z = v == 0;
        self.p.n = v >= 0x80;
    }

    pub fn op_asl(&mut self)
        ensures
            *final(self) == op_spec(*old(self), Op::Asl),
    {
        self.p.c = self.v1 >= 0x80;
        self.v1 = ((self.v1 as u16 * 2) % 256) as u8;
        let r = self.v1;
        self.fix_nz(r);
    }

    pub fn op_lsr(&mut self)
        ensures
            *final(self) == op_spec(*old(self), Op::Lsr),
    {
        self.p.c = self.v1 % 2 == 1;
        self.v1 = self.v1 / 2;
        let r = self.v1;
        self.fix_nz(r);
    }

    pub fn op_rol(&mut self)
        ensures
            *final(self) == op_spec(*old(self), Op::Rol),
    {
        let old_v = self.v1;
        self.v1 = ((self.v1 as u16 * 2) % 256) as u8 + if self.p.c { 1u8 } else { 0u8 };
        self.p.c = old_v >= 0x80;
        let r = self.v1;
        self.fix_nz(r);
    }

    pub fn op_ror(&mut self)
        ensures
            *final(self) == op_spec(*old(self), Op::Ror),
    {
        let old_v = self.v1;
        self.v1 = self.v1 / 2 + if self.p.c { 0x80u8 } else { 0u8 };
        self.p.c = old_v % 2 == 1;
        let r = self.v1;
        self.fix_nz(r);
    }

    pub fn op_adc(&mut self)
        ensures
            *final(self) == op_spec(*old(self), Op::Adc),
    {
        if self.p.d {
            self.op_adc_dec();
        } else {
            self.op_adc_bin();
        }
    }

    pub fn op_adc_bin(&mut self)
        ensures
            *final(self) == adc_bin(*old(self)),
    {
        let sum: u16 = self.a as u16 + self.v1 as u16 + if self.p.c { 1u16 } else { 0u16 };
        let r = (sum % 256) as u8;
        self.p.c = sum >= 0x100;
        self.p.v = (self.a ^ r) & (self.v1 ^ r) & 0x80 != 0;
        self.v1 = r;
        self.fix_nz(r);
        self.a = r;
    }

    pub fn op_adc_dec(&mut self)
        ensures
            *final(self) == adc_dec(*old(self)),
    {
        let (r, c) = bcd_add(self.a, self.v1, self.p.c);
        let v1 = self.v1;
        self.op_adc_bin();
        self.p.c = c;
        self.a = r;
        self.v1 = v1;
    }

    pub fn op_sbc(&mut self)
        ensures
            *final(self) == op_spec(*old(self), Op::Sbc),
    {
        if self.p.d {
            self.op_sbc_dec();
        } else {
            self.op_sbc_bin();
        }
    }

    pub fn op_sbc_bin(&mut self)
        ensures
            *final(self) == sbc_bin(*old(self)),
    {
        let borrow: u16 = if self.p.c { 0 } else { 1 };
        let t: u16 = self.a as u16 + 256 - self.v1 as u16 - borrow;
        let r = (t % 256) as u8;
        assert(r == ((self.a - self.v1 - (1 - carry_in(*self)) + 256) % 256) as u8);
        self.p.c = t >= 0x100;
        self.p.v = (self.a ^ self.v1) & (self.a ^ r) & 0x80 != 0;
        self.v1 = r;
        self.fix_nz(r);
        self.a = r;
    }

    pub fn op_sbc_dec(&mut self)
        ensures
            *final(self) == sbc_dec(*old(self)),
    {
        let (r, c) = bcd_sub(self.a, self.v1, self.p.c);
        let v1 = self.v1;
        self.op_sbc_bin();
        self.p.c = c;
        self.a = r;
        self.v1 = v1;
    }

    pub fn op_and(&mut self)
        ensures
            *final(self) == op_spec(*old(self), Op::And),
    {
        self.a = self.a & self.v1;
        let r = self.a;
        self.fix_nz(r);
    }

    pub fn op_ora(&mut self)
        ensures
            *final(self) == op_spec(*old(self), Op::Ora),
    {
        self.a = self.a | self.v1;
        let r = self.a;
        self.fix_nz(r);
    }

    pub fn op_eor(&mut self)
        ensures
            *final(self) == op_spec(*old(self), Op::Eor),
    {
        self.a = self.a ^ self.v1;
        let r = self.a;
        self.fix_nz(r);
    }

    /// Compares register value `r` with v1.
    pub fn compare_with(&mut self, r: u8)
        ensures
            *final(self) == compare(*old(self), r),
    {
        let d = r.wrapping_sub(self.v1);
        self.p.c = r >= self.v1;
        self.fix_nz(d);
    }

    pub fn op_cmp(&mut self)
        ensures
            *final(self) == op_spec(*old(self), Op::Cmp),
    {
        let r = self.a;
        self.compare_with(r);
    }

    pub fn op_cpx(&mut self)
        ensures
            *final(self) == op_spec(*old(self), Op::Cpx),
    {
        let r = self.x;
        self.compare_with(r);
    }

    pub fn op_cpy(&mut self)
        ensures
            *final(self) == op_spec(*old(self), Op::Cpy),
    {
        let r = self.y;
        self.compare_with(r);
    }

    pub fn op_bit(&mut self)
        ensures
            *final(self) == op_spec(*old(self), Op::Bit),
    {
        self.p.z = self.v1 & self.a == 0;
        self.p.n = self.v1 >= 0x80;
        self.p.v = self.v1 & 0x40 != 0;
    }

    pub fn op_php(&mut self)
        ensures
            *final(self) == op_spec(*old(self), Op::Php),
    {
        let mut f = self.p;
        f.b = true;
        self.v1 = f.pack();
    }

    pub fn op_plp(&mut self)
        ensures
            *final(self) == op_spec(*old(self), Op::Plp),
    {
        let v = self.v1;
        self.p.unpack(v);
    }

    pub fn op_inc(&mut self)
        ensures
            *final(self) == op_spec(*old(self), Op::Inc),
    {
        let r = self.v1.wrapping_add(1);
        assert(r == crate::cpu::add8(self.v1, 1));
        self.v1 = r;
        self.fix_nz(r);
    }

    pub fn op_dec(&mut self)
        ensures
            *final(self) == op_spec(*old(self), Op::Dec),
    {
        let r = self.v1.wrapping_sub(1);
        assert(r == crate::cpu::sub8(self.v1, 1));
        self.v1 = r;
        self.fix_nz(r);
    }

    pub fn op_lda(&mut self)
        ensures
            *final(self) == op_spec(*old(self), Op::Lda),
    {
        self.a = self.v1;
        let r = self.a;
        self.fix_nz(r);
    }

    pub fn op_pla(&mut self)
        ensures
            *final(self) == op_spec(*old(self), Op::Pla),
    {
        self.a = self.v1;
        let r = self.a;
        self.fix_nz(r);
    }

    pub fn op_ldx(&mut self)
        ensures
            *final(self) == op_spec(*old(self), Op::Ldx),
    {
        self.x = self.v1;
        let r = self.x;
        self.fix_nz(r);
    }

    pub fn op_ldy(&mut self)
        ensures
            *final(self) == op_spec(*old(self), Op::Ldy),
    {
        self.y = self.v1;
        let r = self.y;
        self.fix_nz(r);
    }

    pub fn op_inx(&mut self)
        ensures
            *final(self) == op_spec(*old(self), Op::Inx),
    {
        let r = self.x.wrapping_add(1);
        assert(r == crate::cpu::add8(self.x, 1));
        self.x = r;
        self.fix_nz(r);
    }

    pub fn op_dex(&mut self)
        ensures
            *final(self) == op_spec(*old(self), Op::Dex),
    {
        let r = self.x.wrapping_sub(1);
        assert(r == crate::cpu::sub8(self.x, 1));
        self.x = r;
        self.fix_nz(r);
    }

    pub fn op_iny(&mut self)
        ensures
            *final(self) == op_spec(*old(self), Op::Iny),
    {
        let r = self.y.wrapping_add(1);
        assert(r == crate::cpu::add8(self.y, 1));
        self.y = r;
        self.fix_nz(r);
    }

    pub fn op_dey(&mut self)
        ensures
            *final(self) == op_spec(*old(self), Op::Dey),
    {
        let r = self.y.wrapping_sub(1);
        assert(r == crate::cpu::sub8(self.y, 1));
        self.y = r;
        self.fix_nz(r);
    }

    pub fn op_tax(&mut self)
        ensures
            *final(self) == op_spec(*old(self), Op::Tax),
    {
        self.x = self.a;
        let r = self.x;
        self.fix_nz(r);
    }

    pub fn op_tay(&mut self)
        ensures
            *final(self) == op_spec(*old(self), Op::Tay),
    {
        self.y = self.a;
        let r = self.y;
        self.fix_nz(r);
    }

    pub fn op_tsx(&mut self)
        ensures
            *final(self) == op_spec(*old(self), Op::Tsx),
    {
        self.x = self.s;
        let r = self.x;
        self.fix_nz(r);
    }

    pub fn op_txa(&mut self)
        ensures
            *final(self) == op_spec(*old(self), Op::Txa),
    {
        self.a = self.x;
        let r = self.a;
        self.fix_nz(r);
    }

    pub fn op_tya(&mut self)
        ensures
            *final(self) == op_spec(*old(self), Op::Tya),
    {
        self.a = self.y;
        let r = self.a;
        self.fix_nz(r);
    }

    pub fn op_sta(&mut self)
        ensures
            *final(self) == op_spec(*old(self), Op::Sta),
    {
        self.v1 = self.a;
    }

    pub fn op_pha(&mut self)
        ensures
            *final(self) == op_spec(*old(self), Op::Pha),
    {
        self.v1 = self.a;
    }

    pub fn op_stx(&mut self)
        ensures
            *final(self) == op_spec(*old(self), Op::Stx),
    {
        self.v1 = self.x;
    }

    pub fn op_sty(&mut self)
        ensures
            *final(self) == op_spec(*old(self), Op::Sty),
    {
        self.v1 = self.y;
    }

    pub fn op_sec(&mut self)
        ensures
            *final(self) == op_spec(*old(self), Op::Sec),
    {
        self.p.c = true;
    }

    pub fn op_clc(&mut self)
        ensures
            *final(self) == op_spec(*old(self), Op::Clc),
    {
        self.p.c = false;
    }

    pub fn op_sei(&mut self)
        ensures
            *final(self) == op_spec(*old(self), Op::Sei),
    {
        self.p.i = true;
    }

    pub fn op_cli(&mut self)
        ensures
            *final(self) == op_spec(*old(self), Op::Cli),
    {
        self.p.i = false;
    }

    pub fn op_sed(&mut self)
        ensures
            *final(self) == op_spec(*old(self), Op::Sed),
    {
        self.p.d = true;
    }

    pub fn op_cld(&mut self)
        ensures
            *final(self) == op_spec(*old(self), Op::Cld),
    {
        self.p.d = false;
    }

    pub fn op_clv(&mut self)
        ensures
            *final(self) == op_spec(*old(self), Op::Clv),
    {
        self.p.v = false;
    }

    pub fn op_txs(&mut self)
        ensures
            *final(self) == op_spec(*old(self), Op::Txs),
    {
        self.s = self.x;
    }

    pub fn op_bcs(&mut self)
        ensures
            *final(self) == op_spec(*old(self), Op::Bcs),
    {
        if !self.p.c { self.ts = 3 }
    }

    pub fn op_bcc(&mut self)
        ensures
            *final(self) == op_spec(*old(self), Op::Bcc),
    {
        if self.p.c { self.ts = 3 }
    }

    pub fn op_beq(&mut self)
        ensures
            *final(self) == op_spec(*old(self), Op::Beq),
    {
        if !self.p.z { self.ts = 3 }
    }

    pub fn op_bne(&mut self)
        ensures
            *final(self) == op_spec(*old(self), Op::Bne),
    {
        if self.p.z { self.ts = 3 }
    }

    pub fn op_bvs(&mut self)
        ensures
            *final(self) == op_spec(*old(self), Op::Bvs),
    {
        if !self.p.v { self.ts = 3 }
    }

    pub fn op_bvc(&mut self)
        ensures
            *final(self) == op_spec(*old(self), Op::Bvc),
    {
        if self.p.v { self.ts = 3 }
    }

    pub fn op_bmi(&mut self)
        ensures
            *final(self) == op_spec(*old(self), Op::Bmi),
    {
        if !self.p.n { self.ts = 3 }
    }

    pub fn op_bpl(&mut self)
        ensures
            *final(self) == op_spec(*old(self), Op::Bpl),
    {
        if self.p.n { self.ts = 3 }
    }

    /// Runs the semantic `o` on the registers and scratch bytes.
    #[verifier::rlimit(40)]
    pub fn execute(&mut self, o: Op)
        ensures
            *final(self) == op_spec(*old(self), o),
    {
        match o {
            Op::Nil | Op::Nop | Op::Unk => {},
            Op::Ora => self.op_ora(),
            Op::And => self.op_and(),
            Op::Eor => self.op_eor(),
            Op::Adc => self.op_adc(),
            Op::Sbc => self.op_sbc(),
            Op::Cmp => self.op_cmp(),
            Op::Cpx => self.op_cpx(),
            Op::Cpy => self.op_cpy(),
            Op::Bit => self.op_bit(),
            Op::Asl => self.op_asl(),
            Op::Lsr => self.op_lsr(),
            Op::Rol => self.op_rol(),
            Op::Ror => self.op_ror(),
            Op::Inc => self.op_inc(),
            Op::Dec => self.op_dec(),
            Op::Lda => self.op_lda(),
            Op::Pla => self.op_pla(),
            Op::Ldx => self.op_ldx(),
            Op::Ldy => self.op_ldy(),
            Op::Inx => self.op_inx(),
            Op::Dex => self.op_dex(),
            Op::Iny => self.op_iny(),
            Op::Dey => self.op_dey(),
            Op::Tax => self.op_tax(),
            Op::Tay => self.op_tay(),
            Op::Tsx => self.op_tsx(),
            Op::Txa => self.op_txa(),
            Op::Tya => self.op_tya(),
            Op::Php => self.op_php(),
            Op::Plp => self.op_plp(),
            Op::Sta => self.op_sta(),
            Op::Pha => self.op_pha(),
            Op::Stx => self.op_stx(),
            Op::Sty => self.op_sty(),
            Op::Sec => self.op_sec(),
            Op::Clc => self.op_clc(),
            Op::Sei => self.op_sei(),
            Op::Cli => self.op_cli(),
            Op::Sed => self.op_sed(),
            Op::Cld => self.op_cld(),
            Op::Clv => self.op_clv(),
            Op::Txs => self.op_txs(),
            Op::Bcs => self.op_bcs(),
            Op::Bcc => self.op_bcc(),
            Op::Beq => self.op_beq(),
            Op::Bne => self.op_bne(),
            Op::Bvs => self.op_bvs(),
            Op::Bvc => self.op_bvc(),
            Op::Bmi => self.op_bmi(),
            Op::Bpl => self.op_bpl(),
        }
    }
}

} // verus!
