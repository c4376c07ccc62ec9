use vstd::prelude::*;

verus! {

/// The processor status word: the six architectural flags, the reserved
/// bit 5 and the B pseudo-flag that only appears in pushed copies.
#[derive(Clone, Copy, PartialEq, Eq, Structural)]
pub struct P65Flags {
    pub n: bool,
    pub v: bool,
    pub bit5: bool,
    pub b: bool,
    pub d: bool,
    pub i: bool,
    pub z: bool,
    pub c: bool,
}

/// The bit of weight `w` when `f` holds, zero otherwise.
pub open spec fn bit_if(f: bool, w: u8) -> u8 {
    if f { w } else { 0 }
}

/// The byte that the flags pack to: N,V,1,B,D,I,Z,C from bit 7 down to bit 0.
pub open spec fn packed(f: P65Flags) -> u8 {
    (bit_if(f.n, 0x80) | bit_if(f.v, 0x40) | 0x20u8 | bit_if(f.b, 0x10) | bit_if(f.d, 0x08)
        | bit_if(f.i, 0x04) | bit_if(f.z, 0x02) | bit_if(f.c, 0x01)) as u8
}

/// The flags read from a byte: every flag from its bit, bit 5 set.
pub open spec fn unpacked(x: u8) -> P65Flags {
    P65Flags {
        n: x & 0x80 != 0,
        v: x & 0x40 != 0,
        bit5: true,
        b: x & 0x10 != 0,
        d: x & 0x08 != 0,
        i: x & 0x04 != 0,
        z: x & 0x02 != 0,
        c: x & 0x01 != 0,
    }
}

/// The flags read from a byte while `keep_b` is kept as the B pseudo-flag,
/// as PLP and RTI do.
pub open spec fn unpacked_keep_b(x: u8, keep_b: bool) -> P65Flags {
    P65Flags { b: keep_b, ..unpacked(x) }
}

impl P65Flags {
    pub fn pack(&self) -> (r: u8)
        ensures
            r == packed(*self),
    {
        (if self.n { 0x80u8 } else { 0x00u8 }) | (if self.v { 0x40u8 } else { 0x00u8 }) | 0x20u8
            | (if self.b { 0x10u8 } else { 0x00u8 }) | (if self.d { 0x08u8 } else { 0x00u8 })
            | (if self.i { 0x04u8 } else { 0x00u8 }) | (if self.z { 0x02u8 } else { 0x00u8 })
            | (if self.c { 0x01u8 } else { 0x00u8 })
    }

    /// Sets every flag, B included, from `flags`; bit 5 reads as one.
    pub fn unpack_including_b(&mut self, flags: u8)
        ensures
            *final(self) == unpacked(flags),
    {
        self.n = flags & 0x80 != 0;
        self.v = flags & 0x40 != 0;
        self.bit5 = true;
        self.b = flags & 0x10 != 0;
        self.d = flags & 0x08 != 0;
        self.i = flags & 0x04 != 0;
        self.z = flags & 0x02 != 0;
        self.c = flags & 0x01 != 0;
    }

    /// Sets N, V, D, I, Z and C from `flags`; B is left as it was.
    pub fn unpack(&mut self, flags: u8)
        ensures
            *final(self) == unpacked_keep_b(flags, old(self).b),
    {
        let b = self.b;
        self.unpack_including_b(flags);
        self.b = b;
    }
}

/// Packing then unpacking gives the byte back with bit 5 forced to one.
pub proof fn lemma_unpack_pack(x: u8)
    ensures
        packed(unpacked(x)) == x | 0x20,
        packed(unpacked(x)) & 0x20 == 0x20,
{
    let (n, v, b, d, i, z, c) = (x & 0x80 != 0, x & 0x40 != 0, x & 0x10 != 0, x & 0x08 != 0,
        x & 0x04 != 0, x & 0x02 != 0, x & 0x01 != 0);
    assert(((if n { 0x80u8 } else { 0u8 }) | (if v { 0x40u8 } else { 0u8 }) | 0x20u8 | (if b {
        0x10u8
    } else {
        0u8
    }) | (if d { 0x08u8 } else { 0u8 }) | (if i { 0x04u8 } else { 0u8 }) | (if z {
        0x02u8
    } else {
        0u8
    }) | (if c { 0x01u8 } else { 0u8 })) == x | 0x20) by (bit_vector)
        requires
            n == (x & 0x80 != 0), v == (x & 0x40 != 0), b == (x & 0x10 != 0),
            d == (x & 0x08 != 0), i == (x & 0x04 != 0), z == (x & 0x02 != 0),
            c == (x & 0x01 != 0),
    ;
    assert((x | 0x20) & 0x20 == 0x20) by (bit_vector);
}

/// Unpacking a packed word gives the flags back, bit 5 being always set.
pub proof fn lemma_pack_unpack(f: P65Flags)
    requires
        f.bit5,
    ensures
        unpacked(packed(f)) == f,
{
    let (n, v, b, d, i, z, c) = (f.n, f.v, f.b, f.d, f.i, f.z, f.c);
    let x = packed(f);
    assert(x == ((if n { 0x80u8 } else { 0u8 }) | (if v { 0x40u8 } else { 0u8 }) | 0x20u8 | (if b {
        0x10u8
    } else {
        0u8
    }) | (if d { 0x08u8 } else { 0u8 }) | (if i { 0x04u8 } else { 0u8 }) | (if z {
        0x02u8
    } else {
        0u8
    }) | (if c { 0x01u8 } else { 0u8 })));
    assert(n == (x & 0x80 != 0) && v == (x & 0x40 != 0) && b == (x & 0x10 != 0) && d == (x & 0x08
        != 0) && i == (x & 0x04 != 0) && z == (x & 0x02 != 0) && c == (x & 0x01 != 0)) by (bit_vector)
        requires
            x == ((if n { 0x80u8 } else { 0u8 }) | (if v { 0x40u8 } else { 0u8 }) | 0x20u8 | (if b {
                0x10u8
            } else {
                0u8
            }) | (if d { 0x08u8 } else { 0u8 }) | (if i { 0x04u8 } else { 0u8 }) | (if z {
                0x02u8
            } else {
                0u8
            }) | (if c { 0x01u8 } else { 0u8 })),
    ;
}

} // verus!
