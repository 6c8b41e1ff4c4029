use vstd::prelude::*;

verus! {

/// The accumulator together with the four status flags.
///
/// The flag register `F` is modelled by its four meaningful bits; its low
/// nibble therefore always reads as zero.
#[derive(Clone, Copy, Debug, PartialEq, Eq)]
pub struct AFReg {
    pub a: u8,
    pub z: bool,
    pub n: bool,
    pub h: bool,
    pub c: bool,
}

/// The byte that the four flags pack into: Z is bit 7, N bit 6, H bit 5, C bit 4.
pub open spec fn flags_byte(z: bool, n: bool, h: bool, c: bool) -> u8 {
    ((if z { 128int } else { 0 }) + (if n { 64int } else { 0 }) + (if h { 32int } else { 0 })
        + (if c { 16int } else { 0 })) as u8
}

pub open spec fn bit_of(v: u8, k: u8) -> bool {
    (v >> k) & 1 == 1
}

/// A 16-bit pair composed of a high and a low byte.
pub open spec fn pair(hi: u8, lo: u8) -> u16 {
    (hi as int * 256 + lo as int) as u16
}

pub open spec fn hi_byte(v: u16) -> u8 {
    (v as int / 256) as u8
}

pub open spec fn lo_byte(v: u16) -> u8 {
    (v as int % 256) as u8
}

impl AFReg {
    pub open spec fn f_spec(self) -> u8 {
        flags_byte(self.z, self.n, self.h, self.c)
    }

    pub open spec fn af_spec(self) -> u16 {
        pair(self.a, self.f_spec())
    }

    pub open spec fn from_u16_spec(v: u16) -> AFReg {
        AFReg {
            a: hi_byte(v),
            z: bit_of(lo_byte(v), 7),
            n: bit_of(lo_byte(v), 6),
            h: bit_of(lo_byte(v), 5),
            c: bit_of(lo_byte(v), 4),
        }
    }

    pub open spec fn new_spec() -> AFReg {
        AFReg { a: 0, z: false, n: false, h: false, c: false }
    }

    pub fn new() -> (r: AFReg)
        ensures
            r == AFReg::new_spec(),
    {
        AFReg { a: 0, z: false, n: false, h: false, c: false }
    }

    pub fn a(&self) -> (r: u8)
        ensures
            r == self.a,
    {
        self.a
    }

    pub fn set_a(&mut self, v: u8)
        ensures
            *final(self) == (AFReg { a: v, ..*old(self) }),
    {
        self.a = v;
    }

    pub fn z(&self) -> (r: bool)
        ensures
            r == self.z,
    {
        self.z
    }

    pub fn n(&self) -> (r: bool)
        ensures
            r == self.n,
    {
        self.n
    }

    pub fn h(&self) -> (r: bool)
        ensures
            r == self.h,
    {
        self.h
    }

    pub fn c(&self) -> (r: bool)
        ensures
            r == self.c,
    {
        self.c
    }

    pub fn set_z(&mut self, v: bool)
        ensures
            *final(self) == (AFReg { z: v, ..*old(self) }),
    {
        self.z = v;
    }

    pub fn set_n(&mut self, v: bool)
        ensures
            *final(self) == (AFReg { n: v, ..*old(self) }),
    {
        self.n = v;
    }

    pub fn set_h(&mut self, v: bool)
        ensures
            *final(self) == (AFReg { h: v, ..*old(self) }),
    {
        self.h = v;
    }

    pub fn set_c(&mut self, v: bool)
        ensures
            *final(self) == (AFReg { c: v, ..*old(self) }),
    {
        self.c = v;
    }

    /// The flag register as a byte; its low nibble is zero.
    pub fn f(&self) -> (r: u8)
        ensures
            r == self.f_spec(),
            r % 16 == 0,
    {
        let r: u8 = (if self.z { 128u8 } else { 0u8 }) + (if self.n { 64u8 } else { 0u8 }) + (
        if self.h { 32u8 } else { 0u8 }) + (if self.c { 16u8 } else { 0u8 });
        r
    }

    /// Loads the flags from a byte; its low nibble is dropped.
    pub fn set_f(&mut self, v: u8)
        ensures
            final(self).a == old(self).a,
            final(self).f_spec() == v - v % 16,
            final(self).z == bit_of(v, 7),
            final(self).n == bit_of(v, 6),
            final(self).h == bit_of(v, 5),
            final(self).c == bit_of(v, 4),
    {
        self.z = (v >> 7u8) & 1 == 1;
        self.n = (v >> 6u8) & 1 == 1;
        self.h = (v >> 5u8) & 1 == 1;
        self.c = (v >> 4u8) & 1 == 1;
        proof {
            lemma_flags_byte(v);
        }
    }

    pub fn reset_flags(&mut self)
        ensures
            *final(self) == (AFReg { a: old(self).a, z: false, n: false, h: false, c: false }),
    {
        self.z = false;
        self.n = false;
        self.h = false;
        self.c = false;
    }

    pub fn from_u16(v: u16) -> (r: AFReg)
        ensures
            r == AFReg::from_u16_spec(v),
            r.af_spec() == v - v % 16,
    {
        let mut r = AFReg { a: (v / 256) as u8, z: false, n: false, h: false, c: false };
        r.set_f((v % 256) as u8);
        r
    }

    pub fn to_u16(&self) -> (r: u16)
        ensures
            r == self.af_spec(),
    {
        self.a as u16 * 256 + self.f() as u16
    }
}

/// Packing the flags read back from a byte gives that byte without its low nibble.
pub proof fn lemma_flags_byte(v: u8)
    ensures
        flags_byte(bit_of(v, 7), bit_of(v, 6), bit_of(v, 5), bit_of(v, 4)) == v - v % 16,
{
    assert(flags_byte(bit_of(v, 7), bit_of(v, 6), bit_of(v, 5), bit_of(v, 4)) == v - v % 16)
        by (bit_vector);
}

} // verus!
