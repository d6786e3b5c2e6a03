//! The register file: eight 8-bit registers with the four status flags packed
//! into F's upper nibble, and the big-endian pairings AF/BC/DE/HL.

use vstd::prelude::*;

verus! {

/// The four status flags held in register F: Z (zero), N (subtract),
/// H (half-carry) and C (carry).  F's low nibble is hardwired to zero,
/// which this representation makes impossible to violate.
#[derive(Clone, Copy, PartialEq, Eq, Structural, Debug)]
pub struct FlagsRegister {
    pub zero: bool,
    pub subtract: bool,
    pub half_carry: bool,
    pub carry: bool,
}

/// F read as a byte: Z in bit 7, N in bit 6, H in bit 5, C in bit 4,
/// low nibble always zero.
pub open spec fn spec_flags_to_byte(f: FlagsRegister) -> u8 {
    ((if f.zero {
        0x80u8
    } else {
        0u8
    }) + (if f.subtract {
        0x40u8
    } else {
        0u8
    }) + (if f.half_carry {
        0x20u8
    } else {
        0u8
    }) + (if f.carry {
        0x10u8
    } else {
        0u8
    })) as u8
}

/// The flags a byte denotes; the low nibble of the byte is discarded,
/// as it is on any write to F.
pub open spec fn spec_flags_from_byte(b: u8) -> FlagsRegister {
    FlagsRegister {
        zero: b & 0x80 != 0,
        subtract: b & 0x40 != 0,
        half_carry: b & 0x20 != 0,
        carry: b & 0x10 != 0,
    }
}

/// Reading F after any write to it sees the written byte with the low
/// nibble cleared.
pub broadcast proof fn lemma_flags_byte_roundtrip(b: u8)
    ensures
        #[trigger] spec_flags_to_byte(spec_flags_from_byte(b)) == b & 0xF0,
{
    assert((if b & 0x80 != 0 {
        0x80u8
    } else {
        0u8
    }) + (if b & 0x40 != 0 {
        0x40u8
    } else {
        0u8
    }) + (if b & 0x20 != 0 {
        0x20u8
    } else {
        0u8
    }) + (if b & 0x10 != 0 {
        0x10u8
    } else {
        0u8
    }) == b & 0xF0) by (bit_vector);
}

/// A byte made of four flag bits decodes back to those flags.
pub broadcast proof fn lemma_flags_to_byte_roundtrip(f: FlagsRegister)
    ensures
        #[trigger] spec_flags_from_byte(spec_flags_to_byte(f)) == f,
{
    let z = f.zero;
    let n = f.subtract;
    let h = f.half_carry;
    let c = f.carry;
    let b = spec_flags_to_byte(f);
    assert({
        let v = ((if z {
            0x80u8
        } else {
            0u8
        }) + (if n {
            0x40u8
        } else {
            0u8
        }) + (if h {
            0x20u8
        } else {
            0u8
        }) + (if c {
            0x10u8
        } else {
            0u8
        })) as u8;
        (v & 0x80 != 0) == z && (v & 0x40 != 0) == n && (v & 0x20 != 0) == h && (v & 0x10 != 0)
            == c
    }) by (bit_vector);
}

impl core::convert::From<FlagsRegister> for u8 {
    /// Packs the flags into F's byte encoding.
    fn from(flag: FlagsRegister) -> (r: u8) {
        (if flag.zero {
            0x80u8
        } else {
            0u8
        }) + (if flag.subtract {
            0x40u8
        } else {
            0u8
        }) + (if flag.half_carry {
            0x20u8
        } else {
            0u8
        }) + (if flag.carry {
            0x10u8
        } else {
            0u8
        })
    }
}

impl vstd::std_specs::convert::FromSpecImpl<FlagsRegister> for u8 {
    open spec fn obeys_from_spec() -> bool {
        true
    }

    open spec fn from_spec(v: FlagsRegister) -> u8 {
        spec_flags_to_byte(v)
    }
}

impl core::convert::From<u8> for FlagsRegister {
    /// Unpacks F's byte encoding; the low nibble is ignored.
    fn from(byte: u8) -> (r: FlagsRegister) {
        FlagsRegister {
            zero: byte & 0x80 != 0,
            subtract: byte & 0x40 != 0,
            half_carry: byte & 0x20 != 0,
            carry: byte & 0x10 != 0,
        }
    }
}

impl vstd::std_specs::convert::FromSpecImpl<u8> for FlagsRegister {
    open spec fn obeys_from_spec() -> bool {
        true
    }

    open spec fn from_spec(v: u8) -> FlagsRegister {
        spec_flags_from_byte(v)
    }
}

/// The eight general registers.  A is the accumulator; F holds the flags.
#[derive(Clone, Copy, PartialEq, Eq, Structural, Debug)]
pub struct Registers {
    pub a: u8,
    pub b: u8,
    pub c: u8,
    pub d: u8,
    pub e: u8,
    pub f: FlagsRegister,
    pub h: u8,
    pub l: u8,
}

/// Two bytes paired big-endian into a 16-bit value.
pub open spec fn spec_pair(hi: u8, lo: u8) -> u16 {
    (hi * 256 + lo) as u16
}

/// High byte of a 16-bit value.
pub open spec fn spec_hi(v: u16) -> u8 {
    (v / 256) as u8
}

/// Low byte of a 16-bit value.
pub open spec fn spec_lo(v: u16) -> u8 {
    (v % 256) as u8
}

impl Registers {
    /// All registers cleared, as on a cold boot.
    pub fn new() -> (r: Registers)
        ensures
            r == (Registers {
                a: 0u8,
                b: 0u8,
                c: 0u8,
                d: 0u8,
                e: 0u8,
                f: FlagsRegister { zero: false, subtract: false, half_carry: false, carry: false },
                h: 0u8,
                l: 0u8,
            }),
    {
        Registers {
            a: 0,
            b: 0,
            c: 0,
            d: 0,
            e: 0,
            f: FlagsRegister { zero: false, subtract: false, half_carry: false, carry: false },
            h: 0,
            l: 0,
        }
    }

    /// The register values the bootstrap ROM leaves behind before handing
    /// control to the cartridge: AF=0x01B0, BC=0x0013, DE=0x00D8, HL=0x014D.
    pub fn new_post_boot() -> (r: Registers)
        ensures
            r == (Registers {
                a: 0x01u8,
                b: 0x00u8,
                c: 0x13u8,
                d: 0x00u8,
                e: 0xD8u8,
                f: FlagsRegister { zero: true, subtract: false, half_carry: true, carry: true },
                h: 0x01u8,
                l: 0x4Du8,
            }),
    {
        Registers {
            a: 0x01,
            b: 0x00,
            c: 0x13,
            d: 0x00,
            e: 0xD8,
            f: FlagsRegister { zero: true, subtract: false, half_carry: true, carry: true },
            h: 0x01,
            l: 0x4D,
        }
    }

    pub fn get_af(&self) -> (r: u16)
        ensures
            r == spec_pair(self.a, spec_flags_to_byte(self.f)),
    {
        (self.a as u16) * 256 + (u8::from(self.f) as u16)
    }

    pub fn set_af(&mut self, value: u16)
        ensures
            final(self).a == spec_hi(value),
            final(self).f == spec_flags_from_byte(spec_lo(value)),
            final(self).b == old(self).b,
            final(self).c == old(self).c,
            final(self).d == old(self).d,
            final(self).e == old(self).e,
            final(self).h == old(self).h,
            final(self).l == old(self).l,
    {
        self.a = (value / 256) as u8;
        self.f = FlagsRegister::from((value % 256) as u8);
    }

    pub fn get_bc(&self) -> (r: u16)
        ensures
            r == spec_pair(self.b, self.c),
    {
        (self.b as u16) * 256 + (self.c as u16)
    }

    pub fn set_bc(&mut self, value: u16)
        ensures
            *final(self) == (Registers { b: spec_hi(value), c: spec_lo(value), ..*old(self) }),
    {
        self.b = (value / 256) as u8;
        self.c = (value % 256) as u8;
    }

    pub fn get_de(&self) -> (r: u16)
        ensures
            r == spec_pair(self.d, self.e),
    {
        (self.d as u16) * 256 + (self.e as u16)
    }

    pub fn set_de(&mut self, value: u16)
        ensures
            *final(self) == (Registers { d: spec_hi(value), e: spec_lo(value), ..*old(self) }),
    {
        self.d = (value / 256) as u8;
        self.e = (value % 256) as u8;
    }

    pub fn get_hl(&self) -> (r: u16)
        ensures
            r == spec_pair(self.h, self.l),
    {
        (self.h as u16) * 256 + (self.l as u16)
    }

    pub fn set_hl(&mut self, value: u16)
        ensures
            *final(self) == (Registers { h: spec_hi(value), l: spec_lo(value), ..*old(self) }),
    {
        self.h = (value / 256) as u8;
        self.l = (value % 256) as u8;
    }
}

/// Splitting a 16-bit value into bytes and pairing them again is the identity.
pub broadcast proof fn lemma_pair_split(v: u16)
    ensures
        #[trigger] spec_pair(spec_hi(v), spec_lo(v)) == v,
{
}

/// Pairing two bytes and splitting again gives the bytes back.
pub broadcast proof fn lemma_split_pair(hi: u8, lo: u8)
    ensures
        spec_hi(#[trigger] spec_pair(hi, lo)) == hi,
        spec_lo(spec_pair(hi, lo)) == lo,
{
}

} // verus!
