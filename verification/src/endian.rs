//! Byte order of the machine that runs the driver.
//!
//! The driver writes its records in native order, so both the order of the two
//! bit fields in the address/control byte and the order of the bytes of the
//! logical block address follow the target.  The order is a value here; a
//! program picks the one of its build target once and passes it on.

use vstd::prelude::*;

verus! {

/// The two byte orders a target can have.
#[derive(Clone, Copy, Debug, PartialEq, Eq, Structural)]
pub enum Endian {
    /// Least significant byte first; the first bit field sits in the low bits.
    Little,
    /// Most significant byte first; the first bit field sits in the high bits.
    Big,
}

/// The 32-bit pattern that stands for `x` in two's complement, as a number in
/// `0 .. 2^32`.
pub open spec fn word_of(x: i32) -> int {
    if x < 0 {
        x + 0x1_0000_0000
    } else {
        x as int
    }
}

/// The signed number that the 32-bit pattern `w` stands for.
pub open spec fn signed_of(w: int) -> int {
    if w >= 0x8000_0000 {
        w - 0x1_0000_0000
    } else {
        w
    }
}

/// The four base-256 digits of `w`, least significant first.
pub open spec fn digits_of(w: int) -> Seq<u8> {
    seq![
        (w % 256) as u8,
        (w / 0x100 % 256) as u8,
        (w / 0x1_0000 % 256) as u8,
        (w / 0x100_0000 % 256) as u8,
    ]
}

/// The number whose base-256 digits, least significant first, are `d`.
pub open spec fn value_of(d: Seq<u8>) -> int
    recommends
        d.len() == 4,
{
    d[0] + 0x100 * d[1] + 0x1_0000 * d[2] + 0x100_0000 * d[3]
}

/// `b` read back to front.
pub open spec fn swapped(b: Seq<u8>) -> Seq<u8>
    recommends
        b.len() == 4,
{
    seq![b[3], b[2], b[1], b[0]]
}

impl Endian {
    /// The four bytes that hold `x` in memory under this byte order.
    pub open spec fn spec_i32_bytes(self, x: i32) -> Seq<u8> {
        match self {
            Endian::Little => digits_of(word_of(x)),
            Endian::Big => swapped(digits_of(word_of(x))),
        }
    }

    /// The number that four bytes in memory hold under this byte order.
    pub open spec fn spec_i32_value(self, b: Seq<u8>) -> i32
        recommends
            b.len() == 4,
    {
        match self {
            Endian::Little => signed_of(value_of(b)) as i32,
            Endian::Big => signed_of(value_of(swapped(b))) as i32,
        }
    }

    /// Lays `x` out in memory under this byte order.
    pub fn i32_to_bytes(self, x: i32) -> (r: [u8; 4])
        ensures
            r@ == self.spec_i32_bytes(x),
    {
        let w: u32 = if x < 0 {
            ((x - i32::MIN) as u32) + 0x8000_0000
        } else {
            x as u32
        };
        let d0: u8 = (w % 256) as u8;
        let d1: u8 = (w / 0x100 % 256) as u8;
        let d2: u8 = (w / 0x1_0000 % 256) as u8;
        let d3: u8 = (w / 0x100_0000 % 256) as u8;
        match self {
            Endian::Little => [d0, d1, d2, d3],
            Endian::Big => [d3, d2, d1, d0],
        }
    }

    /// Reads the number that `b` holds under this byte order.
    pub fn i32_from_bytes(self, b: &[u8; 4]) -> (x: i32)
        ensures
            x == self.spec_i32_value(b@),
    {
        let (d0, d1, d2, d3) = match self {
            Endian::Little => (b[0], b[1], b[2], b[3]),
            Endian::Big => (b[3], b[2], b[1], b[0]),
        };
        let w: u32 = d0 as u32 + 0x100 * (d1 as u32) + 0x1_0000 * (d2 as u32)
            + 0x100_0000 * (d3 as u32);
        if w >= 0x8000_0000 {
            ((w - 0x8000_0000) as i32) + i32::MIN
        } else {
            w as i32
        }
    }
}

/// Every number comes back from its own bytes, under either byte order.
pub proof fn lemma_i32_roundtrip(endian: Endian, x: i32)
    ensures
        endian.spec_i32_bytes(x).len() == 4,
        endian.spec_i32_value(endian.spec_i32_bytes(x)) == x,
{
    let w = word_of(x);
    assert(0 <= w < 0x1_0000_0000);
    assert(value_of(digits_of(w)) == w);
}

} // verus!
