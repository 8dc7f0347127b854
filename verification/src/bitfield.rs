//! The packed address/control byte of a table-of-contents entry.
//!
//! The byte holds two 4-bit fields, the address type and the control flags.
//! The driver declares the address type first, and the compiler that built the
//! driver puts the first field in the low bits on a little-endian target and in
//! the high bits on a big-endian one.

use crate::endian::Endian;
use crate::render::{DebugField, DebugRecord, FieldValue};
use vstd::prelude::*;

verus! {

/// The low four bits of `b`.
pub open spec fn low_nibble(b: u8) -> u8 {
    b & 0x0F
}

/// The high four bits of `b`, moved down.
pub open spec fn high_nibble(b: u8) -> u8 {
    b >> 4
}

/// The address type that `b` carries on a target of byte order `endian`.
pub open spec fn adr_of(b: u8, endian: Endian) -> u8 {
    match endian {
        Endian::Little => low_nibble(b),
        Endian::Big => high_nibble(b),
    }
}

/// The control flags that `b` carries on a target of byte order `endian`.
pub open spec fn ctrl_of(b: u8, endian: Endian) -> u8 {
    match endian {
        Endian::Little => high_nibble(b),
        Endian::Big => low_nibble(b),
    }
}

/// The address/control byte as the driver wrote it.
#[derive(Clone, Copy, Debug, PartialEq, Eq, Structural)]
pub struct AdrCtrl(pub u8);

impl AdrCtrl {
    /// The address type, `0 ..= 15`.
    pub fn adr(&self, endian: Endian) -> (r: u8)
        ensures
            r == adr_of(self.0, endian),
            r <= 15,
    {
        proof {
            lemma_nibbles(self.0);
        }
        match endian {
            Endian::Big => self.0 >> 4,
            Endian::Little => self.0 & 0b1111,
        }
    }

    /// The control flags, `0 ..= 15`.
    pub fn ctrl(&self, endian: Endian) -> (r: u8)
        ensures
            r == ctrl_of(self.0, endian),
            r <= 15,
    {
        proof {
            lemma_nibbles(self.0);
        }
        match endian {
            Endian::Big => self.0 & 0b1111,
            Endian::Little => self.0 >> 4,
        }
    }

    /// Both fields at once: the address type, then the control flags.
    pub fn decode(&self, endian: Endian) -> (r: (u8, u8))
        ensures
            r == (adr_of(self.0, endian), ctrl_of(self.0, endian)),
            r.0 <= 15,
            r.1 <= 15,
    {
        (self.adr(endian), self.ctrl(endian))
    }

    /// The two fields the byte is shown as, in the order they are shown.
    pub open spec fn spec_debug_fields(self, endian: Endian) -> Seq<DebugField> {
        seq![
            DebugField { name: "cdte_adr", value: FieldValue::Byte(adr_of(self.0, endian)) },
            DebugField { name: "cdte_ctrl", value: FieldValue::Byte(ctrl_of(self.0, endian)) },
        ]
    }

    /// Adds the two decoded fields to a record, behind the fields it has.
    pub fn debug_fields(&self, endian: Endian, s: &mut DebugRecord)
        ensures
            final(s).name == old(s).name,
            final(s).fields@ == old(s).fields@ + self.spec_debug_fields(endian),
    {
        let adr = self.adr(endian);
        let ctrl = self.ctrl(endian);
        s.field("cdte_adr", FieldValue::Byte(adr));
        s.field("cdte_ctrl", FieldValue::Byte(ctrl));
    }

    /// The byte alone as a record to print.
    pub fn debug_record(&self, endian: Endian) -> (r: DebugRecord)
        ensures
            r.name == "AdrCtrl",
            r.fields@ == self.spec_debug_fields(endian),
    {
        let mut r = DebugRecord::new("AdrCtrl");
        self.debug_fields(endian, &mut r);
        r
    }
}

impl Default for AdrCtrl {
    fn default() -> (r: Self)
        ensures
            r == AdrCtrl(0),
    {
        AdrCtrl(0)
    }
}

/// The two nibbles are the base-16 digits of the byte.
pub proof fn lemma_nibbles(b: u8)
    ensures
        low_nibble(b) == b % 16,
        high_nibble(b) == b / 16,
        low_nibble(b) <= 15,
        high_nibble(b) <= 15,
        b == 16 * high_nibble(b) + low_nibble(b),
{
    assert(b & 0x0F == b % 16) by (bit_vector);
    assert(b >> 4 == b / 16) by (bit_vector);
}

/// What one byte order reads as the address type the other reads as the
/// control flags, and the other way round.
pub proof fn lemma_orders_swap(b: u8)
    ensures
        adr_of(b, Endian::Little) == ctrl_of(b, Endian::Big),
        ctrl_of(b, Endian::Little) == adr_of(b, Endian::Big),
{
}

/// The two byte orders read the same pair of fields from a byte exactly when
/// its two nibbles are equal.
pub proof fn lemma_orders_agree(b: u8)
    ensures
        (adr_of(b, Endian::Little) == adr_of(b, Endian::Big) && ctrl_of(b, Endian::Little)
            == ctrl_of(b, Endian::Big)) <==> low_nibble(b) == high_nibble(b),
{
}

} // verus!
