//! What is handed to whoever prints a record: its name and its fields, each
//! with the name and the decoded value it is shown under.

use crate::bitfield::AdrCtrl;
use crate::endian::Endian;
use crate::layout::{CdToc, CdTocEntry, CdromAddr, LbaMsf};
use vstd::prelude::*;

verus! {

/// The value of one field of a record.
#[derive(Clone, Copy, Debug, PartialEq, Eq, Structural)]
pub enum FieldValue {
    /// A plain number.
    Byte(u8),
    /// An address format.
    Format(LbaMsf),
    /// An address, together with the format it is held in.
    Addr(CdromAddr),
}

/// One field of a record.
#[derive(Clone, Copy, Debug, PartialEq, Eq)]
pub struct DebugField {
    /// The name the field is shown under.
    pub name: &'static str,
    /// The decoded value.
    pub value: FieldValue,
}

/// A record to print: a name, and the fields in the order they are shown.
#[derive(Debug, PartialEq, Eq)]
pub struct DebugRecord {
    /// The name of the record.
    pub name: &'static str,
    /// The fields, first shown first.
    pub fields: Vec<DebugField>,
}

impl DebugRecord {
    /// A record of the given name with no field yet.
    pub fn new(name: &'static str) -> (r: DebugRecord)
        ensures
            r.name == name,
            r.fields@ == Seq::<DebugField>::empty(),
    {
        DebugRecord { name, fields: Vec::new() }
    }

    /// Adds a field behind those the record has.
    pub fn field(&mut self, name: &'static str, value: FieldValue)
        ensures
            final(self).name == old(self).name,
            final(self).fields@ == old(self).fields@.push(DebugField { name, value }),
    {
        self.fields.push(DebugField { name, value });
    }
}

impl CdToc {
    /// The fields of a header, in the order they are shown.
    pub open spec fn spec_debug_fields(self) -> Seq<DebugField> {
        seq![
            DebugField { name: "cdth_trk0", value: FieldValue::Byte(self.cdth_trk0) },
            DebugField { name: "cdth_trk1", value: FieldValue::Byte(self.cdth_trk1) },
        ]
    }

    /// The header as a record to print.
    pub fn debug_record(&self) -> (r: DebugRecord)
        ensures
            r.name == "CdToc",
            r.fields@ == self.spec_debug_fields(),
    {
        let mut r = DebugRecord::new("CdToc");
        r.field("cdth_trk0", FieldValue::Byte(self.cdth_trk0));
        r.field("cdth_trk1", FieldValue::Byte(self.cdth_trk1));
        r
    }
}

impl CdTocEntry {
    /// The fields of an entry, in the order they are shown.  The two halves of
    /// the address/control byte stand in place of the byte, and the address is
    /// shown in the format the entry holds it in.
    pub open spec fn spec_debug_fields(self, endian: Endian) -> Seq<DebugField> {
        seq![DebugField { name: "cdte_track", value: FieldValue::Byte(self.cdte_track) }]
            + self.cdte_adr_ctrl.spec_debug_fields(endian) + seq![
            DebugField { name: "cdte_format", value: FieldValue::Format(self.spec_format()) },
            DebugField { name: "cdte_addr", value: FieldValue::Addr(self.cdte_addr) },
            DebugField { name: "cdte_datamode", value: FieldValue::Byte(self.cdte_datamode) },
        ]
    }

    /// The entry as a record to print.
    pub fn debug_record(&self, endian: Endian) -> (r: DebugRecord)
        ensures
            r.name == "CdTocEntry",
            r.fields@ == self.spec_debug_fields(endian),
    {
        let mut r = DebugRecord::new("CdTocEntry");
        r.field("cdte_track", FieldValue::Byte(self.cdte_track));
        self.cdte_adr_ctrl.debug_fields(endian, &mut r);
        r.field("cdte_format", FieldValue::Format(self.cdte_format()));
        r.field("cdte_addr", FieldValue::Addr(self.cdte_addr));
        r.field("cdte_datamode", FieldValue::Byte(self.cdte_datamode));
        r
    }
}

} // verus!
