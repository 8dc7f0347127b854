//! The records exchanged with the driver, and their layout in memory.
//!
//! A record is held twice: as a value of a type of this module, on which the
//! rest of the library works, and as the bytes that the driver reads and
//! writes.  The bytes follow the C layout of the driver's structures: every
//! field at its natural alignment, the address union four bytes wide and
//! aligned like the integer it holds.

use crate::bitfield::AdrCtrl;
use crate::endian::{lemma_i32_roundtrip, Endian};
use vstd::prelude::*;

verus! {

/// Size in bytes of the header record.
pub const CDTH_SIZE: usize = 2;

/// Size in bytes of the entry record, padding included.
pub const CDTE_SIZE: usize = 12;

/// Offset of the track number in the entry record.
pub const CDTE_TRACK: usize = 0;

/// Offset of the address/control byte in the entry record.
pub const CDTE_ADR_CTRL: usize = 1;

/// Offset of the address format in the entry record.
pub const CDTE_FORMAT: usize = 2;

/// Offset of the address union in the entry record.
pub const CDTE_ADDR: usize = 4;

/// Size in bytes of the address union.
pub const CDTE_ADDR_SIZE: usize = 4;

/// Offset of the data mode in the entry record.
pub const CDTE_DATAMODE: usize = 8;

/// Header of the table of contents: the first and the last track of the disc.
#[derive(Clone, Copy, Debug, PartialEq, Eq, Structural)]
pub struct CdToc {
    /// Start track.
    pub cdth_trk0: u8,
    /// End track.
    pub cdth_trk1: u8,
}

/// How an entry addresses its track.
#[derive(Clone, Copy, Debug, PartialEq, Eq, Structural)]
pub enum LbaMsf {
    /// By logical block.
    Lba,
    /// By minute, second and frame.
    Msf,
}

/// A position on the disc in minutes, seconds and frames.
#[derive(Clone, Copy, Debug, PartialEq, Eq, Structural)]
pub struct CdromMsf0 {
    /// Minutes from the start of the disc.
    pub minute: u8,
    /// Seconds within the minute.
    pub second: u8,
    /// Frames within the second.
    pub frame: u8,
}

/// A position on the disc, in the one format the entry was read in.
#[derive(Clone, Copy, Debug, PartialEq, Eq, Structural)]
pub enum CdromAddr {
    /// A logical block address.
    Lba(i32),
    /// Minutes, seconds and frames.
    Msf(CdromMsf0),
}

/// One entry of the table of contents.
#[derive(Clone, Copy, Debug, PartialEq, Eq, Structural)]
pub struct CdTocEntry {
    /// The track the entry is about.
    pub cdte_track: u8,
    /// The packed address type and control flags.
    pub cdte_adr_ctrl: AdrCtrl,
    /// Where the track starts.  The address carries its format with it, so
    /// the entry has no format of its own that could disagree.
    pub cdte_addr: CdromAddr,
    /// The data mode of the track.
    pub cdte_datamode: u8,
}

impl Default for CdToc {
    fn default() -> (r: Self)
        ensures
            r == (CdToc { cdth_trk0: 0, cdth_trk1: 0 }),
    {
        CdToc { cdth_trk0: 0, cdth_trk1: 0 }
    }
}

impl CdToc {
    /// The bytes of the header record.
    pub open spec fn spec_bytes(self) -> Seq<u8> {
        seq![self.cdth_trk0, self.cdth_trk1]
    }

    /// The header that the bytes of a header record hold.
    pub open spec fn spec_parse(b: Seq<u8>) -> CdToc
        recommends
            b.len() == CDTH_SIZE,
    {
        CdToc { cdth_trk0: b[0], cdth_trk1: b[1] }
    }

    /// Lays the header out as the driver expects it.
    pub fn to_bytes(&self) -> (r: [u8; CDTH_SIZE])
        ensures
            r@ == self.spec_bytes(),
    {
        [self.cdth_trk0, self.cdth_trk1]
    }

    /// Reads the header that the driver wrote.
    pub fn from_bytes(b: &[u8; CDTH_SIZE]) -> (r: CdToc)
        ensures
            r == Self::spec_parse(b@),
    {
        CdToc { cdth_trk0: b[0], cdth_trk1: b[1] }
    }
}

impl Default for LbaMsf {
    fn default() -> (r: Self)
        ensures
            r == LbaMsf::Lba,
    {
        LbaMsf::Lba
    }
}

impl LbaMsf {
    /// The code that stands for the format in an entry record.
    pub open spec fn spec_code(self) -> u8 {
        match self {
            LbaMsf::Lba => 0x01,
            LbaMsf::Msf => 0x02,
        }
    }

    /// The format that a code stands for, if any.
    pub open spec fn spec_from_code(code: u8) -> Option<LbaMsf> {
        if code == 0x01 {
            Some(LbaMsf::Lba)
        } else if code == 0x02 {
            Some(LbaMsf::Msf)
        } else {
            None
        }
    }

    /// The code that stands for the format in an entry record.
    pub fn code(self) -> (c: u8)
        ensures
            c == self.spec_code(),
    {
        match self {
            LbaMsf::Lba => 0x01,
            LbaMsf::Msf => 0x02,
        }
    }

    /// The format that `code` stands for; `None` for a code that names none.
    pub fn from_code(code: u8) -> (r: Option<LbaMsf>)
        ensures
            r == Self::spec_from_code(code),
    {
        if code == 0x01 {
            Some(LbaMsf::Lba)
        } else if code == 0x02 {
            Some(LbaMsf::Msf)
        } else {
            None
        }
    }
}

impl Default for CdromAddr {
    fn default() -> (r: Self)
        ensures
            r == CdromAddr::Lba(0),
    {
        CdromAddr::Lba(0)
    }
}

impl CdromAddr {
    /// The format the address is held in.
    pub open spec fn spec_format(self) -> LbaMsf {
        match self {
            CdromAddr::Lba(_) => LbaMsf::Lba,
            CdromAddr::Msf(_) => LbaMsf::Msf,
        }
    }

    /// The address of format `format` whose bytes are all zero.
    pub open spec fn spec_zeroed(format: LbaMsf) -> CdromAddr {
        match format {
            LbaMsf::Lba => CdromAddr::Lba(0),
            LbaMsf::Msf => CdromAddr::Msf(CdromMsf0 { minute: 0, second: 0, frame: 0 }),
        }
    }

    /// The four bytes of the address union.
    pub open spec fn spec_bytes(self, endian: Endian) -> Seq<u8> {
        match self {
            CdromAddr::Lba(lba) => endian.spec_i32_bytes(lba),
            CdromAddr::Msf(msf) => seq![msf.minute, msf.second, msf.frame, 0u8],
        }
    }

    /// The address that the four bytes of the union hold when read in `format`.
    pub open spec fn spec_parse(format: LbaMsf, b: Seq<u8>, endian: Endian) -> CdromAddr
        recommends
            b.len() == CDTE_ADDR_SIZE,
    {
        match format {
            LbaMsf::Lba => CdromAddr::Lba(endian.spec_i32_value(b)),
            LbaMsf::Msf => CdromAddr::Msf(CdromMsf0 { minute: b[0], second: b[1], frame: b[2] }),
        }
    }

    /// The format the address is held in.
    pub fn format(&self) -> (f: LbaMsf)
        ensures
            f == self.spec_format(),
    {
        match self {
            CdromAddr::Lba(_) => LbaMsf::Lba,
            CdromAddr::Msf(_) => LbaMsf::Msf,
        }
    }

    /// The logical block address, if the address is held as one.
    pub fn lba(&self) -> (r: Option<i32>)
        ensures
            r == (match *self {
                CdromAddr::Lba(lba) => Some(lba),
                CdromAddr::Msf(_) => None,
            }),
    {
        match self {
            CdromAddr::Lba(lba) => Some(*lba),
            CdromAddr::Msf(_) => None,
        }
    }

    /// Minutes, seconds and frames, if the address is held as such.
    pub fn msf(&self) -> (r: Option<CdromMsf0>)
        ensures
            r == (match *self {
                CdromAddr::Lba(_) => None,
                CdromAddr::Msf(msf) => Some(msf),
            }),
    {
        match self {
            CdromAddr::Lba(_) => None,
            CdromAddr::Msf(msf) => Some(*msf),
        }
    }

    /// The address of format `format` whose bytes are all zero.
    pub fn zeroed(format: LbaMsf) -> (r: CdromAddr)
        ensures
            r == Self::spec_zeroed(format),
    {
        match format {
            LbaMsf::Lba => CdromAddr::Lba(0),
            LbaMsf::Msf => CdromAddr::Msf(CdromMsf0 { minute: 0, second: 0, frame: 0 }),
        }
    }

    /// Lays the address out as the four bytes of the union.
    pub fn to_bytes(&self, endian: Endian) -> (r: [u8; CDTE_ADDR_SIZE])
        ensures
            r@ == self.spec_bytes(endian),
    {
        match self {
            CdromAddr::Lba(lba) => endian.i32_to_bytes(*lba),
            CdromAddr::Msf(msf) => [msf.minute, msf.second, msf.frame, 0],
        }
    }

    /// Reads the member of the union that `format` selects, and no other.
    pub fn from_bytes(format: LbaMsf, b: &[u8; CDTE_ADDR_SIZE], endian: Endian) -> (r:
        CdromAddr)
        ensures
            r == Self::spec_parse(format, b@, endian),
            r.spec_format() == format,
    {
        match format {
            LbaMsf::Lba => CdromAddr::Lba(endian.i32_from_bytes(b)),
            LbaMsf::Msf => CdromAddr::Msf(CdromMsf0 { minute: b[0], second: b[1], frame: b[2] }),
        }
    }
}

impl Default for CdTocEntry {
    fn default() -> (r: Self)
        ensures
            r == (CdTocEntry {
                cdte_track: 0,
                cdte_adr_ctrl: AdrCtrl(0),
                cdte_addr: CdromAddr::Lba(0),
                cdte_datamode: 0,
            }),
    {
        CdTocEntry {
            cdte_track: 0,
            cdte_adr_ctrl: AdrCtrl(0),
            cdte_addr: CdromAddr::Lba(0),
            cdte_datamode: 0,
        }
    }
}

impl CdTocEntry {
    /// The format of the entry's address.
    pub open spec fn spec_format(self) -> LbaMsf {
        self.cdte_addr.spec_format()
    }

    /// The bytes of the entry record.  Padding bytes are zero.
    pub open spec fn spec_bytes(self, endian: Endian) -> Seq<u8> {
        let a = self.cdte_addr.spec_bytes(endian);
        seq![
            self.cdte_track,
            self.cdte_adr_ctrl.0,
            self.spec_format().spec_code(),
            0u8,
            a[0],
            a[1],
            a[2],
            a[3],
            self.cdte_datamode,
            0u8,
            0u8,
            0u8,
        ]
    }

    /// The entry that the bytes of an entry record hold: `None` where the
    /// format byte names no format, else the entry whose address is the member
    /// of the union that the format byte selects.
    pub open spec fn spec_parse(b: Seq<u8>, endian: Endian) -> Option<CdTocEntry>
        recommends
            b.len() == CDTE_SIZE,
    {
        match LbaMsf::spec_from_code(b[CDTE_FORMAT as int]) {
            None => None,
            Some(format) => Some(
                CdTocEntry {
                    cdte_track: b[CDTE_TRACK as int],
                    cdte_adr_ctrl: AdrCtrl(b[CDTE_ADR_CTRL as int]),
                    cdte_addr: CdromAddr::spec_parse(
                        format,
                        b.subrange(CDTE_ADDR as int, CDTE_ADDR + CDTE_ADDR_SIZE),
                        endian,
                    ),
                    cdte_datamode: b[CDTE_DATAMODE as int],
                },
            ),
        }
    }

    /// The format of the entry's address.
    pub fn cdte_format(&self) -> (f: LbaMsf)
        ensures
            f == self.spec_format(),
    {
        self.cdte_addr.format()
    }

    /// Lays the entry out as the driver expects it.
    pub fn to_bytes(&self, endian: Endian) -> (r: [u8; CDTE_SIZE])
        ensures
            r@ == self.spec_bytes(endian),
    {
        let a = self.cdte_addr.to_bytes(endian);
        [
            self.cdte_track,
            self.cdte_adr_ctrl.0,
            self.cdte_addr.format().code(),
            0,
            a[0],
            a[1],
            a[2],
            a[3],
            self.cdte_datamode,
            0,
            0,
            0,
        ]
    }

    /// Reads the entry that the driver wrote.  This is the one place that
    /// gives the bytes of the address union a meaning, and it does so by the
    /// format byte of the same record.
    pub fn from_bytes(b: &[u8; CDTE_SIZE], endian: Endian) -> (r: Option<CdTocEntry>)
        ensures
            r == Self::spec_parse(b@, endian),
            r is None <==> LbaMsf::spec_from_code(b@[CDTE_FORMAT as int]) is None,
            r matches Some(entry) ==> LbaMsf::spec_from_code(b@[CDTE_FORMAT as int]) == Some(
                entry.spec_format(),
            ),
    {
        match LbaMsf::from_code(b[CDTE_FORMAT]) {
            None => None,
            Some(format) => {
                let a: [u8; CDTE_ADDR_SIZE] = [
                    b[CDTE_ADDR],
                    b[CDTE_ADDR + 1],
                    b[CDTE_ADDR + 2],
                    b[CDTE_ADDR + 3],
                ];
                Some(
                    CdTocEntry {
                        cdte_track: b[CDTE_TRACK],
                        cdte_adr_ctrl: AdrCtrl(b[CDTE_ADR_CTRL]),
                        cdte_addr: CdromAddr::from_bytes(format, &a, endian),
                        cdte_datamode: b[CDTE_DATAMODE],
                    },
                )
            },
        }
    }
}

/// Every field of an entry sits at its offset in the record, the address
/// fills the union, and the bytes between the fields are zero.
pub proof fn lemma_entry_layout(entry: CdTocEntry, endian: Endian)
    ensures
        entry.spec_bytes(endian).len() == CDTE_SIZE,
        entry.spec_bytes(endian)[CDTE_TRACK as int] == entry.cdte_track,
        entry.spec_bytes(endian)[CDTE_ADR_CTRL as int] == entry.cdte_adr_ctrl.0,
        entry.spec_bytes(endian)[CDTE_FORMAT as int] == entry.spec_format().spec_code(),
        entry.spec_bytes(endian).subrange(CDTE_ADDR as int, CDTE_ADDR + CDTE_ADDR_SIZE)
            == entry.cdte_addr.spec_bytes(endian),
        entry.spec_bytes(endian)[CDTE_DATAMODE as int] == entry.cdte_datamode,
        forall|i: int|
            CDTE_FORMAT < i < CDTE_ADDR || CDTE_DATAMODE < i < CDTE_SIZE
                ==> #[trigger] entry.spec_bytes(endian)[i] == 0,
{
    lemma_addr_roundtrip(entry.cdte_addr, endian);
}

/// A header comes back from its own bytes.
pub proof fn lemma_header_roundtrip(header: CdToc)
    ensures
        header.spec_bytes().len() == CDTH_SIZE,
        CdToc::spec_parse(header.spec_bytes()) == header,
{
}

/// An address comes back from its own bytes when they are read in its own
/// format.
pub proof fn lemma_addr_roundtrip(addr: CdromAddr, endian: Endian)
    ensures
        addr.spec_bytes(endian).len() == CDTE_ADDR_SIZE,
        CdromAddr::spec_parse(addr.spec_format(), addr.spec_bytes(endian), endian) == addr,
{
    match addr {
        CdromAddr::Lba(lba) => {
            lemma_i32_roundtrip(endian, lba);
        },
        CdromAddr::Msf(_) => {},
    }
}

/// An entry comes back from its own bytes: the format byte that was written
/// selects the member of the union that was written.
pub proof fn lemma_entry_roundtrip(entry: CdTocEntry, endian: Endian)
    ensures
        entry.spec_bytes(endian).len() == CDTE_SIZE,
        CdTocEntry::spec_parse(entry.spec_bytes(endian), endian) == Some(entry),
{
    lemma_addr_roundtrip(entry.cdte_addr, endian);
}

} // verus!
