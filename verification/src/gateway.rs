//! The two control requests, and what their outcome means.
//!
//! The device is not touched here.  For each request this module says which
//! code to issue and which bytes to hand to the driver, and, once the caller
//! has issued it, turns the completion code and the bytes that came back into
//! a record or an error.

use crate::bitfield::AdrCtrl;
use crate::endian::Endian;
use crate::layout::{lemma_entry_roundtrip, CdToc, CdTocEntry, CdromAddr, LbaMsf};
use crate::layout::{CDTE_FORMAT, CDTE_SIZE, CDTH_SIZE};
use vstd::prelude::*;

verus! {

/// The control requests the library has the caller issue.
#[derive(Clone, Copy, Debug, PartialEq, Eq, Structural)]
pub enum IoCtlRequest {
    /// Read the header of the table of contents.
    CdromReadTocHdr,
    /// Read the entry of one track.
    CdromReadTocEntry,
}

impl IoCtlRequest {
    /// The number the operating system knows the request by.
    pub open spec fn spec_code(self) -> u32 {
        match self {
            IoCtlRequest::CdromReadTocHdr => 0x5305,
            IoCtlRequest::CdromReadTocEntry => 0x5306,
        }
    }

    /// The number of bytes the driver reads and writes for the request.
    pub open spec fn spec_record_size(self) -> usize {
        match self {
            IoCtlRequest::CdromReadTocHdr => CDTH_SIZE,
            IoCtlRequest::CdromReadTocEntry => CDTE_SIZE,
        }
    }

    /// The number the operating system knows the request by.
    pub fn code(self) -> (c: u32)
        ensures
            c == self.spec_code(),
    {
        match self {
            IoCtlRequest::CdromReadTocHdr => 0x5305,
            IoCtlRequest::CdromReadTocEntry => 0x5306,
        }
    }

    /// The number of bytes the driver reads and writes for the request: the
    /// buffer handed to it must be that long.
    pub fn record_size(self) -> (n: usize)
        ensures
            n == self.spec_record_size(),
    {
        match self {
            IoCtlRequest::CdromReadTocHdr => CDTH_SIZE,
            IoCtlRequest::CdromReadTocEntry => CDTE_SIZE,
        }
    }
}

/// A control request ready to be issued.
#[derive(Clone, Copy, Debug, PartialEq, Eq)]
pub struct ControlRequest<const N: usize> {
    /// Which request to issue.
    pub request: IoCtlRequest,
    /// The record to issue it on.  The driver reads it and writes its answer
    /// over it.
    pub record: [u8; N],
}

/// What the caller saw when a control request returned.
#[derive(Debug, PartialEq, Eq)]
pub struct Completion {
    /// The value the request returned.
    pub result: i32,
    /// The error number that was set when the request returned.  It is looked
    /// at only where `result` is negative.
    pub errno: i32,
    /// The platform's description of `errno`.
    pub message: String,
}

/// Why the table of contents could not be read.
#[derive(Debug, PartialEq, Eq)]
pub enum TocError {
    /// The device could not be opened.
    DeviceOpenError,
    /// The driver answered a control request with a negative result.
    ControlRequestError { errno: i32, message: String },
    /// The driver handed back an entry whose format byte names no format.
    UnknownFormat { code: u8 },
}

/// The meaning of a completion: a negative result is a failure, described by
/// the error number and its message; any other result is a success.
pub open spec fn spec_check_errno(completion: Completion) -> Result<(), TocError> {
    if completion.result < 0 {
        Err(TocError::ControlRequestError { errno: completion.errno, message: completion.message })
    } else {
        Ok(())
    }
}

/// What a header request yields: the failure of the request, else the header
/// that the bytes hold.
pub open spec fn spec_read_header(completion: Completion, bytes: Seq<u8>) -> Result<
    CdToc,
    TocError,
> {
    match spec_check_errno(completion) {
        Err(e) => Err(e),
        Ok(_) => Ok(CdToc::spec_parse(bytes)),
    }
}

/// What an entry request yields: the failure of the request, else the entry
/// that the bytes hold, else the format byte that names no format.
pub open spec fn spec_read_entry(completion: Completion, bytes: Seq<u8>, endian: Endian) -> Result<
    CdTocEntry,
    TocError,
> {
    match spec_check_errno(completion) {
        Err(e) => Err(e),
        Ok(_) => match CdTocEntry::spec_parse(bytes, endian) {
            Some(entry) => Ok(entry),
            None => Err(TocError::UnknownFormat { code: bytes[CDTE_FORMAT as int] }),
        },
    }
}

/// The entry that asks for `track` in `format`: track and format set, every
/// other field zero.
pub open spec fn spec_entry_query(track: u8, format: LbaMsf) -> CdTocEntry {
    CdTocEntry {
        cdte_track: track,
        cdte_adr_ctrl: AdrCtrl(0),
        cdte_addr: CdromAddr::spec_zeroed(format),
        cdte_datamode: 0,
    }
}

/// The bytes of the record that asks for `track` in `format`: the track, the
/// code of the format, and zero everywhere else.
pub open spec fn spec_entry_request(track: u8, format: LbaMsf) -> Seq<u8> {
    seq![track, 0u8, format.spec_code(), 0u8, 0u8, 0u8, 0u8, 0u8, 0u8, 0u8, 0u8, 0u8]
}

/// Tells a failed control request from one that succeeded.
pub fn check_errno(completion: Completion) -> (r: Result<(), TocError>)
    ensures
        r == spec_check_errno(completion),
        r is Err <==> completion.result < 0,
{
    if completion.result < 0 {
        Err(TocError::ControlRequestError { errno: completion.errno, message: completion.message })
    } else {
        Ok(())
    }
}

/// The request for the header: the record is a zeroed header.
pub fn header_request() -> (r: ControlRequest<CDTH_SIZE>)
    ensures
        r.request == IoCtlRequest::CdromReadTocHdr,
        r.record@ == seq![0u8, 0u8],
{
    ControlRequest { request: IoCtlRequest::CdromReadTocHdr, record: CdToc::default().to_bytes() }
}

/// The outcome of a header request: `completion` is what the request
/// returned, `bytes` what the driver left in the record.
pub fn read_header(completion: Completion, bytes: &[u8; CDTH_SIZE]) -> (r: Result<
    CdToc,
    TocError,
>)
    ensures
        r == spec_read_header(completion, bytes@),
        r is Err <==> completion.result < 0,
{
    match check_errno(completion) {
        Err(e) => Err(e),
        Ok(_) => Ok(CdToc::from_bytes(bytes)),
    }
}

/// The request for the entry of `track` in `format`: the record is an entry
/// with the track and the format set and every other field zero.
pub fn entry_request(track: u8, format: LbaMsf) -> (r: ControlRequest<CDTE_SIZE>)
    ensures
        r.request == IoCtlRequest::CdromReadTocEntry,
        r.record@ == spec_entry_request(track, format),
{
    let query = CdTocEntry {
        cdte_track: track,
        cdte_adr_ctrl: AdrCtrl(0),
        cdte_addr: CdromAddr::zeroed(format),
        cdte_datamode: 0,
    };
    proof {
        lemma_entry_request_bytes(track, format, Endian::Little);
    }
    ControlRequest {
        request: IoCtlRequest::CdromReadTocEntry,
        record: query.to_bytes(Endian::Little),
    }
}

/// The outcome of an entry request: `completion` is what the request
/// returned, `bytes` what the driver left in the record.
pub fn read_entry(
    completion: Completion,
    bytes: &[u8; CDTE_SIZE],
    endian: Endian,
) -> (r: Result<CdTocEntry, TocError>)
    ensures
        r == spec_read_entry(completion, bytes@, endian),
        r matches Err(TocError::ControlRequestError { .. }) <==> completion.result < 0,
        r matches Err(TocError::UnknownFormat { .. }) <==> completion.result >= 0
            && LbaMsf::spec_from_code(bytes@[CDTE_FORMAT as int]) is None,
        r is Ok <==> completion.result >= 0 && LbaMsf::spec_from_code(
            bytes@[CDTE_FORMAT as int],
        ) is Some,
{
    match check_errno(completion) {
        Err(e) => Err(e),
        Ok(_) => match CdTocEntry::from_bytes(bytes, endian) {
            Some(entry) => Ok(entry),
            None => Err(TocError::UnknownFormat { code: bytes[CDTE_FORMAT] }),
        },
    }
}

/// The record of an entry request is the entry that asks for the track, laid
/// out in either byte order: a zeroed address reads the same in both.
pub proof fn lemma_entry_request_bytes(track: u8, format: LbaMsf, endian: Endian)
    ensures
        spec_entry_query(track, format).spec_bytes(endian) == spec_entry_request(track, format),
        CdTocEntry::spec_parse(spec_entry_request(track, format), endian) == Some(
            spec_entry_query(track, format),
        ),
{
    lemma_entry_roundtrip(spec_entry_query(track, format), endian);
}

/// A negative result is an error of the request and nothing else, whatever
/// the bytes in the buffer.
pub proof fn lemma_negative_result_fails(completion: Completion, bytes: Seq<u8>, endian: Endian)
    requires
        completion.result < 0,
    ensures
        spec_read_header(completion, bytes) == Err::<CdToc, TocError>(
            TocError::ControlRequestError { errno: completion.errno, message: completion.message },
        ),
        spec_read_entry(completion, bytes, endian) == Err::<CdTocEntry, TocError>(
            TocError::ControlRequestError { errno: completion.errno, message: completion.message },
        ),
{
}

} // verus!
