//! The walk over the tracks that a header announces.
//!
//! A walk hands out one entry request per track, from the first track of the
//! header to its last, and takes the outcome of each.  It never goes back, and
//! the first failure ends it.

use crate::endian::Endian;
use crate::gateway::{entry_request, read_entry, spec_entry_request, spec_read_entry};
use crate::gateway::{Completion, ControlRequest, IoCtlRequest, TocError};
use crate::layout::{CdToc, CdTocEntry, LbaMsf, CDTE_SIZE};
use vstd::prelude::*;

verus! {

/// The track numbers from `first` to `last`, both included, in ascending
/// order; none where `first` lies above `last`.
pub open spec fn track_range(first: int, last: int) -> Seq<u8> {
    Seq::new(
        (if first <= last {
            last - first + 1
        } else {
            0
        }) as nat,
        |i: int| (first + i) as u8,
    )
}

/// A walk in progress.
pub struct TocWalker {
    next: u16,
    last: u8,
    endian: Endian,
}

impl TocWalker {
    /// The tracks the walk has still to ask for, in the order it will ask.
    pub closed spec fn pending(&self) -> Seq<u8> {
        track_range(self.next as int, self.last as int)
    }

    /// The byte order the walk reads entries in.
    pub closed spec fn endian(&self) -> Endian {
        self.endian
    }

    /// The number of tracks the walk has still to ask for.
    pub fn remaining(&self) -> (n: usize)
        ensures
            n == self.pending().len(),
    {
        if self.next > self.last as u16 {
            0
        } else {
            (self.last as u16 - self.next) as usize + 1
        }
    }

    /// The request for the next track, in logical block format, or `None`
    /// once every track has been asked for or a request has failed.
    pub fn next_request(&mut self) -> (r: Option<ControlRequest<CDTE_SIZE>>)
        ensures
            final(self).endian() == old(self).endian(),
            r is None <==> old(self).pending().len() == 0,
            r is None ==> final(self).pending() == old(self).pending(),
            r matches Some(request) ==> {
                &&& request.request == IoCtlRequest::CdromReadTocEntry
                &&& request.record@ == spec_entry_request(old(self).pending()[0], LbaMsf::Lba)
                &&& final(self).pending() == old(self).pending().skip(1)
            },
    {
        if self.next > self.last as u16 {
            None
        } else {
            let track = self.next as u8;
            self.next = self.next + 1;
            Some(entry_request(track, LbaMsf::Lba))
        }
    }

    /// Takes the outcome of the request handed out last.  A failure ends the
    /// walk: no track is asked for after it.
    pub fn read_entry(&mut self, completion: Completion, bytes: &[u8; CDTE_SIZE]) -> (r:
        Result<CdTocEntry, TocError>)
        ensures
            r == spec_read_entry(completion, bytes@, old(self).endian()),
            final(self).endian() == old(self).endian(),
            r is Ok ==> final(self).pending() == old(self).pending(),
            r is Err ==> final(self).pending() == Seq::<u8>::empty(),
            completion.result < 0 ==> r is Err,
    {
        let r = read_entry(completion, bytes, self.endian);
        if r.is_err() {
            self.next = 0x100;
        }
        r
    }
}

/// Starts the walk over the tracks of `header`, reading entries in byte order
/// `endian`.  Nothing is asked of the device before the first call of
/// [`TocWalker::next_request`].
pub fn read_all_entries(header: &CdToc, endian: Endian) -> (walker: TocWalker)
    ensures
        walker.endian() == endian,
        walker.pending() == track_range(header.cdth_trk0 as int, header.cdth_trk1 as int),
        header.cdth_trk0 > header.cdth_trk1 ==> walker.pending() == Seq::<u8>::empty(),
        header.cdth_trk0 == header.cdth_trk1 ==> walker.pending() == seq![header.cdth_trk0],
{
    proof {
        if header.cdth_trk0 > header.cdth_trk1 {
            lemma_reversed_bounds_hold_no_track(header.cdth_trk0, header.cdth_trk1);
        }
        lemma_equal_bounds_hold_one_track(header.cdth_trk0);
    }
    TocWalker { next: header.cdth_trk0 as u16, last: header.cdth_trk1, endian }
}

/// A header whose first track lies above its last announces no track: the
/// walk over it asks for nothing.
pub proof fn lemma_reversed_bounds_hold_no_track(first: u8, last: u8)
    requires
        first > last,
    ensures
        track_range(first as int, last as int) == Seq::<u8>::empty(),
{
}

/// A header whose first track is its last announces that one track: the walk
/// over it asks for it once.
pub proof fn lemma_equal_bounds_hold_one_track(track: u8)
    ensures
        track_range(track as int, track as int) == seq![track],
{
}

/// A walk asks for every track from the first to the last once, in ascending
/// order: the request number `i` is for track `first + i`.
pub proof fn lemma_tracks_ascend(first: u8, last: u8)
    requires
        first <= last,
    ensures
        track_range(first as int, last as int).len() == last - first + 1,
        track_range(first as int, last as int).first() == first,
        track_range(first as int, last as int).last() == last,
        forall|i: int|
            0 <= i <= last - first ==> #[trigger] track_range(first as int, last as int)[i]
                == first + i,
{
}

} // verus!
