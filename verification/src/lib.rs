//! Reading the table of contents of an optical disc through the CD-ROM
//! device-control interface.
//!
//! The library holds everything that can be decided without touching the
//! device: the byte layout of the records exchanged with the driver, the
//! decoding of the packed address/control byte, the mapping of a completion
//! code to success or failure, and the walk over the tracks that a header
//! announces.  The caller opens the device, issues each control request on the
//! bytes the library hands out, and gives the outcome back.

pub mod bitfield;
pub mod endian;
pub mod layout;
pub mod render;
pub mod gateway;
pub mod walker;
