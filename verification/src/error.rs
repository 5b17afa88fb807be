//! The error taxonomy of the syscall core.  Internally every rejection is a
//! distinct variant; the syscall ABI adapter collapses all of them into the
//! single sentinel `-1` that user mode observes.

use vstd::prelude::*;

verus! {

/// Why a syscall-core operation rejected its arguments.
#[derive(Clone, Copy, Debug, PartialEq, Eq, Structural)]
pub enum SysError {
    /// An address or a length that had to be page-aligned was not.
    InvalidAlignment,
    /// Protection bits outside {Read, Write, Execute}, or no right at all.
    InvalidPermission,
    /// The requested mapping collides with a live region.
    RegionOverlap,
    /// The requested unmapping covers an address no live region maps.
    RegionNotMapped,
    /// Address translation failed: an unmapped page, or a page mapped
    /// without the access right the caller needs.
    AddressFault,
}

} // verus!
