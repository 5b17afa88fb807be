//! Access permissions of a mapped memory region, built from the raw
//! protection word a user task passes to the mapping syscall.

use vstd::prelude::*;

verus! {

/// Access permissions of a mapped page: the raw encoding is Read = 0x1,
/// Write = 0x2, Execute = 0x4.  A `Perm` only ever comes out of the
/// validated constructor [`Perm::from_bits`], so an invalid combination
/// (some other bit set, or no right at all) is unrepresentable.
#[derive(Clone, Copy, Debug, PartialEq, Eq, Structural)]
pub struct Perm {
    pub read: bool,
    pub write: bool,
    pub execute: bool,
}

/// A raw protection word is acceptable iff it has no bits outside
/// {Read = 0x1, Write = 0x2, Execute = 0x4} and at least one of them set.
pub open spec fn valid_prot_bits(prot: usize) -> bool {
    &&& prot & 0x7 == prot
    &&& prot & 0x7 != 0
}

/// The permissions encoded by the low three bits of a protection word.
pub open spec fn spec_perm_from_bits(prot: usize) -> Perm {
    Perm { read: prot & 0x1 != 0, write: prot & 0x2 != 0, execute: prot & 0x4 != 0 }
}

impl Perm {
    /// Validated constructor: accepts exactly the protection words with no
    /// bit outside {0x1, 0x2, 0x4} and at least one of those bits set.
    pub fn from_bits(prot: usize) -> (r: Option<Perm>)
        ensures
            r == if valid_prot_bits(prot) {
                Some(spec_perm_from_bits(prot))
            } else {
                None::<Perm>
            },
    {
        if prot & 0x7 != prot || prot & 0x7 == 0 {
            None
        } else {
            Some(Perm { read: prot & 0x1 != 0, write: prot & 0x2 != 0, execute: prot & 0x4 != 0 })
        }
    }
}

} // verus!
