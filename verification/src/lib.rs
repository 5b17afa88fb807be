//! Syscall-handling core of a small teaching kernel.
//!
//! The library models one task's virtual address space at page granularity,
//! translates user-space addresses to their backing bytes even when an object
//! straddles a page boundary, and implements the validated memory-mapping,
//! task-introspection and time syscalls on top of that model.  Every syscall
//! takes an explicit handle to the calling task's state; the hardware clock
//! and the scheduler are outside collaborators and enter only as plain values
//! and returned actions.

use vstd::prelude::*;

pub mod error;
pub mod laws;
pub mod memory;
pub mod perm;
pub mod syscall;
pub mod task;
pub mod time;

verus! {

/// Size in bytes of one page of virtual memory: the granularity at which
/// the address space is mapped and unmapped.
pub const PAGE_SIZE: usize = 4096;

/// Number of distinct syscall identifiers the per-task invocation counters
/// cover; every valid syscall identifier is below this bound.
pub const MAX_SYSCALL_NUM: usize = 500;

} // verus!
