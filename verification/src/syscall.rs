//! The syscall entry points and the dispatcher that routes a trap to them.
//!
//! Each entry point takes an explicit handle to the calling task's state.
//! What the machine supplies ambiently arrives as plain
//! values: a user pointer is a virtual address, and the monotonic clock's
//! current reading comes in as an argument, read by the surrounding runtime.
//! Every rejection reaches user mode as the single sentinel `-1`; the
//! internal error taxonomy stays inside the library.

use vstd::prelude::*;

use crate::memory::{
    mapped_region, mmap_accepts, munmap_accepts, range_writable, unmapped_region, wrote_bytes,
};
use crate::perm::spec_perm_from_bits;
use crate::task::{
    bump, sbrk_accepts, task_info_bytes, encode_task_info, Task, TaskStatus,
    TASK_INFO_BYTES,
};
use crate::time::{spec_time_val, time_val_bytes, TimeVal, TIME_VAL_BYTES};
use crate::MAX_SYSCALL_NUM;

verus! {

/// Identifier of the task-termination syscall.
pub const SYSCALL_EXIT: usize = 93;

/// Identifier of the voluntary-reschedule syscall.
pub const SYSCALL_YIELD: usize = 124;

/// Identifier of the get-time syscall.
pub const SYSCALL_GET_TIME: usize = 169;

/// Identifier of the data-segment-resize syscall.
pub const SYSCALL_SBRK: usize = 214;

/// Identifier of the region-unmapping syscall.
pub const SYSCALL_MUNMAP: usize = 215;

/// Identifier of the region-mapping syscall.
pub const SYSCALL_MMAP: usize = 222;

/// Identifier of the task-introspection syscall.
pub const SYSCALL_TASK_INFO: usize = 410;

/// What the dispatcher asks the scheduler to do once a syscall returns:
/// carry on with the calling task, suspend it in favour of another, or
/// never run it again.
#[derive(Clone, Copy, Debug, PartialEq, Eq, Structural)]
pub enum SchedAction {
    Continue,
    Yield,
    Exit,
}

/// The syscall identifiers this kernel core serves.
pub open spec fn known_syscall(id: usize) -> bool {
    ||| id == SYSCALL_EXIT
    ||| id == SYSCALL_YIELD
    ||| id == SYSCALL_GET_TIME
    ||| id == SYSCALL_SBRK
    ||| id == SYSCALL_MUNMAP
    ||| id == SYSCALL_MMAP
    ||| id == SYSCALL_TASK_INFO
}

/// The range [`addr`, `addr + len`) lies within the address space and every
/// byte of it may be written.
pub open spec fn user_range_writable(m: Map<usize, crate::memory::Page>, addr: usize, len: usize) -> bool {
    &&& addr + len <= usize::MAX
    &&& range_writable(m, addr as int, len as int)
}

/// Terminate the calling task: its status becomes `Exited`, and the
/// returned action hands control to the scheduler's exit-and-run-next
/// collaborator, which never resumes the task — the call site in the
/// surrounding runtime must treat everything past that handoff as
/// unreachable.
pub fn sys_exit(task: &mut Task, _exit_code: i32) -> (r: SchedAction)
    requires
        old(task).wf(),
    ensures
        final(task).wf(),
        r == SchedAction::Exit,
        final(task).status == TaskStatus::Exited,
        final(task).addr_space == old(task).addr_space,
        final(task).syscall_times == old(task).syscall_times,
        final(task).start_time_ms == old(task).start_time_ms,
        final(task).heap_bottom == old(task).heap_bottom,
        final(task).program_brk == old(task).program_brk,
{
    task.status = TaskStatus::Exited;
    SchedAction::Exit
}

/// Give up the processor voluntarily.  The task's own state is untouched;
/// the reschedule itself is the scheduler's work, requested through the
/// dispatcher's returned action, and the call reports success once the
/// task is resumed.
pub fn sys_yield() -> (r: isize)
    ensures
        r == 0,
{
    0
}

/// Write the current time, split into seconds and microseconds, through
/// the address translator into the user buffer at `ts_addr` — which may
/// straddle a page boundary.  `now_us` is the monotonic microsecond
/// counter's current reading, supplied by the surrounding runtime; the
/// timezone argument is accepted and has no effect.  Returns 0 on success
/// and -1 iff any byte of the buffer is unmapped or not writable.
pub fn sys_get_time(task: &mut Task, ts_addr: usize, _tz: usize, now_us: usize) -> (r: isize)
    requires
        old(task).wf(),
    ensures
        final(task).wf(),
        r == 0 || r == -1,
        (r == 0) <==> user_range_writable(old(task).addr_space@, ts_addr, TIME_VAL_BYTES),
        r == 0 ==> wrote_bytes(
            old(task).addr_space@,
            final(task).addr_space@,
            ts_addr as int,
            time_val_bytes(spec_time_val(now_us)),
        ),
        r == -1 ==> final(task).addr_space@ == old(task).addr_space@,
        final(task).status == old(task).status,
        final(task).syscall_times == old(task).syscall_times,
        final(task).start_time_ms == old(task).start_time_ms,
        final(task).heap_bottom == old(task).heap_bottom,
        final(task).program_brk == old(task).program_brk,
{
    if ts_addr > usize::MAX - TIME_VAL_BYTES {
        return -1;
    }
    let tv = TimeVal::from_us(now_us);
    let bytes = tv.encode();
    match task.addr_space.write_bytes(ts_addr, &bytes) {
        Ok(_) => 0,
        Err(_) => -1,
    }
}

/// Write a snapshot of the calling task — status, per-syscall invocation
/// counters, and elapsed run time in milliseconds — through the address
/// translator into the user buffer at `ti_addr`, which may straddle a page
/// boundary.  `now_ms` is the monotonic millisecond clock's current
/// reading, supplied by the surrounding runtime; the clock being monotonic,
/// it never reads below the task's start time.  Returns 0 on success and
/// -1 iff any byte of the buffer is unmapped or not writable.
pub fn sys_task_info(task: &mut Task, ti_addr: usize, now_ms: usize) -> (r: isize)
    requires
        old(task).wf(),
        now_ms >= old(task).start_time_ms,
    ensures
        final(task).wf(),
        r == 0 || r == -1,
        (r == 0) <==> user_range_writable(old(task).addr_space@, ti_addr, TASK_INFO_BYTES),
        r == 0 ==> wrote_bytes(
            old(task).addr_space@,
            final(task).addr_space@,
            ti_addr as int,
            task_info_bytes(
                old(task).status,
                old(task).syscall_times@,
                (now_ms - old(task).start_time_ms) as usize,
            ),
        ),
        r == -1 ==> final(task).addr_space@ == old(task).addr_space@,
        final(task).status == old(task).status,
        final(task).syscall_times == old(task).syscall_times,
        final(task).start_time_ms == old(task).start_time_ms,
        final(task).heap_bottom == old(task).heap_bottom,
        final(task).program_brk == old(task).program_brk,
{
    if ti_addr > usize::MAX - TASK_INFO_BYTES {
        return -1;
    }
    let elapsed = now_ms - task.start_time_ms;
    let bytes = encode_task_info(task.status, &task.syscall_times, elapsed);
    match task.addr_space.write_bytes(ti_addr, &bytes) {
        Ok(_) => 0,
        Err(_) => -1,
    }
}

/// Map `len` bytes (rounded up to whole pages) at the page-aligned address
/// `start` with protection bits `prot`, zero-initialized.  Returns 0 on
/// success; returns -1 — with no partial mapping left behind — iff `prot`
/// has a bit outside {Read = 0x1, Write = 0x2, Execute = 0x4}, or no such
/// bit at all, or `start` is not page-aligned, or the rounded range
/// overlaps a live region.
pub fn sys_mmap(task: &mut Task, start: usize, len: usize, prot: usize) -> (r: isize)
    requires
        old(task).wf(),
    ensures
        final(task).wf(),
        r == 0 || r == -1,
        (r == 0) <==> mmap_accepts(old(task).addr_space@, start, len, prot),
        r == 0 ==> mapped_region(
            old(task).addr_space@,
            final(task).addr_space@,
            start,
            len,
            spec_perm_from_bits(prot),
        ),
        r == -1 ==> final(task).addr_space@ == old(task).addr_space@,
        final(task).status == old(task).status,
        final(task).syscall_times == old(task).syscall_times,
        final(task).start_time_ms == old(task).start_time_ms,
        final(task).heap_bottom == old(task).heap_bottom,
        final(task).program_brk == old(task).program_brk,
{
    match task.addr_space.mmap(start, len, prot) {
        Ok(_) => 0,
        Err(_) => -1,
    }
}

/// Unmap every page of [`start`, `start + len`), both page-aligned, and
/// free its backing.  Returns 0 on success; returns -1 — unmapping
/// nothing — iff either argument is not page-aligned or some page of the
/// range is not currently mapped.  The chosen partial-unmap policy is page
/// granularity: a range covering an exact sub-range of a larger mapping is
/// accepted and splits it, but memory outside the requested range is never
/// unmapped.
pub fn sys_munmap(task: &mut Task, start: usize, len: usize) -> (r: isize)
    requires
        old(task).wf(),
    ensures
        final(task).wf(),
        r == 0 || r == -1,
        (r == 0) <==> munmap_accepts(old(task).addr_space@, start, len),
        r == 0 ==> unmapped_region(old(task).addr_space@, final(task).addr_space@, start, len),
        r == -1 ==> final(task).addr_space@ == old(task).addr_space@,
        final(task).status == old(task).status,
        final(task).syscall_times == old(task).syscall_times,
        final(task).start_time_ms == old(task).start_time_ms,
        final(task).heap_bottom == old(task).heap_bottom,
        final(task).program_brk == old(task).program_brk,
{
    match task.addr_space.munmap(start, len) {
        Ok(_) => 0,
        Err(_) => -1,
    }
}

/// Adjust the calling task's data-segment break by `size` bytes, returning
/// the previous break.  Returns -1 — with the break unchanged — iff the
/// adjustment is invalid: the new break would sink below the segment's
/// floor or leave the reportable address range.
pub fn sys_sbrk(task: &mut Task, size: i32) -> (r: isize)
    requires
        old(task).wf(),
    ensures
        final(task).wf(),
        (r == -1) <==> !sbrk_accepts(old(task).heap_bottom, old(task).program_brk, size),
        r != -1 ==> r as int == old(task).program_brk as int
            && final(task).program_brk as int == old(task).program_brk as int + size as int
            && final(task).addr_space == old(task).addr_space
            && final(task).status == old(task).status
            && final(task).syscall_times == old(task).syscall_times
            && final(task).start_time_ms == old(task).start_time_ms
            && final(task).heap_bottom == old(task).heap_bottom,
        r == -1 ==> *final(task) == *old(task),
{
    match task.change_program_brk(size) {
        Some(prev) => prev as isize,
        None => -1,
    }
}

/// Route one trap into the kernel: record the invocation in the calling
/// task's counters — before the handler body runs, so a task-info query
/// reports its own call already counted — then validate and dispatch.
/// `now_us` and `now_ms` are the monotonic clock's current readings,
/// supplied by the surrounding runtime.  The returned pair carries the
/// signed result for user mode and the action the scheduler must take.
pub fn dispatch_syscall(
    task: &mut Task,
    id: usize,
    arg0: usize,
    arg1: usize,
    arg2: usize,
    now_us: usize,
    now_ms: usize,
) -> (r: (isize, SchedAction))
    requires
        old(task).wf(),
        known_syscall(id),
        now_ms >= old(task).start_time_ms,
    ensures
        final(task).wf(),
        final(task).syscall_times@ == bump(old(task).syscall_times@, id as int),
        final(task).start_time_ms == old(task).start_time_ms,
        id == SYSCALL_EXIT ==> r == (0isize, SchedAction::Exit)
            && final(task).status == TaskStatus::Exited
            && final(task).addr_space == old(task).addr_space
            && final(task).program_brk == old(task).program_brk,
        id == SYSCALL_YIELD ==> r == (0isize, SchedAction::Yield)
            && final(task).status == old(task).status
            && final(task).addr_space == old(task).addr_space
            && final(task).program_brk == old(task).program_brk,
        id == SYSCALL_GET_TIME ==> r.1 == SchedAction::Continue
            && ((r.0 == 0) <==> user_range_writable(old(task).addr_space@, arg0, TIME_VAL_BYTES))
            && (r.0 == 0 ==> wrote_bytes(
                old(task).addr_space@,
                final(task).addr_space@,
                arg0 as int,
                time_val_bytes(spec_time_val(now_us)),
            ))
            && (r.0 == -1 ==> final(task).addr_space@ == old(task).addr_space@)
            && final(task).status == old(task).status
            && final(task).program_brk == old(task).program_brk,
        id == SYSCALL_TASK_INFO ==> r.1 == SchedAction::Continue
            && ((r.0 == 0) <==> user_range_writable(old(task).addr_space@, arg0, TASK_INFO_BYTES))
            && (r.0 == 0 ==> wrote_bytes(
                old(task).addr_space@,
                final(task).addr_space@,
                arg0 as int,
                task_info_bytes(
                    old(task).status,
                    bump(old(task).syscall_times@, SYSCALL_TASK_INFO as int),
                    (now_ms - old(task).start_time_ms) as usize,
                ),
            ))
            && (r.0 == -1 ==> final(task).addr_space@ == old(task).addr_space@)
            && final(task).status == old(task).status
            && final(task).program_brk == old(task).program_brk,
        id == SYSCALL_MMAP ==> r.1 == SchedAction::Continue
            && ((r.0 == 0) <==> mmap_accepts(old(task).addr_space@, arg0, arg1, arg2))
            && (r.0 == 0 ==> mapped_region(
                old(task).addr_space@,
                final(task).addr_space@,
                arg0,
                arg1,
                spec_perm_from_bits(arg2),
            ))
            && (r.0 == -1 ==> final(task).addr_space@ == old(task).addr_space@)
            && final(task).status == old(task).status
            && final(task).program_brk == old(task).program_brk,
        id == SYSCALL_MUNMAP ==> r.1 == SchedAction::Continue
            && ((r.0 == 0) <==> munmap_accepts(old(task).addr_space@, arg0, arg1))
            && (r.0 == 0 ==> unmapped_region(
                old(task).addr_space@,
                final(task).addr_space@,
                arg0,
                arg1,
            ))
            && (r.0 == -1 ==> final(task).addr_space@ == old(task).addr_space@)
            && final(task).status == old(task).status
            && final(task).program_brk == old(task).program_brk,
        id == SYSCALL_SBRK ==> r.1 == SchedAction::Continue
            && ((r.0 == -1) <==> !sbrk_accepts(
                old(task).heap_bottom,
                old(task).program_brk,
                arg0 as i32,
            ))
            && (r.0 != -1 ==> r.0 as int == old(task).program_brk as int
                && final(task).program_brk as int == old(task).program_brk as int + (arg0 as i32) as int)
            && (r.0 == -1 ==> final(task).program_brk == old(task).program_brk)
            && final(task).addr_space == old(task).addr_space
            && final(task).status == old(task).status,
{
    proof {
        assert(id < MAX_SYSCALL_NUM);
    }
    task.count_syscall(id);
    if id == SYSCALL_EXIT {
        let action = sys_exit(task, #[verifier::truncate] (arg0 as i32));
        (0, action)
    } else if id == SYSCALL_YIELD {
        (sys_yield(), SchedAction::Yield)
    } else if id == SYSCALL_GET_TIME {
        (sys_get_time(task, arg0, arg1, now_us), SchedAction::Continue)
    } else if id == SYSCALL_TASK_INFO {
        (sys_task_info(task, arg0, now_ms), SchedAction::Continue)
    } else if id == SYSCALL_MMAP {
        (sys_mmap(task, arg0, arg1, arg2), SchedAction::Continue)
    } else if id == SYSCALL_MUNMAP {
        (sys_munmap(task, arg0, arg1), SchedAction::Continue)
    } else {
        (sys_sbrk(task, #[verifier::truncate] (arg0 as i32)), SchedAction::Continue)
    }
}

} // verus!
