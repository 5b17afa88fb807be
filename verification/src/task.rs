//! The calling task's state: its scheduling status, its per-syscall
//! invocation counters, its data-segment break, and its address space —
//! passed to every core operation as an explicit handle rather than looked
//! up through ambient globals.

use vstd::bytes::{spec_u32_to_le_bytes, spec_u64_to_le_bytes, u32_to_le_bytes, u64_to_le_bytes};
use vstd::prelude::*;

use crate::memory::{AddressSpace, Page};
use crate::MAX_SYSCALL_NUM;

verus! {

/// Where a task stands in its life cycle.
#[derive(Clone, Copy, Debug, PartialEq, Eq, Structural)]
pub enum TaskStatus {
    Ready,
    Running,
    Exited,
}

/// The state of one task, exclusively owned: its address space, its
/// scheduling status, one invocation counter per syscall identifier, the
/// millisecond time it was first scheduled, and its data-segment bounds.
pub struct Task {
    /// The task's virtual address space.
    pub addr_space: AddressSpace,
    /// The task's scheduling status.
    pub status: TaskStatus,
    /// Invocation counters, one slot per syscall identifier.
    pub syscall_times: Vec<u32>,
    /// When the task was first scheduled, in monotonic milliseconds.
    pub start_time_ms: usize,
    /// The floor of the data segment: the break never goes below it.
    pub heap_bottom: usize,
    /// The current data-segment break.
    pub program_brk: usize,
}

/// A counter incremented by one, held at its ceiling instead of wrapping.
pub open spec fn inc_saturating(c: u32) -> u32 {
    if c == u32::MAX {
        c
    } else {
        (c + 1) as u32
    }
}

/// The invocation counters after recording one more call of syscall `id`.
pub open spec fn bump(times: Seq<u32>, id: int) -> Seq<u32> {
    times.update(id, inc_saturating(times[id]))
}

/// A break adjustment is accepted iff the adjusted break stays at or above
/// the data segment's floor and within the address range a signed syscall
/// result can report.
pub open spec fn sbrk_accepts(heap_bottom: usize, brk: usize, size: i32) -> bool {
    &&& heap_bottom as int <= brk as int + size as int
    &&& brk as int + size as int <= isize::MAX as int
}

impl Task {
    /// The task's address space is well-formed, it has one counter slot per
    /// syscall identifier, and its data-segment bounds are ordered and
    /// reportable as a signed syscall result.
    pub open spec fn wf(&self) -> bool {
        &&& self.addr_space.wf()
        &&& self.syscall_times@.len() == MAX_SYSCALL_NUM
        &&& self.heap_bottom <= self.program_brk
        &&& self.program_brk as int <= isize::MAX as int
    }

    /// A fresh task: running, nothing mapped, every counter zero, and an
    /// empty data segment starting at `heap_bottom`.
    pub fn new(heap_bottom: usize, start_time_ms: usize) -> (r: Task)
        requires
            heap_bottom as int <= isize::MAX as int,
        ensures
            r.wf(),
            r.addr_space@ == Map::<usize, Page>::empty(),
            r.status == TaskStatus::Running,
            r.syscall_times@ == Seq::new(MAX_SYSCALL_NUM as nat, |i: int| 0u32),
            r.start_time_ms == start_time_ms,
            r.heap_bottom == heap_bottom,
            r.program_brk == heap_bottom,
    {
        let times: Vec<u32> = vec![0u32; MAX_SYSCALL_NUM];
        proof {
            assert(times@ =~= Seq::new(MAX_SYSCALL_NUM as nat, |i: int| 0u32));
        }
        Task {
            addr_space: AddressSpace::new(),
            status: TaskStatus::Running,
            syscall_times: times,
            start_time_ms,
            heap_bottom,
            program_brk: heap_bottom,
        }
    }

    /// Record one invocation of syscall `id`.  The counter saturates at its
    /// ceiling instead of wrapping.
    pub fn count_syscall(&mut self, id: usize)
        requires
            old(self).wf(),
            id < MAX_SYSCALL_NUM,
        ensures
            final(self).wf(),
            final(self).syscall_times@ == bump(old(self).syscall_times@, id as int),
            final(self).addr_space == old(self).addr_space,
            final(self).status == old(self).status,
            final(self).start_time_ms == old(self).start_time_ms,
            final(self).heap_bottom == old(self).heap_bottom,
            final(self).program_brk == old(self).program_brk,
    {
        let c = self.syscall_times[id];
        let bumped: u32 = if c == u32::MAX {
            c
        } else {
            c + 1
        };
        self.syscall_times[id] = bumped;
    }

    /// Adjust the data-segment break by `size` bytes (growing or
    /// shrinking), returning the previous break on success.  Rejected — and
    /// the break unchanged — iff the adjusted break would sink below the
    /// segment's floor or leave the reportable address range.
    pub fn change_program_brk(&mut self, size: i32) -> (r: Option<usize>)
        requires
            old(self).wf(),
        ensures
            final(self).wf(),
            (r is Some) <==> sbrk_accepts(old(self).heap_bottom, old(self).program_brk, size),
            r matches Some(prev) ==> prev == old(self).program_brk
                && final(self).program_brk as int == old(self).program_brk as int + size as int,
            r is Some ==> final(self).addr_space == old(self).addr_space
                && final(self).status == old(self).status
                && final(self).syscall_times == old(self).syscall_times
                && final(self).start_time_ms == old(self).start_time_ms
                && final(self).heap_bottom == old(self).heap_bottom,
            r is None ==> *final(self) == *old(self),
    {
        if size >= 0 {
            let add = size as usize;
            let limit = isize::MAX as usize;
            if add > limit - self.program_brk {
                None
            } else {
                let prev = self.program_brk;
                self.program_brk = self.program_brk + add;
                Some(prev)
            }
        } else {
            let sub = (-(size as i64)) as usize;
            if sub > self.program_brk - self.heap_bottom {
                None
            } else {
                let prev = self.program_brk;
                self.program_brk = self.program_brk - sub;
                Some(prev)
            }
        }
    }
}

/// Snapshot of a task's state as the introspection syscall reports it to
/// user space.
pub struct TaskInfo {
    /// Task status in its life cycle.
    pub status: TaskStatus,
    /// The number of invocations of each syscall, by identifier.
    pub syscall_times: Vec<u32>,
    /// Total running time of the task, in milliseconds.
    pub time: usize,
}

/// The byte encoding a task status.
pub open spec fn status_byte(s: TaskStatus) -> u8 {
    match s {
        TaskStatus::Ready => 0u8,
        TaskStatus::Running => 1u8,
        TaskStatus::Exited => 2u8,
    }
}

/// The byte image of the invocation counters: each slot as four
/// little-endian bytes, in identifier order.
pub open spec fn counts_bytes(times: Seq<u32>) -> Seq<u8>
    decreases times.len(),
{
    if times.len() == 0 {
        Seq::empty()
    } else {
        counts_bytes(times.drop_last()) + spec_u32_to_le_bytes(times.last())
    }
}

/// The byte image of a task snapshot as user space receives it: the status
/// byte, then the counters, then the elapsed milliseconds as eight
/// little-endian bytes.
pub open spec fn task_info_bytes(status: TaskStatus, times: Seq<u32>, time_ms: usize) -> Seq<u8> {
    seq![status_byte(status)] + counts_bytes(times) + spec_u64_to_le_bytes(time_ms as u64)
}

/// Size in bytes of a task snapshot as it is written to user memory.
pub const TASK_INFO_BYTES: usize = 1 + 4 * MAX_SYSCALL_NUM + 8;

/// The counter image grows by four bytes per slot.
pub proof fn lemma_counts_bytes_len(times: Seq<u32>)
    ensures
        counts_bytes(times).len() == 4 * times.len(),
    decreases times.len(),
{
    vstd::bytes::lemma_auto_spec_u32_to_from_le_bytes();
    if times.len() > 0 {
        lemma_counts_bytes_len(times.drop_last());
    }
}

proof fn lemma_counts_bytes_take_step(times: Seq<u32>, i: int)
    requires
        0 <= i < times.len(),
    ensures
        counts_bytes(times.take(i + 1)) == counts_bytes(times.take(i)) + spec_u32_to_le_bytes(
            times[i],
        ),
{
    assert(times.take(i + 1).drop_last() =~= times.take(i));
    assert(times.take(i + 1).last() == times[i]);
}

/// Serialize a task snapshot into the byte image user space receives.
pub fn encode_task_info(status: TaskStatus, times: &Vec<u32>, time_ms: usize) -> (r: Vec<u8>)
    ensures
        r@ == task_info_bytes(status, times@, time_ms),
        r@.len() == 9 + 4 * times@.len(),
{
    proof {
        vstd::bytes::lemma_auto_spec_u64_to_from_le_bytes();
        lemma_counts_bytes_len(times@);
    }
    let mut out: Vec<u8> = Vec::new();
    let tag: u8 = match status {
        TaskStatus::Ready => 0u8,
        TaskStatus::Running => 1u8,
        TaskStatus::Exited => 2u8,
    };
    out.push(tag);
    let mut i: usize = 0;
    while i < times.len()
        invariant
            i <= times@.len(),
            out@ == seq![status_byte(status)] + counts_bytes(times@.take(i as int)),
        decreases times@.len() - i,
    {
        let mut slot = u32_to_le_bytes(times[i]);
        out.append(&mut slot);
        proof {
            lemma_counts_bytes_take_step(times@, i as int);
        }
        i += 1;
    }
    proof {
        assert(times@.take(times@.len() as int) =~= times@);
    }
    let mut tail = u64_to_le_bytes(time_ms as u64);
    out.append(&mut tail);
    out
}

impl TaskInfo {
    /// Serialize the snapshot into the byte image user space receives.
    pub fn encode(&self) -> (r: Vec<u8>)
        ensures
            r@ == task_info_bytes(self.status, self.syscall_times@, self.time),
            r@.len() == 9 + 4 * self.syscall_times@.len(),
    {
        encode_task_info(self.status, &self.syscall_times, self.time)
    }
}

} // verus!
