//! The time, task-introspection, scheduling and break syscalls.

use syscall_core::syscall::{
    dispatch_syscall, sys_exit, sys_get_time, sys_mmap, sys_sbrk, sys_task_info, sys_yield,
    SchedAction, SYSCALL_MMAP, SYSCALL_TASK_INFO, SYSCALL_YIELD,
};
use syscall_core::task::{Task, TaskInfo, TaskStatus, TASK_INFO_BYTES};
use syscall_core::time::TIME_VAL_BYTES;

fn task_with_buffer() -> Task {
    let mut t = Task::new(0x1000, 0);
    assert_eq!(sys_mmap(&mut t, 0x20000, 8192, 0x3), 0);
    t
}

fn decode_u64(bytes: &[u8]) -> u64 {
    let mut raw = [0u8; 8];
    raw.copy_from_slice(bytes);
    u64::from_le_bytes(raw)
}

fn decode_u32(bytes: &[u8]) -> u32 {
    let mut raw = [0u8; 4];
    raw.copy_from_slice(bytes);
    u32::from_le_bytes(raw)
}

#[test]
fn get_time_writes_exact_split() {
    let mut t = task_with_buffer();
    assert_eq!(sys_get_time(&mut t, 0x20000, 0, 3_500_042), 0);
    let bytes = t.addr_space.read_bytes(0x20000, TIME_VAL_BYTES).unwrap();
    assert_eq!(decode_u64(&bytes[0..8]), 3);
    assert_eq!(decode_u64(&bytes[8..16]), 500_042);
}

#[test]
fn get_time_buffer_may_straddle_pages() {
    let mut t = task_with_buffer();
    // eight bytes before the boundary at 0x21000, eight after
    assert_eq!(sys_get_time(&mut t, 0x20ff8, 0, 1_999_999), 0);
    let bytes = t.addr_space.read_bytes(0x20ff8, TIME_VAL_BYTES).unwrap();
    assert_eq!(decode_u64(&bytes[0..8]), 1);
    assert_eq!(decode_u64(&bytes[8..16]), 999_999);
}

#[test]
fn get_time_twice_is_non_decreasing() {
    let mut t = task_with_buffer();
    let readings = [999_999usize, 1_000_000usize];
    let mut previous: Option<(u64, u64)> = None;
    for us in readings {
        assert_eq!(sys_get_time(&mut t, 0x20000, 0, us), 0);
        let bytes = t.addr_space.read_bytes(0x20000, TIME_VAL_BYTES).unwrap();
        let sec = decode_u64(&bytes[0..8]);
        let usec = decode_u64(&bytes[8..16]);
        assert!(usec < 1_000_000);
        assert_eq!(sec * 1_000_000 + usec, us as u64);
        if let Some((ps, pu)) = previous {
            assert!(ps * 1_000_000 + pu <= sec * 1_000_000 + usec);
        }
        previous = Some((sec, usec));
    }
}

#[test]
fn get_time_fails_on_unmapped_buffer() {
    let mut t = Task::new(0x1000, 0);
    assert_eq!(sys_get_time(&mut t, 0x20000, 0, 42), -1);
}

#[test]
fn get_time_fails_on_read_only_buffer() {
    let mut t = Task::new(0x1000, 0);
    assert_eq!(sys_mmap(&mut t, 0x20000, 4096, 0x1), 0);
    assert_eq!(sys_get_time(&mut t, 0x20000, 0, 42), -1);
}

#[test]
fn task_info_reports_yield_count() {
    let mut t = task_with_buffer();
    for _ in 0..3 {
        let (ret, action) = dispatch_syscall(&mut t, SYSCALL_YIELD, 0, 0, 0, 0, 0);
        assert_eq!(ret, 0);
        assert_eq!(action, SchedAction::Yield);
    }
    assert_eq!(t.syscall_times[SYSCALL_YIELD], 3);
    let (ret, action) = dispatch_syscall(&mut t, SYSCALL_TASK_INFO, 0x20000, 0, 0, 0, 125);
    assert_eq!(ret, 0);
    assert_eq!(action, SchedAction::Continue);
    let bytes = t.addr_space.read_bytes(0x20000, TASK_INFO_BYTES).unwrap();
    // status byte: Running
    assert_eq!(bytes[0], 1);
    // the yield slot reports the three yields
    let yield_slot = 1 + 4 * SYSCALL_YIELD;
    assert_eq!(decode_u32(&bytes[yield_slot..yield_slot + 4]), 3);
    // the query itself is counted before its own body runs
    let info_slot = 1 + 4 * SYSCALL_TASK_INFO;
    assert_eq!(decode_u32(&bytes[info_slot..info_slot + 4]), 1);
    // elapsed milliseconds since the task started
    assert_eq!(decode_u64(&bytes[TASK_INFO_BYTES - 8..]), 125);
}

#[test]
fn task_info_buffer_may_straddle_pages() {
    let mut t = task_with_buffer();
    assert_eq!(sys_task_info(&mut t, 0x20ff8, 10), 0);
    let bytes = t.addr_space.read_bytes(0x20ff8, TASK_INFO_BYTES).unwrap();
    assert_eq!(bytes[0], 1);
    assert_eq!(decode_u64(&bytes[TASK_INFO_BYTES - 8..]), 10);
}

#[test]
fn task_info_fails_on_unmapped_buffer() {
    let mut t = Task::new(0x1000, 0);
    assert_eq!(sys_task_info(&mut t, 0x20000, 10), -1);
}

#[test]
fn task_info_encoding_layout() {
    let mut times = vec![0u32; 500];
    times[0] = 7;
    times[499] = 0x01020304;
    let info = TaskInfo { status: TaskStatus::Exited, syscall_times: times, time: 5 };
    let bytes = info.encode();
    assert_eq!(bytes.len(), TASK_INFO_BYTES);
    assert_eq!(bytes[0], 2);
    assert_eq!(decode_u32(&bytes[1..5]), 7);
    assert_eq!(decode_u32(&bytes[1 + 4 * 499..1 + 4 * 500]), 0x01020304);
    assert_eq!(decode_u64(&bytes[TASK_INFO_BYTES - 8..]), 5);
}

#[test]
fn yield_returns_zero() {
    assert_eq!(sys_yield(), 0);
}

#[test]
fn exit_marks_task_exited() {
    let mut t = Task::new(0x1000, 0);
    let action = sys_exit(&mut t, 7);
    assert_eq!(action, SchedAction::Exit);
    assert_eq!(t.status, TaskStatus::Exited);
}

#[test]
fn sbrk_grows_and_shrinks_the_break() {
    let mut t = Task::new(0x1000, 0);
    assert_eq!(sys_sbrk(&mut t, 100), 0x1000);
    assert_eq!(t.program_brk, 0x1000 + 100);
    assert_eq!(sys_sbrk(&mut t, -40), 0x1000 + 100);
    assert_eq!(t.program_brk, 0x1000 + 60);
    assert_eq!(sys_sbrk(&mut t, 0), 0x1000 + 60);
}

#[test]
fn sbrk_rejects_shrinking_below_the_floor() {
    let mut t = Task::new(0x1000, 0);
    assert_eq!(sys_sbrk(&mut t, 100), 0x1000);
    assert_eq!(sys_sbrk(&mut t, -101), -1);
    assert_eq!(t.program_brk, 0x1000 + 100);
}

#[test]
fn dispatch_routes_mmap_and_counts_it() {
    let mut t = Task::new(0x1000, 0);
    let (ret, action) = dispatch_syscall(&mut t, SYSCALL_MMAP, 0x20000, 4096, 0x3, 0, 0);
    assert_eq!(ret, 0);
    assert_eq!(action, SchedAction::Continue);
    assert_eq!(t.syscall_times[SYSCALL_MMAP], 1);
    let (ret, _) = dispatch_syscall(&mut t, SYSCALL_MMAP, 0x20000, 4096, 0x3, 0, 0);
    assert_eq!(ret, -1);
    assert_eq!(t.syscall_times[SYSCALL_MMAP], 2);
}
