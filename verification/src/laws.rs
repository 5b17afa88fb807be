//! The library's general laws: properties that relate several operations,
//! stated over the same model the executable contracts use and proved once
//! for every input.

use vstd::arithmetic::div_mod::{
    lemma_div_is_ordered, lemma_div_multiples_vanish, lemma_fundamental_div_mod,
    lemma_mod_multiples_basic,
};
use vstd::prelude::*;

use crate::memory::{
    byte_readable, byte_writable, first_vpn, mapped_region, mmap_accepts, munmap_accepts,
    num_pages, range_mapped, range_readable, range_unmapped, range_writable, spec_read_bytes,
    unmapped_region, vpn_of, wrote_bytes, Page,
};
use crate::perm::{spec_perm_from_bits, valid_prot_bits};
use crate::task::{bump, inc_saturating};
use crate::time::spec_time_val;
use crate::PAGE_SIZE;

verus! {

/// Translation round trip: if writing `data` at address `a` turned the
/// address space `m0` into `m1` — in particular when [`a`, `a + data.len()`)
/// crosses one or more page boundaries — then reading `data.len()` bytes
/// back at `a` returns exactly `data`, and every access right the range had
/// before the write it still has.
pub proof fn lemma_write_read_round_trip(
    m0: Map<usize, Page>,
    m1: Map<usize, Page>,
    a: int,
    data: Seq<u8>,
)
    requires
        wrote_bytes(m0, m1, a, data),
    ensures
        spec_read_bytes(m1, a, data.len()) == data,
        range_readable(m0, a, data.len() as int) ==> range_readable(m1, a, data.len() as int),
        range_writable(m0, a, data.len() as int) ==> range_writable(m1, a, data.len() as int),
{
    assert(spec_read_bytes(m1, a, data.len()) =~= data);
    if range_readable(m0, a, data.len() as int) {
        assert forall|i: int| a <= i < a + data.len() implies #[trigger] byte_readable(m1, i) by {
            assert(byte_readable(m0, i));
            let v = vpn_of(i) as usize;
            assert(m0.contains_key(v));
            assert(m1[v].perm == m0[v].perm);
        }
    }
    if range_writable(m0, a, data.len() as int) {
        assert forall|i: int| a <= i < a + data.len() implies #[trigger] byte_writable(m1, i) by {
            assert(byte_writable(m0, i));
            let v = vpn_of(i) as usize;
            assert(m0.contains_key(v));
            assert(m1[v].perm == m0[v].perm);
        }
    }
}

/// A mapping request is rejected whenever its protection word has a bit
/// outside {Read = 0x1, Write = 0x2, Execute = 0x4}, or none of those bits
/// at all, or its start address is not page-aligned — independent of the
/// requested length and of the state of the address space.
pub proof fn lemma_mmap_rejects_invalid(
    m: Map<usize, Page>,
    start: usize,
    len: usize,
    prot: usize,
)
    requires
        prot & 0x7 != prot || prot & 0x7 == 0 || start % PAGE_SIZE != 0,
    ensures
        !mmap_accepts(m, start, len, prot),
{
}

/// Mapping a region and immediately unmapping it with the same start and
/// the same length rounded to whole pages succeeds and restores the address
/// space exactly as it was; a second identical unmapping then fails,
/// because the range's pages are gone.
pub proof fn lemma_mmap_munmap_round_trip(
    m0: Map<usize, Page>,
    m1: Map<usize, Page>,
    m2: Map<usize, Page>,
    start: usize,
    len: usize,
    prot: usize,
    rlen: usize,
)
    requires
        len > 0,
        rlen == num_pages(len) * PAGE_SIZE,
        mmap_accepts(m0, start, len, prot),
        mapped_region(m0, m1, start, len, spec_perm_from_bits(prot)),
        unmapped_region(m1, m2, start, rlen),
    ensures
        munmap_accepts(m1, start, rlen),
        m2 == m0,
        !munmap_accepts(m2, start, rlen),
{
    let p = PAGE_SIZE as int;
    let f = first_vpn(start);
    let n = num_pages(len);
    lemma_mod_multiples_basic(n, p);
    lemma_div_multiples_vanish(n, p);
    assert(rlen as int == n * p);
    assert(n * p == p * n) by (nonlinear_arith);
    assert(rlen as int % p == 0);
    assert(num_pages(rlen) == n);
    assert(n >= 1) by {
        lemma_fundamental_div_mod(len as int, p);
    }
    assert(range_mapped(m1, f, n)) by {
        assert forall|v: usize| f <= v < f + n implies #[trigger] m1.contains_key(v) by {}
    }
    assert forall|v: usize| #[trigger] m2.contains_key(v) == m0.contains_key(v) by {
        if f <= v < f + n {
            assert(!m0.contains_key(v));
        }
    }
    assert forall|v: usize| #[trigger] m2.contains_key(v) implies m2[v] == m0[v] by {
        assert(m1.contains_key(v));
        assert(m2[v] == m1[v]);
        assert(m1[v] == m0[v]);
    }
    assert(m2 =~= m0);
    let v0 = f as usize;
    assert(!m0.contains_key(v0));
    assert(!m2.contains_key(v0));
    assert(!range_mapped(m2, f, n));
}

/// Two mapping requests whose rounded page ranges are free and disjoint
/// from each other both succeed, both regions are present afterwards, and a
/// third request whose range overlaps either of them — at the witness page
/// `w` — is rejected (and, by the mapping syscall's own contract, a
/// rejection leaves the address space unchanged).
pub proof fn lemma_mmap_disjoint_then_overlap(
    m0: Map<usize, Page>,
    m1: Map<usize, Page>,
    m2: Map<usize, Page>,
    s1: usize,
    l1: usize,
    prot1: usize,
    s2: usize,
    l2: usize,
    prot2: usize,
    s3: usize,
    l3: usize,
    prot3: usize,
    w: usize,
)
    requires
        mmap_accepts(m0, s1, l1, prot1),
        mapped_region(m0, m1, s1, l1, spec_perm_from_bits(prot1)),
        valid_prot_bits(prot2),
        s2 % PAGE_SIZE == 0,
        range_unmapped(m0, first_vpn(s2), num_pages(l2)),
        first_vpn(s2) + num_pages(l2) <= first_vpn(s1) || first_vpn(s1) + num_pages(l1)
            <= first_vpn(s2),
        mapped_region(m1, m2, s2, l2, spec_perm_from_bits(prot2)),
        first_vpn(s3) <= w < first_vpn(s3) + num_pages(l3),
        (first_vpn(s1) <= w < first_vpn(s1) + num_pages(l1)) || (first_vpn(s2) <= w < first_vpn(
            s2,
        ) + num_pages(l2)),
    ensures
        mmap_accepts(m1, s2, l2, prot2),
        forall|v: usize|
            first_vpn(s1) <= v < first_vpn(s1) + num_pages(l1) ==> #[trigger] m2.contains_key(v),
        forall|v: usize|
            first_vpn(s2) <= v < first_vpn(s2) + num_pages(l2) ==> #[trigger] m2.contains_key(v),
        !mmap_accepts(m2, s3, l3, prot3),
{
    let f1 = first_vpn(s1);
    let n1 = num_pages(l1);
    let f2 = first_vpn(s2);
    let n2 = num_pages(l2);
    assert(range_unmapped(m1, f2, n2)) by {
        assert forall|v: usize| f2 <= v < f2 + n2 implies !(#[trigger] m1.contains_key(v)) by {
            assert(!m0.contains_key(v));
            assert(!(f1 <= v < f1 + n1));
        }
    }
    assert forall|v: usize| f1 <= v < f1 + n1 implies #[trigger] m2.contains_key(v) by {
        assert(m1.contains_key(v));
    }
    assert(m2.contains_key(w));
    assert(!range_unmapped(m2, first_vpn(s3), num_pages(l3)));
}

/// The time stamp denoting a microsecond counter value recomposes to
/// exactly that value, its microsecond field is always below one million,
/// and a non-decreasing counter yields non-decreasing stamps: the second
/// stamp is later in whole seconds, or equal in seconds and no earlier in
/// microseconds.
pub proof fn lemma_time_val_monotone(us1: usize, us2: usize)
    requires
        us1 <= us2,
    ensures
        spec_time_val(us1).usec < 1_000_000,
        spec_time_val(us1).sec as int * 1_000_000 + spec_time_val(us1).usec as int == us1 as int,
        spec_time_val(us1).sec < spec_time_val(us2).sec || (spec_time_val(us1).sec
            == spec_time_val(us2).sec && spec_time_val(us1).usec <= spec_time_val(us2).usec),
{
    lemma_fundamental_div_mod(us1 as int, 1_000_000);
    lemma_fundamental_div_mod(us2 as int, 1_000_000);
    lemma_div_is_ordered(us1 as int, us2 as int, 1_000_000);
}

/// The invocation counters after `n` consecutive recordings of syscall
/// `id`, as the dispatcher performs them.
pub open spec fn bump_n(times: Seq<u32>, id: int, n: nat) -> Seq<u32>
    decreases n,
{
    if n == 0 {
        times
    } else {
        bump(bump_n(times, id, (n - 1) as nat), id)
    }
}

/// The counting convention, made visible: after `n` further invocations of
/// syscall `id` and of no other, the slot for `id` reports exactly `n` more
/// than before — so at least `n` — as long as the slot's ceiling is not
/// reached, and every other slot is untouched.
pub proof fn lemma_syscall_count_reports_n(times: Seq<u32>, id: int, n: nat)
    requires
        0 <= id < times.len(),
        times[id] as int + n <= u32::MAX as int,
    ensures
        bump_n(times, id, n).len() == times.len(),
        bump_n(times, id, n)[id] as int == times[id] as int + n,
        forall|j: int|
            0 <= j < times.len() && j != id ==> #[trigger] bump_n(times, id, n)[j] == times[j],
    decreases n,
{
    if n > 0 {
        lemma_syscall_count_reports_n(times, id, (n - 1) as nat);
        let prev = bump_n(times, id, (n - 1) as nat);
        assert(prev[id] as int == times[id] as int + n - 1);
        assert(inc_saturating(prev[id]) as int == prev[id] as int + 1);
    }
}

} // verus!
