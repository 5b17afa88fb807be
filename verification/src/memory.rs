//! A task's virtual address space, modelled at page granularity, and the
//! address translator that reads and writes user memory through it.
//!
//! The address space is a finite map from virtual page number to mapped
//! page; a region installed by the mapping syscall is simply the set of its
//! pages, so the core invariant — no two live regions overlap — is the
//! map's own key uniqueness.  The translator resolves each byte of a
//! requested range through its own page, so an object that straddles a page
//! boundary is read or written correctly even though its pages have
//! independent backing.

use std::collections::HashMap;
use vstd::prelude::*;

use crate::error::SysError;
use crate::perm::{spec_perm_from_bits, Perm};
use crate::PAGE_SIZE;

verus! {

broadcast use vstd::std_specs::hash::group_hash_axioms;

/// One mapped page: its access permissions and its `PAGE_SIZE` bytes of
/// backing storage.
pub struct Page {
    pub perm: Perm,
    pub data: Vec<u8>,
}

/// A task's address space: the pages currently mapped, keyed by virtual
/// page number.  Exclusively owned by its task.
pub struct AddressSpace {
    pages: HashMap<usize, Page>,
}

/// The virtual page number of the byte at address `a`.
pub open spec fn vpn_of(a: int) -> int {
    a / (PAGE_SIZE as int)
}

/// The offset of the byte at address `a` within its page.
pub open spec fn page_offset_of(a: int) -> int {
    a % (PAGE_SIZE as int)
}

/// Every mapped page carries exactly `PAGE_SIZE` bytes of backing.
pub open spec fn pages_wf(m: Map<usize, Page>) -> bool {
    forall|v: usize| m.contains_key(v) ==> (#[trigger] m[v]).data@.len() == PAGE_SIZE
}

/// The byte at address `a` lies on a mapped page.
pub open spec fn byte_mapped(m: Map<usize, Page>, a: int) -> bool {
    &&& 0 <= a <= usize::MAX
    &&& m.contains_key(vpn_of(a) as usize)
}

/// The page backing the byte at address `a`.
pub open spec fn page_at(m: Map<usize, Page>, a: int) -> Page {
    m[vpn_of(a) as usize]
}

/// The byte at address `a` may be read: mapped, with the Read right.
pub open spec fn byte_readable(m: Map<usize, Page>, a: int) -> bool {
    byte_mapped(m, a) && page_at(m, a).perm.read
}

/// The byte at address `a` may be written: mapped, with the Write right.
pub open spec fn byte_writable(m: Map<usize, Page>, a: int) -> bool {
    byte_mapped(m, a) && page_at(m, a).perm.write
}

/// The value of the byte at address `a`.
pub open spec fn spec_byte_at(m: Map<usize, Page>, a: int) -> u8 {
    page_at(m, a).data@[page_offset_of(a)]
}

/// Every byte of [`a`, `a + len`) may be read.
pub open spec fn range_readable(m: Map<usize, Page>, a: int, len: int) -> bool {
    forall|i: int| a <= i < a + len ==> #[trigger] byte_readable(m, i)
}

/// Every byte of [`a`, `a + len`) may be written.
pub open spec fn range_writable(m: Map<usize, Page>, a: int, len: int) -> bool {
    forall|i: int| a <= i < a + len ==> #[trigger] byte_writable(m, i)
}

/// The `len` bytes stored at [`a`, `a + len`).
pub open spec fn spec_read_bytes(m: Map<usize, Page>, a: int, len: nat) -> Seq<u8> {
    Seq::new(len, |i: int| spec_byte_at(m, a + i))
}

/// The virtual page number of the first page of a range starting at `start`.
pub open spec fn first_vpn(start: usize) -> int {
    vpn_of(start as int)
}

/// The number of whole pages that cover `len` bytes: `len` rounded up to
/// page granularity, counted in pages.
pub open spec fn num_pages(len: usize) -> int {
    (len as int) / (PAGE_SIZE as int) + if (len as int) % (PAGE_SIZE as int) == 0 {
        0int
    } else {
        1int
    }
}

/// None of the page numbers [`f`, `f + n`) is mapped.
pub open spec fn range_unmapped(m: Map<usize, Page>, f: int, n: int) -> bool {
    forall|v: usize| f <= v < f + n ==> !(#[trigger] m.contains_key(v))
}

/// Every page number of [`f`, `f + n`) is mapped.
pub open spec fn range_mapped(m: Map<usize, Page>, f: int, n: int) -> bool {
    forall|v: usize| f <= v < f + n ==> #[trigger] m.contains_key(v)
}

/// A mapping request is accepted iff its protection word is valid, its
/// start is page-aligned, and no page of the rounded range is already
/// mapped — overlap with a live region is a rejection, never a merge.
pub open spec fn mmap_accepts(m: Map<usize, Page>, start: usize, len: usize, prot: usize) -> bool {
    &&& crate::perm::valid_prot_bits(prot)
    &&& start % PAGE_SIZE == 0
    &&& range_unmapped(m, first_vpn(start), num_pages(len))
}

/// How a successful mapping of `len` bytes (rounded up to whole pages) at
/// `start` with permissions `perm` turns the address space `m0` into `m1`:
/// exactly the pages of the range are added, zero-initialized and with
/// `perm`, and every previously mapped page is untouched.
pub open spec fn mapped_region(
    m0: Map<usize, Page>,
    m1: Map<usize, Page>,
    start: usize,
    len: usize,
    perm: Perm,
) -> bool {
    let f = first_vpn(start);
    let n = num_pages(len);
    &&& forall|v: usize| #[trigger] m1.contains_key(v) <==> m0.contains_key(v) || (f <= v < f + n)
    &&& forall|v: usize| m0.contains_key(v) ==> #[trigger] m1[v] == m0[v]
    &&& forall|v: usize| f <= v < f + n ==> (#[trigger] m1[v]).perm == perm
        && m1[v].data@.len() == PAGE_SIZE
        && forall|off: int| 0 <= off < PAGE_SIZE ==> m1[v].data@[off] == 0u8
}

/// An unmapping request is accepted iff its start and length are both
/// page-aligned and every page of the range is currently mapped; a range
/// that reaches any unmapped address is rejected as a whole.
pub open spec fn munmap_accepts(m: Map<usize, Page>, start: usize, len: usize) -> bool {
    &&& start % PAGE_SIZE == 0
    &&& len % PAGE_SIZE == 0
    &&& range_mapped(m, first_vpn(start), num_pages(len))
}

/// How a successful unmapping of [`start`, `start + len`) turns the address
/// space `m0` into `m1`: exactly the pages of the range are gone, and every
/// other mapped page is untouched — nothing outside the requested range is
/// ever unmapped.
pub open spec fn unmapped_region(
    m0: Map<usize, Page>,
    m1: Map<usize, Page>,
    start: usize,
    len: usize,
) -> bool {
    let f = first_vpn(start);
    let n = num_pages(len);
    &&& forall|v: usize| #[trigger] m1.contains_key(v) <==> m0.contains_key(v) && !(f <= v < f + n)
    &&& forall|v: usize| m1.contains_key(v) ==> #[trigger] m1[v] == m0[v]
}

/// How a successful write of `data` at address `a` turns the address space
/// `m0` into `m1`: the same pages with the same permissions, the written
/// range holds `data`, and every mapped byte outside it is unchanged.
pub open spec fn wrote_bytes(m0: Map<usize, Page>, m1: Map<usize, Page>, a: int, data: Seq<u8>) -> bool {
    &&& m1.dom() == m0.dom()
    &&& forall|v: usize| m0.contains_key(v) ==> (#[trigger] m1[v]).perm == m0[v].perm
        && m1[v].data@.len() == m0[v].data@.len()
    &&& forall|i: int| 0 <= i < data.len() ==> #[trigger] spec_byte_at(m1, a + i) == data[i]
    &&& forall|b: int| byte_mapped(m0, b) && !(a <= b < a + data.len())
        ==> #[trigger] spec_byte_at(m1, b) == spec_byte_at(m0, b)
}

impl View for AddressSpace {
    type V = Map<usize, Page>;

    closed spec fn view(&self) -> Map<usize, Page> {
        self.pages@
    }
}

impl AddressSpace {
    /// Every mapped page carries exactly `PAGE_SIZE` bytes of backing.
    pub open spec fn wf(&self) -> bool {
        pages_wf(self@)
    }

    /// An empty address space: nothing is mapped.
    pub fn new() -> (r: AddressSpace)
        ensures
            r@ == Map::<usize, Page>::empty(),
            r.wf(),
    {
        AddressSpace { pages: HashMap::new() }
    }

    /// Translate the range [`vaddr`, `vaddr + len`) and gather its bytes,
    /// resolving each byte through its own page, so a range that straddles
    /// a page boundary is read correctly.  Fails with `AddressFault` — and
    /// reads nothing — iff some byte of the range is unmapped or its page
    /// lacks the Read right.
    pub fn read_bytes(&self, vaddr: usize, len: usize) -> (r: Result<Vec<u8>, SysError>)
        requires
            self.wf(),
            vaddr + len <= usize::MAX,
        ensures
            (r is Ok) <==> range_readable(self@, vaddr as int, len as int),
            r matches Ok(bytes) ==> bytes@ == spec_read_bytes(self@, vaddr as int, len as nat),
            (r is Err) ==> r == Err::<Vec<u8>, SysError>(SysError::AddressFault),
    {
        let mut out: Vec<u8> = Vec::new();
        let mut i: usize = 0;
        while i < len
            invariant
                self.wf(),
                vaddr + len <= usize::MAX,
                i <= len,
                out@.len() == i as int,
                forall|j: int| vaddr <= j < vaddr + i ==> #[trigger] byte_readable(self@, j),
                forall|j: int| 0 <= j < i ==> out@[j] == spec_byte_at(self@, vaddr + j),
            decreases len - i,
        {
            let a = vaddr + i;
            let vpn = a / PAGE_SIZE;
            let off = a % PAGE_SIZE;
            match self.pages.get(&vpn) {
                None => {
                    proof {
                        assert(!byte_readable(self@, a as int));
                    }
                    return Err(SysError::AddressFault);
                },
                Some(page) => {
                    if !page.perm.read {
                        proof {
                            assert(!byte_readable(self@, a as int));
                        }
                        return Err(SysError::AddressFault);
                    }
                    out.push(page.data[off]);
                },
            }
            i += 1;
        }
        proof {
            assert(out@ =~= spec_read_bytes(self@, vaddr as int, len as nat));
        }
        Ok(out)
    }

    /// Translate the range [`vaddr`, `vaddr + data.len()`) and scatter
    /// `data` into it, resolving each byte through its own page, so a range
    /// that straddles a page boundary is written correctly.  Fails with
    /// `AddressFault` — and writes nothing — iff some byte of the range is
    /// unmapped or its page lacks the Write right; validation completes
    /// before the first byte is written, so no partial write is left behind.
    pub fn write_bytes(&mut self, vaddr: usize, data: &Vec<u8>) -> (r: Result<(), SysError>)
        requires
            old(self).wf(),
            vaddr + data@.len() <= usize::MAX,
        ensures
            final(self).wf(),
            (r is Ok) <==> range_writable(old(self)@, vaddr as int, data@.len() as int),
            r is Ok ==> wrote_bytes(old(self)@, final(self)@, vaddr as int, data@),
            r is Err ==> final(self)@ == old(self)@
                && r == Err::<(), SysError>(SysError::AddressFault),
    {
        let len = data.len();
        let mut i: usize = 0;
        while i < len
            invariant
                self.wf(),
                *self == *old(self),
                vaddr + len <= usize::MAX,
                len == data@.len(),
                i <= len,
                forall|j: int| vaddr <= j < vaddr + i ==> #[trigger] byte_writable(self@, j),
            decreases len - i,
        {
            let a = vaddr + i;
            let vpn = a / PAGE_SIZE;
            match self.pages.get(&vpn) {
                None => {
                    proof {
                        assert(!byte_writable(self@, a as int));
                    }
                    return Err(SysError::AddressFault);
                },
                Some(page) => {
                    if !page.perm.write {
                        proof {
                            assert(!byte_writable(self@, a as int));
                        }
                        return Err(SysError::AddressFault);
                    }
                },
            }
            i += 1;
        }
        let mut i: usize = 0;
        while i < len
            invariant
                self.wf(),
                vaddr + len <= usize::MAX,
                len == data@.len(),
                i <= len,
                range_writable(old(self)@, vaddr as int, len as int),
                self@.dom() == old(self)@.dom(),
                forall|v: usize| old(self)@.contains_key(v)
                    ==> (#[trigger] self@[v]).perm == old(self)@[v].perm
                        && self@[v].data@.len() == old(self)@[v].data@.len(),
                forall|j: int| 0 <= j < i ==> #[trigger] spec_byte_at(self@, vaddr + j) == data@[j],
                forall|b: int| byte_mapped(old(self)@, b) && !(vaddr <= b < vaddr + i)
                    ==> #[trigger] spec_byte_at(self@, b) == spec_byte_at(old(self)@, b),
            decreases len - i,
        {
            let ghost prev = self@;
            let a = vaddr + i;
            let vpn = a / PAGE_SIZE;
            let off = a % PAGE_SIZE;
            proof {
                assert(byte_writable(old(self)@, a as int));
                assert(self@.contains_key(vpn));
            }
            let page_opt = self.pages.remove(&vpn);
            let mut page = page_opt.unwrap();
            proof {
                assert(page == prev[vpn]);
                assert(page.data@.len() == PAGE_SIZE);
            }
            page.data[off] = data[i];
            let ghost gp = page;
            self.pages.insert(vpn, page);
            proof {
                assert(self@ =~= prev.insert(vpn, gp));
                assert(self@.dom() =~= prev.dom());
                assert forall|b: int|
                    byte_mapped(prev, b) && b != a implies #[trigger] spec_byte_at(self@, b)
                        == spec_byte_at(prev, b) by {
                    if vpn_of(b) == vpn as int {
                        assert(b == (PAGE_SIZE as int) * vpn_of(b) + page_offset_of(b));
                        assert(a as int == (PAGE_SIZE as int) * vpn_of(a as int)
                            + page_offset_of(a as int));
                        assert(page_offset_of(b) != off as int);
                        assert(gp.data@ == prev[vpn].data@.update(off as int, data@[i as int]));
                    }
                }
                assert(vpn_of(a as int) == vpn as int && page_offset_of(a as int) == off as int);
                assert(spec_byte_at(self@, a as int) == data@[i as int]);
                assert(byte_mapped(old(self)@, a as int));
                assert forall|j: int| 0 <= j < i + 1 implies #[trigger] spec_byte_at(
                    self@,
                    vaddr + j,
                ) == data@[j] by {
                    if j < i {
                        assert(byte_writable(old(self)@, vaddr + j));
                        assert(byte_mapped(prev, vaddr + j));
                        assert(vaddr + j != a as int);
                    }
                }
            }
            i += 1;
        }
        Ok(())
    }

    /// Install the region of `len` bytes (rounded up to whole pages) at the
    /// page-aligned address `start`, zero-initialized with permissions
    /// `perm`.  Fails with `RegionOverlap` — and maps nothing — iff any page
    /// of the range is already mapped, so live regions never overlap.
    pub fn map_region(&mut self, start: usize, len: usize, perm: Perm) -> (r: Result<(), SysError>)
        requires
            old(self).wf(),
            start % PAGE_SIZE == 0,
        ensures
            final(self).wf(),
            (r is Ok) <==> range_unmapped(old(self)@, first_vpn(start), num_pages(len)),
            r is Ok ==> mapped_region(old(self)@, final(self)@, start, len, perm),
            r is Err ==> final(self)@ == old(self)@
                && r == Err::<(), SysError>(SysError::RegionOverlap),
    {
        let f = start / PAGE_SIZE;
        let n = len / PAGE_SIZE + if len % PAGE_SIZE == 0 { 0 } else { 1 };
        proof {
            lemma_vpn_range_fits(start, len);
        }
        let mut k: usize = 0;
        while k < n
            invariant
                self.wf(),
                *self == *old(self),
                f == first_vpn(start),
                n == num_pages(len),
                f + n <= usize::MAX,
                k <= n,
                forall|v: usize| f <= v < f + k ==> !(#[trigger] self@.contains_key(v)),
            decreases n - k,
        {
            if self.pages.contains_key(&(f + k)) {
                return Err(SysError::RegionOverlap);
            }
            k += 1;
        }
        let mut k: usize = 0;
        while k < n
            invariant
                self.wf(),
                f == first_vpn(start),
                n == num_pages(len),
                f + n <= usize::MAX,
                k <= n,
                range_unmapped(old(self)@, f as int, n as int),
                forall|v: usize| #[trigger] self@.contains_key(v) <==> old(self)@.contains_key(v)
                    || (f <= v < f + k),
                forall|v: usize| old(self)@.contains_key(v) ==> #[trigger] self@[v] == old(
                    self,
                )@[v],
                forall|v: usize| f <= v < f + k ==> (#[trigger] self@[v]).perm == perm
                    && self@[v].data@.len() == PAGE_SIZE
                    && forall|off: int| 0 <= off < PAGE_SIZE ==> self@[v].data@[off] == 0u8,
            decreases n - k,
        {
            let ghost prev = self@;
            let data: Vec<u8> = vec![0u8; PAGE_SIZE];
            let page = Page { perm, data };
            let ghost gp = page;
            self.pages.insert(f + k, page);
            proof {
                assert(self@ == prev.insert((f + k) as usize, gp));
            }
            k += 1;
        }
        Ok(())
    }

    /// Remove every page of [`start`, `start + len`), both page-aligned,
    /// and its backing.  Fails with `RegionNotMapped` — and unmaps
    /// nothing — iff any page of the range is not currently mapped; pages
    /// outside the requested range are never touched.
    pub fn unmap_region(&mut self, start: usize, len: usize) -> (r: Result<(), SysError>)
        requires
            old(self).wf(),
            start % PAGE_SIZE == 0,
            len % PAGE_SIZE == 0,
        ensures
            final(self).wf(),
            (r is Ok) <==> range_mapped(old(self)@, first_vpn(start), num_pages(len)),
            r is Ok ==> unmapped_region(old(self)@, final(self)@, start, len),
            r is Err ==> final(self)@ == old(self)@
                && r == Err::<(), SysError>(SysError::RegionNotMapped),
    {
        let f = start / PAGE_SIZE;
        let n = len / PAGE_SIZE;
        proof {
            lemma_vpn_range_fits(start, len);
        }
        let mut k: usize = 0;
        while k < n
            invariant
                self.wf(),
                *self == *old(self),
                f == first_vpn(start),
                n == num_pages(len),
                f + n <= usize::MAX,
                k <= n,
                forall|v: usize| f <= v < f + k ==> #[trigger] self@.contains_key(v),
            decreases n - k,
        {
            if !self.pages.contains_key(&(f + k)) {
                return Err(SysError::RegionNotMapped);
            }
            k += 1;
        }
        let mut k: usize = 0;
        while k < n
            invariant
                self.wf(),
                f == first_vpn(start),
                n == num_pages(len),
                f + n <= usize::MAX,
                k <= n,
                range_mapped(old(self)@, f as int, n as int),
                forall|v: usize| #[trigger] self@.contains_key(v) <==> old(self)@.contains_key(v)
                    && !(f <= v < f + k),
                forall|v: usize| self@.contains_key(v) ==> #[trigger] self@[v] == old(self)@[v],
            decreases n - k,
        {
            let ghost prev = self@;
            self.pages.remove(&(f + k));
            proof {
                assert(self@ == prev.remove((f + k) as usize));
            }
            k += 1;
        }
        Ok(())
    }

    /// The validated mapping operation at the core boundary: checks the
    /// protection word, then the start's alignment, then the rounded range
    /// for overlap, and installs the region only if all three pass, each
    /// failure with its own error.  The syscall ABI adapter collapses the
    /// taxonomy into its single sentinel.
    pub fn mmap(&mut self, start: usize, len: usize, prot: usize) -> (r: Result<(), SysError>)
        requires
            old(self).wf(),
        ensures
            final(self).wf(),
            (r is Ok) <==> mmap_accepts(old(self)@, start, len, prot),
            r is Ok ==> mapped_region(old(self)@, final(self)@, start, len, spec_perm_from_bits(prot)),
            r is Err ==> final(self)@ == old(self)@,
            !crate::perm::valid_prot_bits(prot) ==> r == Err::<(), SysError>(
                SysError::InvalidPermission,
            ),
            crate::perm::valid_prot_bits(prot) && start % PAGE_SIZE != 0 ==> r == Err::<
                (),
                SysError,
            >(SysError::InvalidAlignment),
            crate::perm::valid_prot_bits(prot) && start % PAGE_SIZE == 0 && !range_unmapped(
                old(self)@,
                first_vpn(start),
                num_pages(len),
            ) ==> r == Err::<(), SysError>(SysError::RegionOverlap),
    {
        let perm = match Perm::from_bits(prot) {
            Some(p) => p,
            None => {
                return Err(SysError::InvalidPermission);
            },
        };
        if start % PAGE_SIZE != 0 {
            return Err(SysError::InvalidAlignment);
        }
        self.map_region(start, len, perm)
    }

    /// The validated unmapping operation at the core boundary: checks both
    /// alignments, then that the whole range is live, and removes it only
    /// if all pass, each failure with its own error.  The syscall ABI
    /// adapter collapses the taxonomy into its single sentinel.
    pub fn munmap(&mut self, start: usize, len: usize) -> (r: Result<(), SysError>)
        requires
            old(self).wf(),
        ensures
            final(self).wf(),
            (r is Ok) <==> munmap_accepts(old(self)@, start, len),
            r is Ok ==> unmapped_region(old(self)@, final(self)@, start, len),
            r is Err ==> final(self)@ == old(self)@,
            start % PAGE_SIZE != 0 || len % PAGE_SIZE != 0 ==> r == Err::<(), SysError>(
                SysError::InvalidAlignment,
            ),
            start % PAGE_SIZE == 0 && len % PAGE_SIZE == 0 && !range_mapped(
                old(self)@,
                first_vpn(start),
                num_pages(len),
            ) ==> r == Err::<(), SysError>(SysError::RegionNotMapped),
    {
        if start % PAGE_SIZE != 0 || len % PAGE_SIZE != 0 {
            return Err(SysError::InvalidAlignment);
        }
        self.unmap_region(start, len)
    }
}

/// The page numbers of any byte range within the address space fit in a
/// `usize` with room to spare: a range's first page number and its page
/// count are each at most `usize::MAX / PAGE_SIZE`, give or take one.
proof fn lemma_vpn_range_fits(start: usize, len: usize)
    ensures
        0 <= first_vpn(start),
        0 <= num_pages(len),
        first_vpn(start) + num_pages(len) <= usize::MAX,
{
    let p = PAGE_SIZE as int;
    assert(first_vpn(start) <= usize::MAX as int / p);
    assert(num_pages(len) <= usize::MAX as int / p + 1);
    assert(p * (usize::MAX as int / p) + usize::MAX as int % p == usize::MAX as int);
    assert(usize::MAX as int / p >= 1);
    assert(2 * (usize::MAX as int / p) + 1 <= usize::MAX as int);
}

} // verus!
