//! Foreign page windows: guest memory of one target domain mapped into
//! host virtual address space.
//!
//! A [`PhysicalPages`] owns the loaded physical-to-machine table of its
//! domain and the list of live mapping windows. Translation of a guest
//! page-frame range into a host pointer is decided entirely here;
//! reserving host windows and filling them with foreign frames are kernel
//! calls the unverified shell performs between [`PhysicalPages::alloc_plan`]
//! and [`PhysicalPages::add_window`]. No two live windows with real
//! page-frame origins ever overlap in guest frame space.

use crate::error::Error;
use crate::sys::XEN_PAGE_SIZE;
use vstd::prelude::*;

verus! {

/// One live mapping window: `count` guest pages starting at guest frame
/// `pfn`, mapped at host address `ptr`. A window made from raw machine
/// frames carries the sentinel frame number instead and never answers a
/// frame-based lookup.
#[derive(Debug, Clone, Copy, PartialEq, Eq, Structural)]
pub struct PhysicalPage {
    /// First guest page-frame number, or the sentinel for windows of raw
    /// machine frames.
    pub pfn: u64,
    /// Host virtual base address of the window.
    pub ptr: u64,
    /// Number of pages the window maps.
    pub count: u64,
}

impl PhysicalPage {
    /// Whether the window stems from raw machine frames and is excluded
    /// from frame-based lookups.
    pub open spec fn is_sentinel(&self) -> bool {
        self.pfn == u64::MAX
    }

    /// The window's arithmetic stays within the host word: its byte
    /// length and its end address fit, and a real window's frame range
    /// has an end.
    pub open spec fn wf(&self) -> bool {
        &&& self.ptr + self.count * XEN_PAGE_SIZE <= u64::MAX
        &&& (!self.is_sentinel() ==> self.pfn + self.count <= u64::MAX)
    }

    /// Whether the window fully covers the frame range
    /// `[pfn, pfn + count)`.
    pub open spec fn covers(&self, pfn: u64, count: u64) -> bool {
        &&& !self.is_sentinel()
        &&& self.pfn <= pfn
        &&& pfn + count <= self.pfn + self.count
    }

    /// Whether the window intersects the frame range
    /// `[pfn, pfn + count)`.
    pub open spec fn intersects(&self, pfn: u64, count: u64) -> bool {
        &&& !self.is_sentinel()
        &&& pfn < self.pfn + self.count
        &&& pfn + count > self.pfn
    }

    /// Whether the window contains the single frame `pfn`.
    pub open spec fn contains_pfn(&self, pfn: u64) -> bool {
        &&& !self.is_sentinel()
        &&& self.pfn <= pfn < self.pfn + self.count
    }

    /// Whether two windows occupy disjoint guest frame ranges.
    pub open spec fn disjoint(&self, other: &PhysicalPage) -> bool {
        self.pfn + self.count <= other.pfn || other.pfn + other.count <= self.pfn
    }
}

/// What a frame-range translation found.
#[derive(Debug, Clone, Copy, PartialEq, Eq, Structural)]
pub enum Translation {
    /// The range is live: the host address of its first byte.
    Mapped(u64),
    /// No window touches the range; a new window must be allocated.
    NeedsAlloc,
}

/// All foreign mappings of one target domain: its identity, the loaded
/// physical-to-machine table, and the live windows.
#[derive(Debug, Clone)]
pub struct PhysicalPages {
    domid: u32,
    p2m: Vec<u64>,
    pages: Vec<PhysicalPage>,
}

impl PhysicalPages {
    /// The target domain this window set belongs to.
    pub closed spec fn spec_domid(&self) -> u32 {
        self.domid
    }

    /// The loaded physical-to-machine table: machine frame numbers
    /// indexed by guest frame number.
    pub closed spec fn spec_p2m(&self) -> Seq<u64> {
        self.p2m@
    }

    /// The live mapping windows, in creation order.
    pub closed spec fn windows(&self) -> Seq<PhysicalPage> {
        self.pages@
    }

    /// Every window's arithmetic is in bounds, and no two windows with
    /// real frame origins overlap in guest frame space.
    pub open spec fn wf(&self) -> bool {
        &&& forall|k: int| 0 <= k < self.windows().len() ==> (#[trigger] self.windows()[k]).wf()
        &&& forall|k: int, l: int|
            #![trigger self.windows()[k], self.windows()[l]]
            0 <= k < l < self.windows().len() && !self.windows()[k].is_sentinel()
                && !self.windows()[l].is_sentinel() ==> self.windows()[k].disjoint(
                &self.windows()[l],
            )
    }

    /// Law: any two live windows with real frame origins occupy disjoint
    /// guest frame ranges.
    pub proof fn lemma_window_non_overlap(&self, k: int, l: int)
        requires
            self.wf(),
            0 <= k < self.windows().len(),
            0 <= l < self.windows().len(),
            k != l,
            !self.windows()[k].is_sentinel(),
            !self.windows()[l].is_sentinel(),
        ensures
            self.windows()[k].pfn + self.windows()[k].count <= self.windows()[l].pfn
                || self.windows()[l].pfn + self.windows()[l].count <= self.windows()[k].pfn,
    {
        if k < l {
            assert(self.windows()[k].disjoint(&self.windows()[l]));
        } else {
            assert(self.windows()[l].disjoint(&self.windows()[k]));
        }
    }

    /// A window set for one target domain, with no table loaded and no
    /// window live.
    pub fn new(domid: u32) -> (r: PhysicalPages)
        ensures
            r.wf(),
            r.spec_domid() == domid,
            r.spec_p2m().len() == 0,
            r.windows().len() == 0,
    {
        PhysicalPages { domid, p2m: Vec::new(), pages: Vec::new() }
    }

    /// Installs the domain's physical-to-machine table. It is loaded
    /// once, before any translation, and read-only thereafter.
    pub fn load_p2m(&mut self, p2m: Vec<u64>)
        requires
            old(self).wf(),
        ensures
            final(self).wf(),
            final(self).spec_p2m() == p2m@,
            final(self).windows() == old(self).windows(),
            final(self).spec_domid() == old(self).spec_domid(),
    {
        self.p2m = p2m;
        proof {
            assert(self.windows() == old(self).windows());
            assert forall|k: int| 0 <= k < self.windows().len() implies (
            #[trigger] self.windows()[k]).wf() by {
                assert(old(self).windows()[k].wf());
            }
        }
    }

    /// The number of guest pages the loaded table describes.
    pub fn p2m_size(&self) -> (r: u64)
        ensures
            r == self.spec_p2m().len(),
    {
        self.p2m.len() as u64
    }

    /// How many windows are live.
    pub fn window_count(&self) -> (r: usize)
        ensures
            r == self.windows().len(),
    {
        self.pages.len()
    }

    /// Translates the guest frame range `[pfn, pfn + count)` against the
    /// live windows.
    ///
    /// With a positive count the range must lie inside a single window:
    /// a range that only partly overlaps some window cannot yield one
    /// contiguous host pointer and is refused. With a count of zero the
    /// call is a translation-only lookup of `pfn` that never allocates;
    /// a miss is refused. When no window touches a positive range at
    /// all, the caller is told to allocate a fresh window. A returned
    /// address is always the window base plus the page offset of `pfn`
    /// within the window.
    pub fn pfn_to_ptr(&self, pfn: u64, count: u64) -> (r: Result<Translation, Error>)
        requires
            self.wf(),
            pfn + count <= u64::MAX,
        ensures
            match r {
                Ok(Translation::Mapped(addr)) => exists|j: int|
                    0 <= j < self.windows().len() && (#[trigger] self.windows()[j]).contains_pfn(
                        pfn,
                    ) && (count > 0 ==> self.windows()[j].covers(pfn, count)) && addr
                        == self.windows()[j].ptr + (pfn - self.windows()[j].pfn) * XEN_PAGE_SIZE,
                Ok(Translation::NeedsAlloc) => count > 0 && forall|j: int|
                    0 <= j < self.windows().len() ==> !(#[trigger] self.windows()[j]).intersects(
                        pfn,
                        count,
                    ),
                Err(e) => {
                    if count == 0 {
                        &&& e == Error::MemorySetupFailed("page count is zero")
                        &&& forall|j: int|
                            0 <= j < self.windows().len() ==> !(
                            #[trigger] self.windows()[j]).contains_pfn(pfn)
                    } else {
                        &&& e == Error::MemorySetupFailed("pfn is out of range")
                        &&& (exists|j: int|
                            0 <= j < self.windows().len() && (#[trigger] self.windows()[j]).intersects(
                                pfn,
                                count,
                            ))
                        &&& forall|j: int|
                            0 <= j < self.windows().len() ==> !(#[trigger] self.windows()[j]).covers(
                                pfn,
                                count,
                            )
                    }
                },
            },
    {
        let n = self.pages.len();
        let mut k: usize = 0;
        while k < n
            invariant
                self.wf(),
                n == self.windows().len(),
                k <= n,
                pfn + count <= u64::MAX,
                count > 0 ==> forall|j: int|
                    0 <= j < k ==> !(#[trigger] self.windows()[j]).intersects(pfn, count),
                count == 0 ==> forall|j: int|
                    0 <= j < k ==> !(#[trigger] self.windows()[j]).contains_pfn(pfn),
            decreases n - k,
        {
            let page = self.pages[k];
            if page.pfn == u64::MAX {
                k = k + 1;
                continue ;
            }
            if pfn >= page.pfn + page.count {
                k = k + 1;
                continue ;
            }
            if count > 0 {
                if pfn + count <= page.pfn {
                    k = k + 1;
                    continue ;
                }
                if pfn < page.pfn || pfn + count > page.pfn + page.count {
                    proof {
                        assert(self.windows()[k as int].intersects(pfn, count));
                        assert forall|j: int|
                            0 <= j < self.windows().len() implies !(
                        #[trigger] self.windows()[j]).covers(pfn, count) by {
                            if j != k {
                                if !self.windows()[j].is_sentinel() {
                                    if j < k {
                                        assert(self.windows()[j].disjoint(&self.windows()[k as int]));
                                    } else {
                                        assert(self.windows()[k as int].disjoint(&self.windows()[j]));
                                    }
                                }
                            }
                        }
                    }
                    return Err(Error::MemorySetupFailed("pfn is out of range"));
                }
                proof {
                    assert(self.windows()[k as int].covers(pfn, count));
                }
                return Ok(Translation::Mapped(page.ptr + (pfn - page.pfn) * XEN_PAGE_SIZE));
            } else {
                if pfn < page.pfn {
                    k = k + 1;
                    continue ;
                }
                proof {
                    assert(self.windows()[k as int].contains_pfn(pfn));
                }
                return Ok(Translation::Mapped(page.ptr + (pfn - page.pfn) * XEN_PAGE_SIZE));
            }
        }
        if count == 0 {
            Err(Error::MemorySetupFailed("page count is zero"))
        } else {
            Ok(Translation::NeedsAlloc)
        }
    }

    /// The machine frames behind the guest range `[pfn, pfn + count)`,
    /// read from the loaded table, and the byte length of the host window
    /// that must be reserved for them. The shell reserves that window,
    /// performs the batched mapping of these frames into it, and then
    /// registers the window. One table entry stands for one native page,
    /// the logical and native page sizes being equal.
    pub fn alloc_plan(&self, pfn: u64, count: u64) -> (r: AllocPlan)
        requires
            pfn + count <= self.spec_p2m().len(),
            count * XEN_PAGE_SIZE <= u64::MAX,
        ensures
            r.mfns@.len() == count,
            forall|i: int| 0 <= i < count ==> r.mfns@[i] == self.spec_p2m()[pfn + i],
            r.mmap_len == count * XEN_PAGE_SIZE,
    {
        let total = self.p2m.len();
        let mut mfns: Vec<u64> = Vec::new();
        let mut i: u64 = 0;
        while i < count
            invariant
                i <= count,
                pfn + count <= total,
                total == self.spec_p2m().len(),
                mfns@.len() == i,
                forall|j: int| 0 <= j < i ==> mfns@[j] == self.spec_p2m()[pfn + j],
            decreases count - i,
        {
            mfns.push(self.p2m[(pfn + i) as usize]);
            i = i + 1;
        }
        AllocPlan { mfns, mmap_len: count * XEN_PAGE_SIZE }
    }

    /// The machine frames of a one-shot mapping of `size` bytes of raw
    /// contiguous machine frames starting at `mfn`, rounded up to whole
    /// pages. The window registered for it carries the sentinel frame
    /// number, so it never answers frame-based lookups but is torn down
    /// with the rest.
    pub fn foreign_plan(&self, mfn: u64, size: u64) -> (r: AllocPlan)
        requires
            size + XEN_PAGE_SIZE - 1 <= u64::MAX,
            mfn + (size + XEN_PAGE_SIZE - 1) / (XEN_PAGE_SIZE as int) <= u64::MAX,
        ensures
            r.mfns@.len() == (size + XEN_PAGE_SIZE - 1) / (XEN_PAGE_SIZE as int),
            forall|i: int| 0 <= i < r.mfns@.len() ==> r.mfns@[i] == mfn + i,
            r.mmap_len == r.mfns@.len() * XEN_PAGE_SIZE,
            r.mmap_len <= size + XEN_PAGE_SIZE - 1,
    {
        let num = (size + (XEN_PAGE_SIZE - 1)) / XEN_PAGE_SIZE;
        proof {
            vstd::arithmetic::div_mod::lemma_fundamental_div_mod(
                (size + XEN_PAGE_SIZE - 1) as int,
                XEN_PAGE_SIZE as int,
            );
            vstd::arithmetic::div_mod::lemma_mod_bound(
                (size + XEN_PAGE_SIZE - 1) as int,
                XEN_PAGE_SIZE as int,
            );
            assert(num * XEN_PAGE_SIZE <= size + XEN_PAGE_SIZE - 1);
        }
        let mut mfns: Vec<u64> = Vec::new();
        let mut i: u64 = 0;
        while i < num
            invariant
                i <= num,
                mfn + num <= u64::MAX,
                mfns@.len() == i,
                forall|j: int| 0 <= j < i ==> mfns@[j] == mfn + j,
            decreases num - i,
        {
            mfns.push(mfn + i);
            i = i + 1;
        }
        AllocPlan { mfns, mmap_len: num * XEN_PAGE_SIZE }
    }

    /// Registers a window the shell has reserved and filled: `count`
    /// pages of guest frames from `pfn` on (or raw machine frames, under
    /// the sentinel), mapped at `addr`. A real window is accepted only
    /// when its frame range is free of every live window, which is the
    /// case whenever translation asked for the allocation; the overlap
    /// invariant therefore survives every registration.
    pub fn add_window(&mut self, pfn: u64, addr: u64, count: u64) -> (r: Result<(), Error>)
        requires
            old(self).wf(),
            addr + count * XEN_PAGE_SIZE <= u64::MAX,
            pfn != u64::MAX ==> pfn + count <= u64::MAX,
        ensures
            final(self).wf(),
            final(self).spec_domid() == old(self).spec_domid(),
            final(self).spec_p2m() == old(self).spec_p2m(),
            match r {
                Ok(()) => final(self).windows() == old(self).windows().push(
                    PhysicalPage { pfn, ptr: addr, count },
                ),
                Err(e) => {
                    &&& e == Error::MemorySetupFailed("window overlaps a live window")
                    &&& final(self).windows() == old(self).windows()
                    &&& pfn != u64::MAX
                    &&& exists|j: int|
                        0 <= j < old(self).windows().len() && (
                        #[trigger] old(self).windows()[j]).intersects(pfn, count)
                },
            },
    {
        let page = PhysicalPage { pfn, ptr: addr, count };
        if pfn != u64::MAX {
            let n = self.pages.len();
            let mut k: usize = 0;
            while k < n
                invariant
                    self.wf(),
                    n == self.windows().len(),
                    k <= n,
                    pfn != u64::MAX,
                    pfn + count <= u64::MAX,
                    forall|j: int|
                        0 <= j < k ==> !(#[trigger] self.windows()[j]).intersects(pfn, count),
                decreases n - k,
            {
                let live = self.pages[k];
                if live.pfn != u64::MAX && pfn < live.pfn + live.count && pfn + count > live.pfn {
                    proof {
                        assert(self.windows()[k as int].intersects(pfn, count));
                    }
                    return Err(Error::MemorySetupFailed("window overlaps a live window"));
                }
                k = k + 1;
            }
        }
        self.pages.push(page);
        proof {
            assert forall|k: int| 0 <= k < self.windows().len() implies (
            #[trigger] self.windows()[k]).wf() by {
                if k < self.windows().len() - 1 {
                    assert(old(self).windows()[k].wf());
                }
            }
            assert forall|k: int, l: int|
                #![trigger self.windows()[k], self.windows()[l]]
                0 <= k < l < self.windows().len() && !self.windows()[k].is_sentinel()
                    && !self.windows()[l].is_sentinel() implies self.windows()[k].disjoint(
                &self.windows()[l],
            ) by {
                if l < self.windows().len() - 1 {
                    assert(old(self).windows()[k].disjoint(&old(self).windows()[l]));
                } else {
                    assert(!old(self).windows()[k].intersects(pfn, count));
                }
            }
        }
        Ok(())
    }

    /// Finds the window that starts at guest frame `pfn`, yielding its
    /// position, host base and byte length for the shell to unmap; only
    /// a window starting exactly there can be unmapped, and a miss is
    /// refused.
    pub fn unmap_plan(&self, pfn: u64) -> (r: Result<(usize, u64, u64), Error>)
        requires
            self.wf(),
        ensures
            match r {
                Ok((idx, ptr, len)) => {
                    &&& 0 <= idx < self.windows().len()
                    &&& self.windows()[idx as int].pfn == pfn
                    &&& ptr == self.windows()[idx as int].ptr
                    &&& len == self.windows()[idx as int].count * XEN_PAGE_SIZE
                    &&& forall|j: int| 0 <= j < idx ==> (#[trigger] self.windows()[j]).pfn != pfn
                },
                Err(e) => {
                    &&& e == Error::MemorySetupFailed("cannot unmap missing page")
                    &&& forall|j: int|
                        0 <= j < self.windows().len() ==> (#[trigger] self.windows()[j]).pfn != pfn
                },
            },
    {
        let n = self.pages.len();
        let mut k: usize = 0;
        while k < n
            invariant
                self.wf(),
                n == self.windows().len(),
                k <= n,
                forall|j: int| 0 <= j < k ==> (#[trigger] self.windows()[j]).pfn != pfn,
            decreases n - k,
        {
            let page = self.pages[k];
            if page.pfn == pfn {
                return Ok((k, page.ptr, page.count * XEN_PAGE_SIZE));
            }
            k = k + 1;
        }
        Err(Error::MemorySetupFailed("cannot unmap missing page"))
    }

    /// Drops the window at `idx` from the list once the shell has
    /// unmapped it.
    pub fn remove_window(&mut self, idx: usize)
        requires
            old(self).wf(),
            idx < old(self).windows().len(),
        ensures
            final(self).wf(),
            final(self).spec_domid() == old(self).spec_domid(),
            final(self).spec_p2m() == old(self).spec_p2m(),
            final(self).windows() == old(self).windows().remove(idx as int),
    {
        self.pages.remove(idx);
        proof {
            assert forall|k: int| 0 <= k < self.windows().len() implies (
            #[trigger] self.windows()[k]).wf() by {
                if k < idx {
                    assert(old(self).windows()[k].wf());
                } else {
                    assert(old(self).windows()[k + 1].wf());
                }
            }
            assert forall|k: int, l: int|
                #![trigger self.windows()[k], self.windows()[l]]
                0 <= k < l < self.windows().len() && !self.windows()[k].is_sentinel()
                    && !self.windows()[l].is_sentinel() implies self.windows()[k].disjoint(
                &self.windows()[l],
            ) by {
                let k0: int = if k < idx {
                    k
                } else {
                    k + 1
                };
                let l0: int = if l < idx {
                    l
                } else {
                    l + 1
                };
                assert(self.windows()[k] == old(self).windows()[k0]);
                assert(self.windows()[l] == old(self).windows()[l0]);
                assert(old(self).windows()[k0].disjoint(&old(self).windows()[l0]));
            }
        }
    }

    /// The host base and byte length of every live window, in list
    /// order, for a bulk teardown by the shell.
    pub fn unmap_all_plan(&self) -> (r: Vec<(u64, u64)>)
        requires
            self.wf(),
        ensures
            r@.len() == self.windows().len(),
            forall|k: int|
                0 <= k < r@.len() ==> (#[trigger] r@[k]).0 == self.windows()[k].ptr && r@[k].1
                    == self.windows()[k].count * XEN_PAGE_SIZE,
    {
        let n = self.pages.len();
        let mut out: Vec<(u64, u64)> = Vec::new();
        let mut k: usize = 0;
        while k < n
            invariant
                self.wf(),
                n == self.windows().len(),
                k <= n,
                out@.len() == k,
                forall|j: int|
                    0 <= j < k ==> (#[trigger] out@[j]).0 == self.windows()[j].ptr && out@[j].1
                        == self.windows()[j].count * XEN_PAGE_SIZE,
            decreases n - k,
        {
            let page = self.pages[k];
            out.push((page.ptr, page.count * XEN_PAGE_SIZE));
            k = k + 1;
        }
        out
    }

    /// Empties the window list once the shell has unmapped every window.
    pub fn clear_windows(&mut self)
        requires
            old(self).wf(),
        ensures
            final(self).wf(),
            final(self).spec_domid() == old(self).spec_domid(),
            final(self).spec_p2m() == old(self).spec_p2m(),
            final(self).windows().len() == 0,
    {
        self.pages.clear();
    }
}

/// What the shell needs to allocate one window: the machine frames to
/// map, and the byte length of the host reservation that receives them.
#[derive(Debug, Clone)]
pub struct AllocPlan {
    /// Machine frame numbers, one per native page.
    pub mfns: Vec<u64>,
    /// Byte length of the host window to reserve.
    pub mmap_len: u64,
}

} // verus!
