//! Physical pages as handed out by the page pool: an address and the VM that owns it.

use vstd::prelude::*;

use crate::error::Error;

verus! {

/// Size of a base page.
pub const PAGE_SIZE: u64 = 4096;

/// Identity of a VM as recorded by the page-ownership authority.
#[derive(Clone, Copy, Debug, PartialEq, Eq, Structural)]
pub struct VmId(pub u64);

/// A physical page: its address and its owning VM.
#[derive(Clone, Copy, Debug, PartialEq, Eq, Structural)]
pub struct Page {
    pub addr: u64,
    pub owner: VmId,
}

impl Page {
    pub open spec fn aligned(self) -> bool {
        self.addr % PAGE_SIZE == 0
    }

    pub fn is_aligned(&self) -> (r: bool)
        ensures
            r == self.aligned(),
    {
        self.addr % PAGE_SIZE == 0
    }
}

/// Every page of `s` is aligned to `PAGE_SIZE`.
pub open spec fn all_aligned(s: Seq<Page>) -> bool {
    forall|i: int| 0 <= i < s.len() ==> (#[trigger] s[i]).aligned()
}

/// Every page of `s` is owned by `vm`.
pub open spec fn all_owned_by(s: Seq<Page>, vm: VmId) -> bool {
    forall|i: int| 0 <= i < s.len() ==> (#[trigger] s[i]).owner == vm
}

/// A pool of pages available for table storage. Pages are handed out from the end.
pub struct PagePool {
    pages: Vec<Page>,
}

impl View for PagePool {
    type V = Seq<Page>;

    closed spec fn view(&self) -> Seq<Page> {
        self.pages@
    }
}

impl PagePool {
    pub fn new(pages: Vec<Page>) -> (r: PagePool)
        ensures
            r@ == pages@,
    {
        PagePool { pages }
    }

    pub fn len(&self) -> (r: usize)
        ensures
            r == self@.len(),
    {
        self.pages.len()
    }

    /// The page at position `i`.
    pub fn get(&self, i: usize) -> (r: Page)
        requires
            i < self@.len(),
        ensures
            r == self@[i as int],
    {
        self.pages[i]
    }

    /// The `n` pages that `allocate(n)` would hand out, in pool order.
    pub open spec fn tail(self, n: nat) -> Seq<Page> {
        self@.subrange(self@.len() - n, self@.len() as int)
    }

    /// Takes the last `n` pages of the pool, or fails with `OutOfPages` (pool unchanged)
    /// when fewer than `n` remain.
    pub fn allocate(&mut self, n: usize) -> (r: Result<Vec<Page>, Error>)
        ensures
            n <= old(self)@.len() ==> r is Ok,
            r matches Ok(v) ==> v@ == old(self).tail(n as nat) && final(self)@ == old(self)@.subrange(
                0,
                old(self)@.len() - n,
            ),
            r matches Err(e) ==> n > old(self)@.len() && e == Error::OutOfPages && final(self)@
                == old(self)@,
    {
        let len = self.pages.len();
        if n > len {
            return Err(Error::OutOfPages);
        }
        let taken = self.pages.split_off(len - n);
        Ok(taken)
    }

    /// Gives `pages` back to the pool.
    pub fn release(&mut self, pages: Vec<Page>)
        ensures
            final(self)@ == old(self)@ + pages@,
    {
        let mut pages = pages;
        self.pages.append(&mut pages);
    }
}

} // verus!
