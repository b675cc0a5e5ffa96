//! The MSI page table: the translation that redirects a device's interrupt writes
//! for an IMSIC location to a physical interrupt-file page owned by the same VM.

use vstd::prelude::*;

use std::collections::HashMap;

use crate::error::Error;
use crate::imsic::{lemma_slot_bounds, lemma_slot_injective, ImsicLocation};
use crate::pages::{all_aligned, all_owned_by, Page, PagePool, VmId};

verus! {

/// Number of backing pages an MSI page table needs.
pub const MSI_TABLE_PAGES: usize = 4;

/// Key of a location's leaf entry.
pub open spec fn leaf_key(l: ImsicLocation) -> u64 {
    l.slot() as u64
}

/// An MSI page table serving one VM, backed by pages of that VM.
pub struct MsiPageTable {
    owner: VmId,
    pages: Vec<Page>,
    leaves: HashMap<u64, u64>,
}

impl View for MsiPageTable {
    /// The installed translations: location to destination page address.
    type V = Map<ImsicLocation, u64>;

    closed spec fn view(&self) -> Map<ImsicLocation, u64> {
        Map::new(
            |l: ImsicLocation| l.valid() && self.leaves@.contains_key(leaf_key(l)),
            |l: ImsicLocation| self.leaves@[leaf_key(l)],
        )
    }
}

/// The pages a table for a pool of pages `s` is built from: the last `MSI_TABLE_PAGES`.
pub open spec fn table_pages(s: Seq<Page>) -> Seq<Page> {
    s.subrange(s.len() - MSI_TABLE_PAGES, s.len() as int)
}

/// Why a table for `owner` cannot be built from the pool `s`, if it cannot.
pub open spec fn table_error(s: Seq<Page>, owner: VmId) -> Option<Error> {
    if s.len() < MSI_TABLE_PAGES {
        Some(Error::InsufficientMsiTablePages)
    } else if !all_aligned(table_pages(s)) {
        Some(Error::MisalignedMsiTablePages)
    } else if !all_owned_by(table_pages(s), owner) {
        Some(Error::UnownedMsiTablePages)
    } else {
        None
    }
}

/// Outcome of mapping `loc` to `dest` in a table of `owner` holding the translations `m`.
pub open spec fn map_result(
    m: Map<ImsicLocation, u64>,
    owner: VmId,
    loc: ImsicLocation,
    dest: Page,
) -> Result<(), Error> {
    if dest.owner != owner {
        Err(Error::MsiPageNotOwned(dest.addr))
    } else if !loc.valid() {
        Err(Error::InvalidImsicLocation(loc))
    } else if m.contains_key(loc) {
        Err(Error::MsiAlreadyMapped(loc))
    } else {
        Ok(())
    }
}

/// Outcome of unmapping `loc` from a table holding the translations `m`.
pub open spec fn unmap_result(m: Map<ImsicLocation, u64>, loc: ImsicLocation) -> Result<(), Error> {
    if !loc.valid() {
        Err(Error::InvalidImsicLocation(loc))
    } else if !m.contains_key(loc) {
        Err(Error::MsiNotMapped(loc))
    } else {
        Ok(())
    }
}

impl MsiPageTable {
    /// The VM whose pages back the table and whose pages it may point at.
    pub closed spec fn spec_owner(self) -> VmId {
        self.owner
    }

    /// The pages that store the table.
    pub closed spec fn backing(self) -> Seq<Page> {
        self.pages@
    }

    /// The backing pages are as many as needed, aligned and owned by the table's VM.
    pub open spec fn wf(self) -> bool {
        &&& self.backing().len() == MSI_TABLE_PAGES
        &&& all_aligned(self.backing())
        &&& all_owned_by(self.backing(), self.spec_owner())
        &&& forall|l: ImsicLocation| #[trigger] self@.contains_key(l) ==> l.valid()
    }

    /// Builds an empty table for `owner` from the last `MSI_TABLE_PAGES` pages of `pool`.
    /// Fails, taking nothing from the pool, with `InsufficientMsiTablePages` when the pool
    /// is too small, `MisalignedMsiTablePages` when one of those pages is misaligned, and
    /// `UnownedMsiTablePages` when one of them belongs to another VM.
    pub fn new(pool: &mut PagePool, owner: VmId) -> (r: Result<MsiPageTable, Error>)
        ensures
            r is Ok <==> table_error(old(pool)@, owner) is None,
            r matches Err(e) ==> table_error(old(pool)@, owner) == Some(e) && final(pool)@ == old(
                pool,
            )@,
            r matches Ok(t) ==> {
                &&& t.wf()
                &&& t@ == Map::<ImsicLocation, u64>::empty()
                &&& t.spec_owner() == owner
                &&& t.backing() == table_pages(old(pool)@)
                &&& final(pool)@ == old(pool)@.subrange(0, old(pool)@.len() - MSI_TABLE_PAGES)
            },
    {
        let len = pool.len();
        if len < MSI_TABLE_PAGES {
            return Err(Error::InsufficientMsiTablePages);
        }
        let start = len - MSI_TABLE_PAGES;
        let ghost cand = table_pages(pool@);
        let mut i: usize = start;
        while i < len
            invariant
                start <= i <= len,
                len == pool@.len(),
                start == len - MSI_TABLE_PAGES,
                cand == table_pages(pool@),
                forall|j: int| 0 <= j < i - start ==> (#[trigger] cand[j]).aligned(),
            decreases len - i,
        {
            if !pool.get(i).is_aligned() {
                assert(!cand[i - start].aligned());
                return Err(Error::MisalignedMsiTablePages);
            }
            i = i + 1;
        }
        let mut i: usize = start;
        while i < len
            invariant
                start <= i <= len,
                len == pool@.len(),
                start == len - MSI_TABLE_PAGES,
                cand == table_pages(pool@),
                all_aligned(cand),
                forall|j: int| 0 <= j < i - start ==> (#[trigger] cand[j]).owner == owner,
            decreases len - i,
        {
            if pool.get(i).owner != owner {
                assert(cand[i - start].owner != owner);
                return Err(Error::UnownedMsiTablePages);
            }
            i = i + 1;
        }
        let pages = match pool.allocate(MSI_TABLE_PAGES) {
            Ok(pages) => pages,
            Err(e) => {
                return Err(e);
            },
        };
        let t = MsiPageTable { owner, pages, leaves: HashMap::new() };
        assert(t@ =~= Map::<ImsicLocation, u64>::empty());
        Ok(t)
    }

    /// The VM the table serves.
    pub fn owner(&self) -> (r: VmId)
        ensures
            r == self.spec_owner(),
    {
        self.owner
    }

    /// The destination page address installed for `loc`, if any.
    pub fn translate(&self, loc: &ImsicLocation) -> (r: Option<u64>)
        ensures
            r == (if self@.contains_key(*loc) {
                Some(self@[*loc])
            } else {
                None::<u64>
            }),
    {
        if !loc.is_valid() {
            return None;
        }
        let key = loc.slot_index();
        match self.leaves.get(&key) {
            Some(v) => Some(*v),
            None => None,
        }
    }

    /// Installs `dest` as the destination of `loc`. Fails, leaving the table unchanged,
    /// with `MsiPageNotOwned` when `dest` belongs to another VM, `InvalidImsicLocation`
    /// when `loc` is out of range, and `MsiAlreadyMapped` when `loc` already has one.
    pub fn map(&mut self, loc: ImsicLocation, dest: Page) -> (r: Result<(), Error>)
        requires
            old(self).wf(),
        ensures
            final(self).wf(),
            final(self).spec_owner() == old(self).spec_owner(),
            final(self).backing() == old(self).backing(),
            r == map_result(old(self)@, old(self).spec_owner(), loc, dest),
            r is Ok ==> final(self)@ == old(self)@.insert(loc, dest.addr),
            r is Err ==> *final(self) == *old(self),
    {
        if dest.owner != self.owner {
            return Err(Error::MsiPageNotOwned(dest.addr));
        }
        if !loc.is_valid() {
            return Err(Error::InvalidImsicLocation(loc));
        }
        let key = loc.slot_index();
        if self.leaves.contains_key(&key) {
            return Err(Error::MsiAlreadyMapped(loc));
        }
        let ghost before = self@;
        self.leaves.insert(key, dest.addr);
        proof {
            lemma_slot_bounds(loc);
            assert forall|l: ImsicLocation|
                l.valid() && leaf_key(l) == leaf_key(loc) implies l == loc by {
                lemma_slot_bounds(l);
                lemma_slot_injective(l, loc);
            }
            assert(self@ =~= before.insert(loc, dest.addr));
        }
        Ok(())
    }

    /// Removes the destination of `loc`. Fails, leaving the table unchanged, with
    /// `InvalidImsicLocation` when `loc` is out of range and `MsiNotMapped` when it has none.
    /// The backing pages stay with the table.
    pub fn unmap(&mut self, loc: ImsicLocation) -> (r: Result<(), Error>)
        requires
            old(self).wf(),
        ensures
            final(self).wf(),
            final(self).spec_owner() == old(self).spec_owner(),
            final(self).backing() == old(self).backing(),
            r == unmap_result(old(self)@, loc),
            r is Ok ==> final(self)@ == old(self)@.remove(loc),
            r is Err ==> *final(self) == *old(self),
    {
        if !loc.is_valid() {
            return Err(Error::InvalidImsicLocation(loc));
        }
        let key = loc.slot_index();
        if !self.leaves.contains_key(&key) {
            return Err(Error::MsiNotMapped(loc));
        }
        let ghost before = self@;
        self.leaves.remove(&key);
        proof {
            lemma_slot_bounds(loc);
            assert forall|l: ImsicLocation|
                l.valid() && leaf_key(l) == leaf_key(loc) implies l == loc by {
                lemma_slot_bounds(l);
                lemma_slot_injective(l, loc);
            }
            assert(self@ =~= before.remove(loc));
        }
        Ok(())
    }

    /// Tears the table down, giving its backing pages back to `pool`.
    pub fn destroy(self, pool: &mut PagePool)
        ensures
            final(pool)@ == old(pool)@ + self.backing(),
    {
        pool.release(self.pages);
    }
}

/// A pool with fewer pages than a table needs is refused with
/// `InsufficientMsiTablePages` (and construction then leaves the pool as it was).
pub proof fn lemma_too_few_pages_refused(s: Seq<Page>, owner: VmId)
    requires
        s.len() < MSI_TABLE_PAGES,
    ensures
        table_error(s, owner) == Some(Error::InsufficientMsiTablePages),
{
}

/// A destination page that the table's VM does not own is refused with
/// `MsiPageNotOwned`, whatever the table holds and whatever the location.
pub proof fn lemma_unowned_destination_rejected(
    m: Map<ImsicLocation, u64>,
    owner: VmId,
    loc: ImsicLocation,
    dest: Page,
)
    requires
        dest.owner != owner,
    ensures
        map_result(m, owner, loc, dest) == Err::<(), Error>(Error::MsiPageNotOwned(dest.addr)),
{
}

/// Once a location is mapped, mapping it again to any page of the owner fails with
/// `MsiAlreadyMapped`.
pub proof fn lemma_map_twice_fails(
    m: Map<ImsicLocation, u64>,
    owner: VmId,
    loc: ImsicLocation,
    first: Page,
    second: Page,
)
    requires
        map_result(m, owner, loc, first) is Ok,
        second.owner == owner,
    ensures
        map_result(m.insert(loc, first.addr), owner, loc, second) == Err::<(), Error>(
            Error::MsiAlreadyMapped(loc),
        ),
{
}

/// After a location is mapped and unmapped, unmapping it again fails with `MsiNotMapped`.
pub proof fn lemma_unmap_twice_fails(
    m: Map<ImsicLocation, u64>,
    owner: VmId,
    loc: ImsicLocation,
    dest: Page,
)
    requires
        map_result(m, owner, loc, dest) is Ok,
    ensures
        unmap_result(m.insert(loc, dest.addr), loc) is Ok,
        unmap_result(m.insert(loc, dest.addr).remove(loc), loc) == Err::<(), Error>(
            Error::MsiNotMapped(loc),
        ),
{
}

/// Map, unmap, then map to another page of the owner succeeds and installs the new
/// page, leaving every other location as it was before the first map.
pub proof fn lemma_remap_after_unmap(
    m: Map<ImsicLocation, u64>,
    owner: VmId,
    loc: ImsicLocation,
    first: Page,
    second: Page,
)
    requires
        map_result(m, owner, loc, first) is Ok,
        second.owner == owner,
    ensures
        unmap_result(m.insert(loc, first.addr), loc) is Ok,
        map_result(m.insert(loc, first.addr).remove(loc), owner, loc, second) is Ok,
        m.insert(loc, first.addr).remove(loc).insert(loc, second.addr) == m.insert(
            loc,
            second.addr,
        ),
        m.insert(loc, first.addr).remove(loc).insert(loc, second.addr)[loc] == second.addr,
{
    assert(m.insert(loc, first.addr).remove(loc).insert(loc, second.addr) =~= m.insert(
        loc,
        second.addr,
    ));
}

} // verus!
