//! IMSIC addressing: which interrupt file a guest sees, and where it lives in
//! the guest's IMSIC address space.

use vstd::prelude::*;

verus! {

/// Number of IMSIC groups the platform's address layout can name.
pub const IMSIC_MAX_GROUPS: u32 = 16;

/// Number of interrupt files (supervisor file plus guest files) per hart.
pub const IMSIC_MAX_GUESTS: u32 = 64;

/// Number of interrupt-file pages addressable within one group.
pub const IMSIC_MAX_PAGES: u32 = 512;

/// Number of interrupt identities of one interrupt file; identity 0 is reserved.
pub const IMSIC_MAX_INTERRUPTS: u32 = 2048;

/// Index of one interrupt file (guest or hart) of an IMSIC.
#[derive(Clone, Copy, Debug, PartialEq, Eq, Structural)]
pub struct ImsicGuestId {
    index: u32,
}

impl ImsicGuestId {
    #[verifier::type_invariant]
    spec fn inv(self) -> bool {
        self.index < IMSIC_MAX_GUESTS
    }

    pub closed spec fn spec_index(self) -> u32 {
        self.index
    }

    /// Accepts `index` when it is below `IMSIC_MAX_GUESTS`.
    pub fn new(index: u32) -> (r: Option<ImsicGuestId>)
        ensures
            r is Some <==> index < IMSIC_MAX_GUESTS,
            r matches Some(g) ==> g.spec_index() == index,
    {
        if index < IMSIC_MAX_GUESTS {
            Some(ImsicGuestId { index })
        } else {
            None
        }
    }

    pub fn index(&self) -> (r: u32)
        ensures
            r == self.spec_index(),
            r < IMSIC_MAX_GUESTS,
    {
        proof {
            use_type_invariant(self);
        }
        self.index
    }
}

/// Index of one interrupt-file page within an IMSIC group.
#[derive(Clone, Copy, Debug, PartialEq, Eq, Structural)]
pub struct ImsicGuestPage {
    index: u32,
}

impl ImsicGuestPage {
    #[verifier::type_invariant]
    spec fn inv(self) -> bool {
        self.index < IMSIC_MAX_PAGES
    }

    pub closed spec fn spec_index(self) -> u32 {
        self.index
    }

    /// Accepts `index` when it is below `IMSIC_MAX_PAGES`.
    pub fn new(index: u32) -> (r: Option<ImsicGuestPage>)
        ensures
            r is Some <==> index < IMSIC_MAX_PAGES,
            r matches Some(p) ==> p.spec_index() == index,
    {
        if index < IMSIC_MAX_PAGES {
            Some(ImsicGuestPage { index })
        } else {
            None
        }
    }

    pub fn index(&self) -> (r: u32)
        ensures
            r == self.spec_index(),
            r < IMSIC_MAX_PAGES,
    {
        proof {
            use_type_invariant(self);
        }
        self.index
    }
}

/// Identity of one interrupt within an interrupt file.
#[derive(Clone, Copy, Debug, PartialEq, Eq, Structural)]
pub struct ImsicInterruptId {
    id: u32,
}

impl ImsicInterruptId {
    #[verifier::type_invariant]
    spec fn inv(self) -> bool {
        0 < self.id < IMSIC_MAX_INTERRUPTS
    }

    pub closed spec fn spec_id(self) -> u32 {
        self.id
    }

    /// Accepts `id` when it is a usable identity: not zero and below `IMSIC_MAX_INTERRUPTS`.
    pub fn new(id: u32) -> (r: Option<ImsicInterruptId>)
        ensures
            r is Some <==> 0 < id < IMSIC_MAX_INTERRUPTS,
            r matches Some(i) ==> i.spec_id() == id,
    {
        if 0 < id && id < IMSIC_MAX_INTERRUPTS {
            Some(ImsicInterruptId { id })
        } else {
            None
        }
    }

    pub fn id(&self) -> (r: u32)
        ensures
            r == self.spec_id(),
            0 < r < IMSIC_MAX_INTERRUPTS,
    {
        proof {
            use_type_invariant(self);
        }
        self.id
    }
}

/// One virtual interrupt-file page in a guest's IMSIC address space.
#[derive(Clone, Copy, Debug, PartialEq, Eq, PartialOrd, Ord, Structural)]
pub struct ImsicLocation {
    pub group: u32,
    pub guest: u32,
    pub page: u32,
}

/// Number of distinct well-formed locations.
pub open spec fn imsic_slot_count() -> int {
    IMSIC_MAX_GROUPS * IMSIC_MAX_GUESTS * IMSIC_MAX_PAGES
}

impl ImsicLocation {
    /// Each component lies within the platform's IMSIC geometry.
    pub open spec fn valid(self) -> bool {
        self.group < IMSIC_MAX_GROUPS && self.guest < IMSIC_MAX_GUESTS && self.page
            < IMSIC_MAX_PAGES
    }

    /// Position of the location in a dense numbering of all well-formed locations.
    pub open spec fn slot(self) -> int {
        (self.group * IMSIC_MAX_GUESTS + self.guest) * IMSIC_MAX_PAGES + self.page
    }

    /// Composes a location from its group, interrupt file and page.
    pub fn new(group: u32, guest: ImsicGuestId, page: ImsicGuestPage) -> (r: Option<ImsicLocation>)
        ensures
            r is Some <==> group < IMSIC_MAX_GROUPS,
            r matches Some(l) ==> l.valid() && l == (ImsicLocation {
                group,
                guest: guest.spec_index(),
                page: page.spec_index(),
            }),
    {
        proof {
            use_type_invariant(&guest);
            use_type_invariant(&page);
        }
        if group < IMSIC_MAX_GROUPS {
            Some(ImsicLocation { group, guest: guest.index(), page: page.index() })
        } else {
            None
        }
    }

    pub fn is_valid(&self) -> (r: bool)
        ensures
            r == self.valid(),
    {
        self.group < IMSIC_MAX_GROUPS && self.guest < IMSIC_MAX_GUESTS && self.page
            < IMSIC_MAX_PAGES
    }

    /// The dense slot number of a well-formed location.
    pub fn slot_index(&self) -> (r: u64)
        requires
            self.valid(),
        ensures
            r == self.slot(),
            0 <= self.slot() < imsic_slot_count(),
    {
        proof {
            lemma_slot_bounds(*self);
        }
        ((self.group as u64) * (IMSIC_MAX_GUESTS as u64) + (self.guest as u64)) * (
        IMSIC_MAX_PAGES as u64) + (self.page as u64)
    }
}

/// Slots of well-formed locations lie in `0 .. imsic_slot_count()`.
pub proof fn lemma_slot_bounds(l: ImsicLocation)
    requires
        l.valid(),
    ensures
        0 <= l.slot() < imsic_slot_count(),
{
    assert(0 <= l.slot() < imsic_slot_count()) by (nonlinear_arith)
        requires
            l.group < 16,
            l.guest < 64,
            l.page < 512,
            l.slot() == (l.group * 64 + l.guest) * 512 + l.page,
            imsic_slot_count() == 16 * 64 * 512,
    ;
}

/// Two well-formed locations share a slot only if they are the same location.
pub proof fn lemma_slot_injective(a: ImsicLocation, b: ImsicLocation)
    requires
        a.valid(),
        b.valid(),
        a.slot() == b.slot(),
    ensures
        a == b,
{
    assert(a.group == b.group && a.guest == b.guest && a.page == b.page) by (nonlinear_arith)
        requires
            a.guest < 64,
            a.page < 512,
            b.guest < 64,
            b.page < 512,
            (a.group * 64 + a.guest) * 512 + a.page == (b.group * 64 + b.guest) * 512 + b.page,
    ;
}

} // verus!
