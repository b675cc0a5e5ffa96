//! IOMMU device identifiers and the directory of active device contexts.

use vstd::prelude::*;

use std::collections::HashMap;

use vstd::set_lib::lemma_map_size;

use crate::error::Error;
use crate::msi_page_table::MsiPageTable;
use crate::pages::VmId;
use crate::pci::Address;

verus! {

/// Width in bits of an IOMMU device ID.
pub const DEVICE_ID_BITS: u32 = 24;

/// Number of PCI segments that fit in a device ID above the 16 bus/device/function bits.
pub const DEVICE_ID_SEGMENTS: u16 = 256;

/// The device ID that a PCI address maps to: segment, bus, device and function
/// packed from the most significant end.
pub open spec fn device_id_of(a: Address) -> int {
    a.segment * 65536 + a.bus * 256 + a.device * 8 + a.function
}

/// The address fits the device-ID width.
pub open spec fn fits_device_id(a: Address) -> bool {
    a.segment < DEVICE_ID_SEGMENTS
}

/// IOMMU-internal identifier of a device, derived from its PCI address.
#[derive(Clone, Copy, Debug, PartialEq, Eq, Structural)]
pub struct DeviceId {
    raw: u32,
}

impl DeviceId {
    pub closed spec fn spec_bits(self) -> int {
        self.raw as int
    }

    /// The device ID that `DeviceId::new` derives from an address that fits.
    pub closed spec fn from_address(a: Address) -> DeviceId {
        DeviceId { raw: device_id_of(a) as u32 }
    }

    /// Derives the device ID of `addr`, or fails with `PciAddressTooLarge` when the
    /// address does not fit the device-ID width.
    pub fn new(addr: Address) -> (r: Result<DeviceId, Error>)
        requires
            addr.wf(),
        ensures
            r is Ok <==> fits_device_id(addr),
            r matches Ok(id) ==> id == DeviceId::from_address(addr) && id.spec_bits()
                == device_id_of(addr),
            r matches Err(e) ==> e == Error::PciAddressTooLarge(addr),
    {
        if addr.segment >= DEVICE_ID_SEGMENTS {
            return Err(Error::PciAddressTooLarge(addr));
        }
        let raw: u32 = (addr.segment as u32) * 65536 + (addr.bus as u32) * 256 + (addr.device as u32)
            * 8 + (addr.function as u32);
        Ok(DeviceId { raw })
    }

    /// The numeric device ID.
    pub fn bits(&self) -> (r: u32)
        ensures
            r == self.spec_bits(),
    {
        self.raw
    }
}

/// Device IDs of distinct well-formed addresses that fit the width are distinct,
/// and each lies below `2^DEVICE_ID_BITS`.
pub proof fn lemma_device_id_injective(a: Address, b: Address)
    requires
        a.wf(),
        b.wf(),
        fits_device_id(a),
        fits_device_id(b),
    ensures
        device_id_of(a) == device_id_of(b) <==> a == b,
        DeviceId::from_address(a) == DeviceId::from_address(b) <==> a == b,
        DeviceId::from_address(a).spec_bits() == device_id_of(a),
        0 <= device_id_of(a) < 0x1000000,
{
}

/// An attached device: the VM that owns it, its MSI page table, and whether it is enabled.
pub struct DeviceContext {
    id: DeviceId,
    owner: VmId,
    table: MsiPageTable,
    enabled: bool,
}

impl DeviceContext {
    pub closed spec fn spec_id(self) -> DeviceId {
        self.id
    }

    /// The VM that owns the device, as recorded from its G-stage table.
    pub closed spec fn spec_owner(self) -> VmId {
        self.owner
    }

    pub closed spec fn msi(self) -> MsiPageTable {
        self.table
    }

    pub closed spec fn spec_enabled(self) -> bool {
        self.enabled
    }

    /// The MSI table is well formed and serves the device's owner.
    pub open spec fn wf(self) -> bool {
        self.msi().wf() && self.msi().spec_owner() == self.spec_owner()
    }

    /// A new, enabled context for device `id` owned by `owner`.
    pub fn new(id: DeviceId, owner: VmId, table: MsiPageTable) -> (r: DeviceContext)
        ensures
            r.spec_id() == id,
            r.spec_owner() == owner,
            r.msi() == table,
            r.spec_enabled(),
    {
        DeviceContext { id, owner, table, enabled: true }
    }

    pub fn id(&self) -> (r: DeviceId)
        ensures
            r == self.spec_id(),
    {
        self.id
    }

    pub fn owner(&self) -> (r: VmId)
        ensures
            r == self.spec_owner(),
    {
        self.owner
    }

    pub fn enabled(&self) -> (r: bool)
        ensures
            r == self.spec_enabled(),
    {
        self.enabled
    }

    pub fn table(&self) -> (r: &MsiPageTable)
        ensures
            *r == self.msi(),
    {
        &self.table
    }

    /// Mutable access to the MSI table; the rest of the context is kept.
    pub fn table_mut(&mut self) -> (r: &mut MsiPageTable)
        ensures
            *r == old(self).msi(),
            final(self).msi() == *final(r),
            final(self).spec_id() == old(self).spec_id(),
            final(self).spec_owner() == old(self).spec_owner(),
            final(self).spec_enabled() == old(self).spec_enabled(),
    {
        &mut self.table
    }

    /// Gives up the context, handing back its MSI table.
    pub fn into_table(self) -> (r: MsiPageTable)
        ensures
            r == self.msi(),
    {
        self.table
    }
}

/// The active device contexts, at most one per device ID.
pub struct DeviceDirectory {
    contexts: HashMap<u32, DeviceContext>,
}

impl View for DeviceDirectory {
    type V = Map<DeviceId, DeviceContext>;

    closed spec fn view(&self) -> Map<DeviceId, DeviceContext> {
        Map::new(
            |d: DeviceId| self.contexts@.contains_key(d.raw),
            |d: DeviceId| self.contexts@[d.raw],
        )
    }
}

impl DeviceDirectory {
    /// Each context sits under its own device ID and is well formed.
    pub open spec fn wf(self) -> bool {
        forall|d: DeviceId| #[trigger]
            self@.contains_key(d) ==> self@[d].spec_id() == d && self@[d].wf()
    }

    pub fn new() -> (r: DeviceDirectory)
        ensures
            r@ == Map::<DeviceId, DeviceContext>::empty(),
            r.wf(),
    {
        let r = DeviceDirectory { contexts: HashMap::new() };
        assert(r@ =~= Map::<DeviceId, DeviceContext>::empty());
        r
    }

    pub fn contains(&self, id: DeviceId) -> (r: bool)
        ensures
            r == self@.contains_key(id),
    {
        self.contexts.contains_key(&id.raw)
    }

    pub fn get(&self, id: DeviceId) -> (r: Option<&DeviceContext>)
        ensures
            r matches Some(c) ==> self@.contains_key(id) && *c == self@[id],
            r is None ==> !self@.contains_key(id),
    {
        self.contexts.get(&id.raw)
    }

    /// Publishes `ctx` under its device ID, which must be free.
    pub fn insert(&mut self, ctx: DeviceContext)
        requires
            !old(self)@.contains_key(ctx.spec_id()),
        ensures
            final(self)@ == old(self)@.insert(ctx.spec_id(), ctx),
            old(self).wf() && ctx.wf() ==> final(self).wf(),
    {
        let ghost before = self@;
        let ghost id = ctx.spec_id();
        self.contexts.insert(ctx.id.raw, ctx);
        assert(self@ =~= before.insert(id, ctx));
    }

    /// Takes the context of `id` out of the directory.
    pub fn remove(&mut self, id: DeviceId) -> (r: Option<DeviceContext>)
        ensures
            final(self)@ == old(self)@.remove(id),
            old(self).wf() ==> final(self).wf(),
            r matches Some(c) ==> old(self)@.contains_key(id) && c == old(self)@[id] && (old(
                self,
            ).wf() ==> c.wf()),
            r is None ==> !old(self)@.contains_key(id),
    {
        let ghost before = self@;
        let r = self.contexts.remove(&id.raw);
        assert(self@ =~= before.remove(id));
        r
    }

    /// Number of attached devices.
    pub fn len(&self) -> (r: usize)
        ensures
            r == self@.len(),
    {
        proof {
            let f = |k: u32| DeviceId { raw: k };
            let keys = self.contexts@.dom();
            assert(keys.map(f) =~= self@.dom()) by {
                assert forall|d: DeviceId| self@.dom().contains(d) implies keys.map(f).contains(
                    d,
                ) by {
                    assert(f(d.raw) == d);
                }
            }
            lemma_map_size(keys, self@.dom(), f);
        }
        self.contexts.len()
    }
}

} // verus!
