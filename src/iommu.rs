//! The IOMMU facade: probes and validates the physical IOMMU, and attaches devices
//! to VMs and maintains their MSI translations on the VM-management layer's behalf.

use vstd::prelude::*;

use crate::device_directory::{fits_device_id, DeviceContext, DeviceDirectory, DeviceId};
use crate::error::Error;
use crate::imsic::ImsicLocation;
use crate::msi_page_table::{
    map_result, table_error, table_pages, unmap_result, MsiPageTable, MSI_TABLE_PAGES,
};
use crate::pages::{Page, PagePool, VmId};
use crate::pci::{Address, Bar, PciDevice, PciError};

verus! {

/// PCI vendor ID of the supported IOMMU.
pub const IOMMU_VENDOR_ID: u16 = 0x1efd;

/// PCI device ID of the supported IOMMU.
pub const IOMMU_DEVICE_ID: u16 = 0xedf1;

/// Size of the IOMMU register set.
pub const IOMMU_REGS_SIZE: u64 = 4096;

/// Alignment the register set must have.
pub const IOMMU_REGS_ALIGN: u64 = 4096;

/// Capability bit: G-stage translation with the Sv48x4 scheme.
pub const CAP_GSTAGE_SV48X4: u64 = 0x2_0000;

/// Capability bit: flat MSI page tables.
pub const CAP_MSI_FLAT: u64 = 0x40_0000;

/// Why a register block with BAR `bar` and capabilities `caps` is unusable, if it is.
pub open spec fn registers_error(bar: Bar, caps: u64) -> Option<Error> {
    if bar.size != IOMMU_REGS_SIZE {
        Some(Error::InvalidRegisterSize(bar.size))
    } else if bar.base % IOMMU_REGS_ALIGN != 0 {
        Some(Error::MisalignedRegisters)
    } else if caps & CAP_GSTAGE_SV48X4 == 0 {
        Some(Error::MissingGStageSupport)
    } else if caps & CAP_MSI_FLAT == 0 {
        Some(Error::MissingMsiSupport)
    } else {
        None
    }
}

/// Why probing the PCI function `d` fails, if it does.
pub open spec fn probe_error(d: PciDevice) -> Option<Error> {
    if d.vendor_id != IOMMU_VENDOR_ID || d.device_id != IOMMU_DEVICE_ID {
        Some(
            Error::ProbingIommu(
                PciError::UnexpectedDevice { vendor_id: d.vendor_id, device_id: d.device_id },
            ),
        )
    } else if d.owned {
        Some(Error::ProbingIommu(PciError::DeviceOwned))
    } else {
        match d.registers {
            None => Some(Error::MissingRegisters),
            Some(bar) => registers_error(bar, d.capabilities),
        }
    }
}

/// The validated register block of the IOMMU.
#[derive(Clone, Copy, Debug)]
pub struct IommuRegisters {
    base: u64,
    size: u64,
    capabilities: u64,
}

impl IommuRegisters {
    pub closed spec fn spec_base(self) -> u64 {
        self.base
    }

    pub closed spec fn spec_size(self) -> u64 {
        self.size
    }

    pub closed spec fn spec_capabilities(self) -> u64 {
        self.capabilities
    }

    /// Size, alignment and both required capabilities are as the IOMMU must have them.
    pub open spec fn valid(self) -> bool {
        registers_error(Bar { base: self.spec_base(), size: self.spec_size() }, self.spec_capabilities())
            is None
    }

    /// Validates the register block found in `bar` with capability register `caps`.
    pub fn new(bar: Bar, caps: u64) -> (r: Result<IommuRegisters, Error>)
        ensures
            r is Ok <==> registers_error(bar, caps) is None,
            r matches Err(e) ==> registers_error(bar, caps) == Some(e),
            r matches Ok(regs) ==> regs.valid() && regs.spec_base() == bar.base && regs.spec_size()
                == bar.size && regs.spec_capabilities() == caps,
    {
        if bar.size != IOMMU_REGS_SIZE {
            return Err(Error::InvalidRegisterSize(bar.size));
        }
        if bar.base % IOMMU_REGS_ALIGN != 0 {
            return Err(Error::MisalignedRegisters);
        }
        if caps & CAP_GSTAGE_SV48X4 == 0 {
            return Err(Error::MissingGStageSupport);
        }
        if caps & CAP_MSI_FLAT == 0 {
            return Err(Error::MissingMsiSupport);
        }
        Ok(IommuRegisters { base: bar.base, size: bar.size, capabilities: caps })
    }

    pub fn base(&self) -> (r: u64)
        ensures
            r == self.spec_base(),
    {
        self.base
    }

    pub fn size(&self) -> (r: u64)
        ensures
            r == self.spec_size(),
    {
        self.size
    }

    pub fn capabilities(&self) -> (r: u64)
        ensures
            r == self.spec_capabilities(),
    {
        self.capabilities
    }
}

/// Outcome of `enable_device` for address `addr` on directory `devs` and page pool `pool`.
pub open spec fn enable_result(
    devs: Map<DeviceId, DeviceContext>,
    addr: Address,
    owner: VmId,
    pool: Seq<Page>,
) -> Result<DeviceId, Error> {
    let id = DeviceId::from_address(addr);
    if !fits_device_id(addr) {
        Err(Error::PciAddressTooLarge(addr))
    } else if devs.contains_key(id) {
        Err(Error::DeviceAlreadyEnabled(id))
    } else {
        match table_error(pool, owner) {
            Some(e) => Err(e),
            None => Ok(id),
        }
    }
}

/// Outcome of `disable_device` for `id` on directory `devs`.
pub open spec fn disable_result(devs: Map<DeviceId, DeviceContext>, id: DeviceId) -> Result<
    (),
    Error,
> {
    if !devs.contains_key(id) {
        Err(Error::DeviceNotFound(id))
    } else if !devs[id].spec_enabled() {
        Err(Error::DeviceNotEnabled(id))
    } else {
        Ok(())
    }
}

/// Outcome of `map_msi` of `loc` to `target` for device `id` on directory `devs`.
pub open spec fn map_msi_result(
    devs: Map<DeviceId, DeviceContext>,
    id: DeviceId,
    loc: ImsicLocation,
    target: Page,
) -> Result<(), Error> {
    if !devs.contains_key(id) {
        Err(Error::DeviceNotFound(id))
    } else {
        map_result(devs[id].msi()@, devs[id].spec_owner(), loc, target)
    }
}

/// Outcome of `unmap_msi` of `loc` for device `id` on directory `devs`.
pub open spec fn unmap_msi_result(
    devs: Map<DeviceId, DeviceContext>,
    id: DeviceId,
    loc: ImsicLocation,
) -> Result<(), Error> {
    if !devs.contains_key(id) {
        Err(Error::DeviceNotFound(id))
    } else {
        unmap_result(devs[id].msi()@, loc)
    }
}

/// `after` is `before` with a fresh, enabled context for `id` owned by `owner`, with an
/// empty MSI table stored in `backing`.
pub open spec fn attached(
    before: Map<DeviceId, DeviceContext>,
    after: Map<DeviceId, DeviceContext>,
    id: DeviceId,
    owner: VmId,
    backing: Seq<Page>,
) -> bool {
    &&& !before.contains_key(id)
    &&& after.contains_key(id)
    &&& after.remove(id) == before
    &&& after[id].spec_owner() == owner
    &&& after[id].spec_enabled()
    &&& after[id].msi()@ == Map::<ImsicLocation, u64>::empty()
    &&& after[id].msi().backing() == backing
}

/// `after` is `before` with the context of `id` holding `msi` as its translations and
/// everything else kept.
pub open spec fn msi_updated(
    before: Map<DeviceId, DeviceContext>,
    after: Map<DeviceId, DeviceContext>,
    id: DeviceId,
    msi: Map<ImsicLocation, u64>,
) -> bool {
    &&& before.contains_key(id)
    &&& after.contains_key(id)
    &&& after.remove(id) == before.remove(id)
    &&& after[id].spec_id() == before[id].spec_id()
    &&& after[id].spec_owner() == before[id].spec_owner()
    &&& after[id].spec_enabled() == before[id].spec_enabled()
    &&& after[id].msi().spec_owner() == before[id].msi().spec_owner()
    &&& after[id].msi().backing() == before[id].msi().backing()
    &&& after[id].msi()@ == msi
}

/// Attaching a device and then detaching it leaves the directory as it was before,
/// with no entry for the device, and detaching it once more fails with `DeviceNotFound`.
pub proof fn lemma_attach_then_detach(
    before: Map<DeviceId, DeviceContext>,
    attached_devs: Map<DeviceId, DeviceContext>,
    id: DeviceId,
    owner: VmId,
    backing: Seq<Page>,
)
    requires
        attached(before, attached_devs, id, owner, backing),
    ensures
        disable_result(attached_devs, id) is Ok,
        attached_devs.remove(id) == before,
        !attached_devs.remove(id).contains_key(id),
        disable_result(attached_devs.remove(id), id) == Err::<(), Error>(Error::DeviceNotFound(id)),
{
}

/// Enabling a device that is already enabled, without disabling it in between, fails
/// with `DeviceAlreadyEnabled`, whatever the owner and pages of the second attempt.
pub proof fn lemma_double_enable_fails(
    before: Map<DeviceId, DeviceContext>,
    attached_devs: Map<DeviceId, DeviceContext>,
    addr: Address,
    owner: VmId,
    pool: Seq<Page>,
    backing: Seq<Page>,
    other_owner: VmId,
    other_pool: Seq<Page>,
)
    requires
        enable_result(before, addr, owner, pool) is Ok,
        attached(before, attached_devs, DeviceId::from_address(addr), owner, backing),
    ensures
        enable_result(attached_devs, addr, other_owner, other_pool) == Err::<DeviceId, Error>(
            Error::DeviceAlreadyEnabled(DeviceId::from_address(addr)),
        ),
{
}

/// Disabling a device that is not attached fails with `DeviceNotFound`.
pub proof fn lemma_disable_unattached_fails(devs: Map<DeviceId, DeviceContext>, id: DeviceId)
    requires
        !devs.contains_key(id),
    ensures
        disable_result(devs, id) == Err::<(), Error>(Error::DeviceNotFound(id)),
{
}

/// Mapping a target page that the device's VM does not own fails with `MsiPageNotOwned`,
/// whatever the device's MSI table holds and whatever the location.
pub proof fn lemma_unowned_target_rejected(
    devs: Map<DeviceId, DeviceContext>,
    id: DeviceId,
    loc: ImsicLocation,
    target: Page,
)
    requires
        devs.contains_key(id),
        target.owner != devs[id].spec_owner(),
    ensures
        map_msi_result(devs, id, loc, target) == Err::<(), Error>(
            Error::MsiPageNotOwned(target.addr),
        ),
{
}

/// The IOMMU: its validated registers and the directory of attached devices.
pub struct Iommu {
    registers: IommuRegisters,
    devices: DeviceDirectory,
}

impl Iommu {
    pub closed spec fn spec_registers(self) -> IommuRegisters {
        self.registers
    }

    /// The attached devices' contexts, by device ID.
    pub closed spec fn devices(self) -> Map<DeviceId, DeviceContext> {
        self.devices@
    }

    pub closed spec fn wf(self) -> bool {
        self.registers.valid() && self.devices.wf()
    }

    /// Every attached context sits under its own ID, is well formed, and its MSI
    /// table serves the device's owner.
    pub proof fn lemma_wf_contexts(self)
        requires
            self.wf(),
        ensures
            self.spec_registers().valid(),
            forall|d: DeviceId| #[trigger]
                self.devices().contains_key(d) ==> self.devices()[d].spec_id() == d
                    && self.devices()[d].wf(),
    {
    }

    /// Takes over the IOMMU's PCI function `pci` and validates its register block.
    /// On failure `pci` is left untouched and no IOMMU is produced; on success the
    /// function is marked owned and the IOMMU starts with no attached devices.
    pub fn probe_and_enable(pci: &mut PciDevice) -> (r: Result<Iommu, Error>)
        ensures
            r is Ok <==> probe_error(*old(pci)) is None,
            r matches Err(e) ==> probe_error(*old(pci)) == Some(e) && *final(pci) == *old(pci),
            r matches Ok(iommu) ==> {
                &&& iommu.wf()
                &&& iommu.devices() == Map::<DeviceId, DeviceContext>::empty()
                &&& old(pci).registers == Some(
                    Bar { base: iommu.spec_registers().spec_base(), size: iommu.spec_registers().spec_size() },
                )
                &&& iommu.spec_registers().spec_capabilities() == old(pci).capabilities
                &&& *final(pci) == (PciDevice { owned: true, ..*old(pci) })
            },
    {
        if pci.vendor_id != IOMMU_VENDOR_ID || pci.device_id != IOMMU_DEVICE_ID {
            return Err(
                Error::ProbingIommu(
                    PciError::UnexpectedDevice { vendor_id: pci.vendor_id, device_id: pci.device_id },
                ),
            );
        }
        if pci.owned {
            return Err(Error::ProbingIommu(PciError::DeviceOwned));
        }
        let bar = match pci.registers {
            Some(bar) => bar,
            None => {
                return Err(Error::MissingRegisters);
            },
        };
        let registers = match IommuRegisters::new(bar, pci.capabilities) {
            Ok(regs) => regs,
            Err(e) => {
                return Err(e);
            },
        };
        pci.owned = true;
        Ok(Iommu { registers, devices: DeviceDirectory::new() })
    }

    /// The validated register block.
    pub fn registers(&self) -> (r: IommuRegisters)
        ensures
            r == self.spec_registers(),
    {
        self.registers
    }

    /// Attaches the device at `addr` to VM `owner`, building its MSI page table from
    /// `pool`. Fails with `PciAddressTooLarge`, `DeviceAlreadyEnabled`, or the table's
    /// construction error, in that order; a failure publishes nothing and takes no page.
    pub fn enable_device(&mut self, addr: Address, owner: VmId, pool: &mut PagePool) -> (r: Result<
        DeviceId,
        Error,
    >)
        requires
            old(self).wf(),
            addr.wf(),
        ensures
            final(self).wf(),
            final(self).spec_registers() == old(self).spec_registers(),
            r == enable_result(old(self).devices(), addr, owner, old(pool)@),
            r is Err ==> final(self).devices() == old(self).devices() && final(pool)@ == old(
                pool,
            )@,
            r matches Ok(id) ==> {
                &&& attached(
                    old(self).devices(),
                    final(self).devices(),
                    id,
                    owner,
                    table_pages(old(pool)@),
                )
                &&& final(pool)@ == old(pool)@.subrange(0, old(pool)@.len() - MSI_TABLE_PAGES)
            },
    {
        let id = match DeviceId::new(addr) {
            Ok(id) => id,
            Err(e) => {
                return Err(e);
            },
        };
        if self.devices.contains(id) {
            return Err(Error::DeviceAlreadyEnabled(id));
        }
        let table = match MsiPageTable::new(pool, owner) {
            Ok(t) => t,
            Err(e) => {
                return Err(e);
            },
        };
        let ctx = DeviceContext::new(id, owner, table);
        let ghost before = self.devices@;
        self.devices.insert(ctx);
        assert(self.devices@.remove(id) =~= before);
        Ok(id)
    }

    /// Detaches device `id`, returning its MSI table's pages to `pool`. Fails, changing
    /// nothing, with `DeviceNotFound` when it is not attached and `DeviceNotEnabled` when
    /// its context is disabled.
    pub fn disable_device(&mut self, id: DeviceId, pool: &mut PagePool) -> (r: Result<(), Error>)
        requires
            old(self).wf(),
        ensures
            final(self).wf(),
            final(self).spec_registers() == old(self).spec_registers(),
            r == disable_result(old(self).devices(), id),
            r is Err ==> final(self).devices() == old(self).devices() && final(pool)@ == old(
                pool,
            )@,
            r is Ok ==> final(self).devices() == old(self).devices().remove(id) && final(pool)@
                == old(pool)@ + old(self).devices()[id].msi().backing(),
    {
        match self.devices.get(id) {
            None => {
                return Err(Error::DeviceNotFound(id));
            },
            Some(ctx) => {
                if !ctx.enabled() {
                    return Err(Error::DeviceNotEnabled(id));
                }
            },
        }
        match self.devices.remove(id) {
            Some(ctx) => {
                ctx.into_table().destroy(pool);
                Ok(())
            },
            None => Err(Error::DeviceNotFound(id)),
        }
    }

    /// Redirects device `id`'s interrupt writes for `loc` to `target`. Fails, changing
    /// nothing, with `DeviceNotFound`, `MsiPageNotOwned` when the device's VM does not own
    /// `target`, `InvalidImsicLocation`, or `MsiAlreadyMapped`, in that order.
    pub fn map_msi(&mut self, id: DeviceId, loc: ImsicLocation, target: Page) -> (r: Result<
        (),
        Error,
    >)
        requires
            old(self).wf(),
        ensures
            final(self).wf(),
            final(self).spec_registers() == old(self).spec_registers(),
            r == map_msi_result(old(self).devices(), id, loc, target),
            r is Err ==> final(self).devices() == old(self).devices(),
            r is Ok ==> msi_updated(
                old(self).devices(),
                final(self).devices(),
                id,
                old(self).devices()[id].msi()@.insert(loc, target.addr),
            ),
    {
        let ctx = match self.devices.get(id) {
            Some(ctx) => ctx,
            None => {
                return Err(Error::DeviceNotFound(id));
            },
        };
        if target.owner != ctx.owner() {
            return Err(Error::MsiPageNotOwned(target.addr));
        }
        if ctx.owner() != ctx.table().owner() {
            return Err(Error::PageTableOwnerMismatch);
        }
        if !loc.is_valid() {
            return Err(Error::InvalidImsicLocation(loc));
        }
        if ctx.table().translate(&loc).is_some() {
            return Err(Error::MsiAlreadyMapped(loc));
        }
        let ghost before = self.devices@;
        let mut ctx = match self.devices.remove(id) {
            Some(ctx) => ctx,
            None => {
                return Err(Error::DeviceNotFound(id));
            },
        };
        let r = ctx.table_mut().map(loc, target);
        self.devices.insert(ctx);
        assert(self.devices@.remove(id) =~= before.remove(id));
        r
    }

    /// Removes device `id`'s translation for `loc`. Fails, changing nothing, with
    /// `DeviceNotFound`, `InvalidImsicLocation`, or `MsiNotMapped`, in that order.
    pub fn unmap_msi(&mut self, id: DeviceId, loc: ImsicLocation) -> (r: Result<(), Error>)
        requires
            old(self).wf(),
        ensures
            final(self).wf(),
            final(self).spec_registers() == old(self).spec_registers(),
            r == unmap_msi_result(old(self).devices(), id, loc),
            r is Err ==> final(self).devices() == old(self).devices(),
            r is Ok ==> msi_updated(
                old(self).devices(),
                final(self).devices(),
                id,
                old(self).devices()[id].msi()@.remove(loc),
            ),
    {
        let ctx = match self.devices.get(id) {
            Some(ctx) => ctx,
            None => {
                return Err(Error::DeviceNotFound(id));
            },
        };
        if ctx.owner() != ctx.table().owner() {
            return Err(Error::PageTableOwnerMismatch);
        }
        if !loc.is_valid() {
            return Err(Error::InvalidImsicLocation(loc));
        }
        if ctx.table().translate(&loc).is_none() {
            return Err(Error::MsiNotMapped(loc));
        }
        let ghost before = self.devices@;
        let mut ctx = match self.devices.remove(id) {
            Some(ctx) => ctx,
            None => {
                return Err(Error::DeviceNotFound(id));
            },
        };
        let r = ctx.table_mut().unmap(loc);
        self.devices.insert(ctx);
        assert(self.devices@.remove(id) =~= before.remove(id));
        r
    }

    /// Number of attached devices.
    pub fn num_devices(&self) -> (r: usize)
        ensures
            r == self.devices().len(),
    {
        self.devices.len()
    }

    /// The VM that owns device `id`, if it is attached.
    pub fn device_owner(&self, id: DeviceId) -> (r: Option<VmId>)
        ensures
            r == (if self.devices().contains_key(id) {
                Some(self.devices()[id].spec_owner())
            } else {
                None::<VmId>
            }),
    {
        match self.devices.get(id) {
            Some(ctx) => Some(ctx.owner()),
            None => None,
        }
    }

    /// The destination page address device `id` translates `loc` to, if any.
    pub fn msi_translation(&self, id: DeviceId, loc: ImsicLocation) -> (r: Option<u64>)
        ensures
            r == (if self.devices().contains_key(id) && self.devices()[id].msi()@.contains_key(
                loc,
            ) {
                Some(self.devices()[id].msi()@[loc])
            } else {
                None::<u64>
            }),
    {
        match self.devices.get(id) {
            Some(ctx) => ctx.table().translate(&loc),
            None => None,
        }
    }
}

} // verus!
