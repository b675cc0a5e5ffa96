use riscv_iommu::device_directory::DeviceId;
use riscv_iommu::error::Error;
use riscv_iommu::imsic::ImsicLocation;
use riscv_iommu::iommu::{
    Iommu, CAP_GSTAGE_SV48X4, CAP_MSI_FLAT, IOMMU_DEVICE_ID, IOMMU_REGS_SIZE, IOMMU_VENDOR_ID,
};
use riscv_iommu::pages::{Page, PagePool, VmId, PAGE_SIZE};
use riscv_iommu::pci::{Address, Bar, PciDevice, PciError};

const VM_A: VmId = VmId(1);
const VM_B: VmId = VmId(2);

fn iommu_function() -> PciDevice {
    PciDevice {
        address: Address::new(0, 0, 1, 0).unwrap(),
        vendor_id: IOMMU_VENDOR_ID,
        device_id: IOMMU_DEVICE_ID,
        owned: false,
        registers: Some(Bar { base: 0x3000_0000, size: IOMMU_REGS_SIZE }),
        capabilities: CAP_GSTAGE_SV48X4 | CAP_MSI_FLAT,
    }
}

fn pool_of(owner: VmId, first: u64, n: u64) -> PagePool {
    let mut pages = Vec::new();
    for i in 0..n {
        pages.push(Page { addr: first + i * PAGE_SIZE, owner });
    }
    PagePool::new(pages)
}

fn probed() -> Iommu {
    let mut pci = iommu_function();
    Iommu::probe_and_enable(&mut pci).unwrap()
}

fn sata() -> Address {
    Address::new(0, 0, 0x1f, 2).unwrap()
}

#[test]
fn probe_takes_over_a_good_iommu() {
    let mut pci = iommu_function();
    let iommu = Iommu::probe_and_enable(&mut pci).unwrap();
    assert!(pci.owned);
    assert_eq!(iommu.registers().base(), 0x3000_0000);
    assert_eq!(iommu.registers().size(), IOMMU_REGS_SIZE);
    assert_eq!(iommu.num_devices(), 0);
}

#[test]
fn probe_rejects_register_block_one_byte_short() {
    let mut pci = iommu_function();
    pci.registers = Some(Bar { base: 0x3000_0000, size: IOMMU_REGS_SIZE - 1 });
    let before = pci;
    let r = Iommu::probe_and_enable(&mut pci);
    assert_eq!(r.err(), Some(Error::InvalidRegisterSize(IOMMU_REGS_SIZE - 1)));
    assert_eq!(pci, before);
}

#[test]
fn probe_reports_each_hardware_shape_error() {
    let mut pci = iommu_function();
    pci.vendor_id = 0x8086;
    assert_eq!(
        Iommu::probe_and_enable(&mut pci).err(),
        Some(Error::ProbingIommu(PciError::UnexpectedDevice { vendor_id: 0x8086, device_id: IOMMU_DEVICE_ID }))
    );
    let mut pci = iommu_function();
    pci.owned = true;
    assert_eq!(Iommu::probe_and_enable(&mut pci).err(), Some(Error::ProbingIommu(PciError::DeviceOwned)));
    let mut pci = iommu_function();
    pci.registers = None;
    assert_eq!(Iommu::probe_and_enable(&mut pci).err(), Some(Error::MissingRegisters));
    let mut pci = iommu_function();
    pci.registers = Some(Bar { base: 0x3000_0800, size: IOMMU_REGS_SIZE });
    assert_eq!(Iommu::probe_and_enable(&mut pci).err(), Some(Error::MisalignedRegisters));
    let mut pci = iommu_function();
    pci.capabilities = CAP_MSI_FLAT;
    assert_eq!(Iommu::probe_and_enable(&mut pci).err(), Some(Error::MissingGStageSupport));
    let mut pci = iommu_function();
    pci.capabilities = CAP_GSTAGE_SV48X4;
    assert_eq!(Iommu::probe_and_enable(&mut pci).err(), Some(Error::MissingMsiSupport));
    assert!(!pci.owned);
}

#[test]
fn attach_device_with_four_owned_pages() {
    let mut iommu = probed();
    let mut pool = pool_of(VM_A, 0x8000_0000, 4);
    let id = iommu.enable_device(sata(), VM_A, &mut pool).unwrap();
    assert_eq!(id, DeviceId::new(sata()).unwrap());
    assert_eq!(iommu.num_devices(), 1);
    assert_eq!(iommu.device_owner(id), Some(VM_A));
    assert_eq!(pool.len(), 0);
}

#[test]
fn attach_then_detach_leaves_no_entry() {
    let mut iommu = probed();
    let mut pool = pool_of(VM_A, 0x8000_0000, 4);
    let id = iommu.enable_device(sata(), VM_A, &mut pool).unwrap();
    assert_eq!(iommu.disable_device(id, &mut pool), Ok(()));
    assert_eq!(iommu.num_devices(), 0);
    assert_eq!(iommu.device_owner(id), None);
    assert_eq!(pool.len(), 4);
    assert_eq!(iommu.disable_device(id, &mut pool), Err(Error::DeviceNotFound(id)));
}

#[test]
fn double_enable_fails_and_disable_needs_enable() {
    let mut iommu = probed();
    let mut pool = pool_of(VM_A, 0x8000_0000, 8);
    let id = DeviceId::new(sata()).unwrap();
    assert_eq!(iommu.disable_device(id, &mut pool), Err(Error::DeviceNotFound(id)));
    iommu.enable_device(sata(), VM_A, &mut pool).unwrap();
    assert_eq!(iommu.enable_device(sata(), VM_A, &mut pool), Err(Error::DeviceAlreadyEnabled(id)));
    assert_eq!(pool.len(), 4);
    assert_eq!(iommu.num_devices(), 1);
}

#[test]
fn enable_reports_address_and_page_errors() {
    let mut iommu = probed();
    let far = Address::new(0x200, 0, 0, 0).unwrap();
    let mut pool = pool_of(VM_A, 0x8000_0000, 4);
    assert_eq!(iommu.enable_device(far, VM_A, &mut pool), Err(Error::PciAddressTooLarge(far)));
    let mut short = pool_of(VM_A, 0x8000_0000, 3);
    assert_eq!(iommu.enable_device(sata(), VM_A, &mut short), Err(Error::InsufficientMsiTablePages));
    assert_eq!(short.len(), 3);
    assert_eq!(iommu.enable_device(sata(), VM_B, &mut pool), Err(Error::UnownedMsiTablePages));
    assert_eq!(pool.len(), 4);
    assert_eq!(iommu.num_devices(), 0);
}

#[test]
fn map_to_page_of_other_vm_is_refused() {
    let mut iommu = probed();
    let mut pool = pool_of(VM_A, 0x8000_0000, 4);
    let id = iommu.enable_device(sata(), VM_A, &mut pool).unwrap();
    let loc = ImsicLocation { group: 0, guest: 1, page: 0 };
    let b_page = Page { addr: 0x2800_1000, owner: VM_B };
    assert_eq!(iommu.map_msi(id, loc, b_page), Err(Error::MsiPageNotOwned(0x2800_1000)));
    assert_eq!(iommu.msi_translation(id, loc), None);
    assert_eq!(iommu.num_devices(), 1);
    assert_eq!(iommu.device_owner(id), Some(VM_A));
    iommu.map_msi(id, loc, Page { addr: 0x2800_2000, owner: VM_A }).unwrap();
    assert_eq!(iommu.map_msi(id, loc, b_page), Err(Error::MsiPageNotOwned(0x2800_1000)));
    assert_eq!(iommu.msi_translation(id, loc), Some(0x2800_2000));
}

#[test]
fn facade_map_unmap_round_trip() {
    let mut iommu = probed();
    let mut pool = pool_of(VM_A, 0x8000_0000, 4);
    let id = iommu.enable_device(sata(), VM_A, &mut pool).unwrap();
    let loc = ImsicLocation { group: 2, guest: 5, page: 7 };
    let first = Page { addr: 0x2800_1000, owner: VM_A };
    let second = Page { addr: 0x2800_4000, owner: VM_A };
    assert_eq!(iommu.map_msi(id, loc, first), Ok(()));
    assert_eq!(iommu.map_msi(id, loc, second), Err(Error::MsiAlreadyMapped(loc)));
    assert_eq!(iommu.unmap_msi(id, loc), Ok(()));
    assert_eq!(iommu.unmap_msi(id, loc), Err(Error::MsiNotMapped(loc)));
    assert_eq!(iommu.map_msi(id, loc, second), Ok(()));
    assert_eq!(iommu.msi_translation(id, loc), Some(0x2800_4000));
}

#[test]
fn facade_map_reports_missing_device_and_bad_location() {
    let mut iommu = probed();
    let mut pool = pool_of(VM_A, 0x8000_0000, 4);
    let other = DeviceId::new(Address::new(0, 3, 0, 0).unwrap()).unwrap();
    let loc = ImsicLocation { group: 0, guest: 1, page: 0 };
    let page = Page { addr: 0x2800_1000, owner: VM_A };
    assert_eq!(iommu.map_msi(other, loc, page), Err(Error::DeviceNotFound(other)));
    assert_eq!(iommu.unmap_msi(other, loc), Err(Error::DeviceNotFound(other)));
    let id = iommu.enable_device(sata(), VM_A, &mut pool).unwrap();
    let bad = ImsicLocation { group: 0, guest: 1, page: 512 };
    assert_eq!(iommu.map_msi(id, bad, page), Err(Error::InvalidImsicLocation(bad)));
    assert_eq!(iommu.unmap_msi(id, bad), Err(Error::InvalidImsicLocation(bad)));
}
