use riscv_iommu::error::Error;
use riscv_iommu::imsic::ImsicLocation;
use riscv_iommu::msi_page_table::{MsiPageTable, MSI_TABLE_PAGES};
use riscv_iommu::pages::{Page, PagePool, VmId, PAGE_SIZE};

const VM_A: VmId = VmId(1);
const VM_B: VmId = VmId(2);

fn pool_of(owner: VmId, first: u64, n: u64) -> PagePool {
    let mut pages = Vec::new();
    for i in 0..n {
        pages.push(Page { addr: first + i * PAGE_SIZE, owner });
    }
    PagePool::new(pages)
}

fn table_for_a() -> MsiPageTable {
    let mut pool = pool_of(VM_A, 0x8000_0000, 4);
    MsiPageTable::new(&mut pool, VM_A).unwrap()
}

#[test]
fn table_takes_exactly_its_pages() {
    let mut pool = pool_of(VM_A, 0x8000_0000, 6);
    let table = MsiPageTable::new(&mut pool, VM_A).unwrap();
    assert_eq!(pool.len(), 6 - MSI_TABLE_PAGES);
    assert_eq!(pool.get(1).addr, 0x8000_1000);
    assert_eq!(table.owner(), VM_A);
    table.destroy(&mut pool);
    assert_eq!(pool.len(), 6);
    assert_eq!(pool.get(5).addr, 0x8000_5000);
}

#[test]
fn too_few_pages_fail_and_consume_nothing() {
    let mut pool = pool_of(VM_A, 0x8000_0000, 3);
    assert_eq!(MsiPageTable::new(&mut pool, VM_A).err(), Some(Error::InsufficientMsiTablePages));
    assert_eq!(pool.len(), 3);
}

#[test]
fn misaligned_pages_are_refused() {
    let mut pages = Vec::new();
    for i in 0..4u64 {
        pages.push(Page { addr: 0x8000_0000 + i * PAGE_SIZE + if i == 2 { 8 } else { 0 }, owner: VM_A });
    }
    let mut pool = PagePool::new(pages);
    assert_eq!(MsiPageTable::new(&mut pool, VM_A).err(), Some(Error::MisalignedMsiTablePages));
    assert_eq!(pool.len(), 4);
}

#[test]
fn pages_of_another_vm_are_refused() {
    let mut pages = Vec::new();
    for i in 0..4u64 {
        pages.push(Page { addr: 0x8000_0000 + i * PAGE_SIZE, owner: if i == 3 { VM_B } else { VM_A } });
    }
    let mut pool = PagePool::new(pages);
    assert_eq!(MsiPageTable::new(&mut pool, VM_A).err(), Some(Error::UnownedMsiTablePages));
    assert_eq!(pool.len(), 4);
}

#[test]
fn pool_allocation_past_its_size_is_out_of_pages() {
    let mut pool = pool_of(VM_A, 0, 2);
    assert_eq!(pool.allocate(3), Err(Error::OutOfPages));
    assert_eq!(pool.len(), 2);
    let taken = pool.allocate(1).unwrap();
    assert_eq!(taken[0].addr, PAGE_SIZE);
    assert_eq!(pool.len(), 1);
}

#[test]
fn map_twice_fails_with_already_mapped() {
    let mut table = table_for_a();
    let loc = ImsicLocation { group: 0, guest: 1, page: 0 };
    let dest = Page { addr: 0x2800_1000, owner: VM_A };
    assert_eq!(table.map(loc, dest), Ok(()));
    assert_eq!(table.map(loc, dest), Err(Error::MsiAlreadyMapped(loc)));
    assert_eq!(table.translate(&loc), Some(0x2800_1000));
}

#[test]
fn unmap_twice_fails_with_not_mapped() {
    let mut table = table_for_a();
    let loc = ImsicLocation { group: 3, guest: 2, page: 1 };
    table.map(loc, Page { addr: 0x2800_2000, owner: VM_A }).unwrap();
    assert_eq!(table.unmap(loc), Ok(()));
    assert_eq!(table.unmap(loc), Err(Error::MsiNotMapped(loc)));
    assert_eq!(table.translate(&loc), None);
}

#[test]
fn remap_after_unmap_installs_new_target() {
    let mut table = table_for_a();
    let loc = ImsicLocation { group: 0, guest: 1, page: 0 };
    let other = ImsicLocation { group: 0, guest: 1, page: 1 };
    table.map(loc, Page { addr: 0x2800_1000, owner: VM_A }).unwrap();
    table.map(other, Page { addr: 0x2800_3000, owner: VM_A }).unwrap();
    table.unmap(loc).unwrap();
    assert_eq!(table.map(loc, Page { addr: 0x2800_5000, owner: VM_A }), Ok(()));
    assert_eq!(table.translate(&loc), Some(0x2800_5000));
    assert_eq!(table.translate(&other), Some(0x2800_3000));
}

#[test]
fn table_refuses_unowned_destination_and_bad_location() {
    let mut table = table_for_a();
    let loc = ImsicLocation { group: 0, guest: 1, page: 0 };
    assert_eq!(
        table.map(loc, Page { addr: 0x2900_0000, owner: VM_B }),
        Err(Error::MsiPageNotOwned(0x2900_0000))
    );
    let bad = ImsicLocation { group: 16, guest: 0, page: 0 };
    assert_eq!(
        table.map(bad, Page { addr: 0x2800_0000, owner: VM_A }),
        Err(Error::InvalidImsicLocation(bad))
    );
    assert_eq!(table.unmap(bad), Err(Error::InvalidImsicLocation(bad)));
    assert_eq!(table.translate(&loc), None);
}
