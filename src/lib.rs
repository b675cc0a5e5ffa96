//! Device-passthrough core of a RISC-V confidential-VM hypervisor: the IOMMU
//! facade, its device directory and MSI page tables, and IMSIC addressing.

pub mod device_directory;
pub mod error;
pub mod imsic;
pub mod iommu;
pub mod msi_page_table;
pub mod pages;
pub mod pci;
