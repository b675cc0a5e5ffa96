//! PCI addressing as seen by the IOMMU: bus/device/function addresses and the
//! probe-time view of the IOMMU's own PCI function.

use vstd::prelude::*;

verus! {

/// Number of device slots on one PCI bus.
pub const PCI_DEVICES_PER_BUS: u8 = 32;

/// Number of functions of one PCI device.
pub const PCI_FUNCTIONS_PER_DEVICE: u8 = 8;

/// A PCI segment/bus/device/function address.
#[derive(Clone, Copy, Debug, PartialEq, Eq, Structural)]
pub struct Address {
    pub segment: u16,
    pub bus: u8,
    pub device: u8,
    pub function: u8,
}

impl Address {
    /// The device and function numbers are within their PCI ranges.
    pub open spec fn wf(self) -> bool {
        self.device < PCI_DEVICES_PER_BUS && self.function < PCI_FUNCTIONS_PER_DEVICE
    }

    /// Builds an address, or `None` when the device or function number is out of range.
    pub fn new(segment: u16, bus: u8, device: u8, function: u8) -> (r: Option<Address>)
        ensures
            r is Some <==> (device < PCI_DEVICES_PER_BUS && function < PCI_FUNCTIONS_PER_DEVICE),
            r matches Some(a) ==> a.wf() && a == (Address { segment, bus, device, function }),
    {
        if device < PCI_DEVICES_PER_BUS && function < PCI_FUNCTIONS_PER_DEVICE {
            Some(Address { segment, bus, device, function })
        } else {
            None
        }
    }
}

/// Failures reported by the PCI subsystem while taking over the IOMMU's function.
#[derive(Clone, Copy, Debug, PartialEq, Eq, Structural)]
pub enum PciError {
    /// The function's vendor or device ID is not that of a supported IOMMU.
    UnexpectedDevice { vendor_id: u16, device_id: u16 },
    /// The function is already owned by someone else.
    DeviceOwned,
}

/// Base and size of a memory BAR.
#[derive(Clone, Copy, Debug, PartialEq, Eq, Structural)]
pub struct Bar {
    pub base: u64,
    pub size: u64,
}

/// The probe-time view of the IOMMU's PCI function, as the PCI subsystem reports it.
#[derive(Clone, Copy, Debug, PartialEq, Eq, Structural)]
pub struct PciDevice {
    pub address: Address,
    pub vendor_id: u16,
    pub device_id: u16,
    /// Whether the function has been taken over by the hypervisor.
    pub owned: bool,
    /// The register BAR, when the function decodes one.
    pub registers: Option<Bar>,
    /// The capability register read from the register block.
    pub capabilities: u64,
}

} // verus!
