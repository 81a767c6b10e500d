//! The API entry point: creating an instance and enumerating the
//! adapters it can see.

use vstd::prelude::*;

use crate::Error;
use crate::adapter::{PhysicalDevice, QueueFamily};

verus! {

/// The broad class a physical device falls into.
#[derive(Clone, Copy, PartialEq, Eq, Structural, Debug)]
pub enum DeviceType {
    Other,
    IntegratedGpu,
    DiscreteGpu,
    VirtualGpu,
    Cpu,
}

/// Identifying information about an adapter.
#[derive(Clone, Copy, PartialEq, Eq, Structural, Debug)]
pub struct AdapterInfo {
    /// The PCI vendor identifier.
    pub vendor: usize,
    /// The PCI device identifier.
    pub device: usize,
    /// The class of the device.
    pub device_type: DeviceType,
}

/// One physical device with its description and queue families.
#[derive(Debug)]
pub struct Adapter {
    /// Identifying information.
    pub info: AdapterInfo,
    /// The physical device itself.
    pub physical_device: PhysicalDevice,
    /// The queue families the device offers.
    pub queue_families: Vec<QueueFamily>,
}

/// An instance of the API, from which adapters are enumerated.
#[derive(Clone, Copy, Debug)]
pub struct Instance;

impl Instance {
    /// Creates an instance; the application name and version are
    /// accepted for parity with native APIs and have no effect here.
    pub fn create(name: &str, version: u32) -> (r: Result<Instance, Error>)
        ensures
            r is Ok,
    {
        Ok(Instance)
    }

    /// The adapters this instance can see: a single device of no
    /// particular class, with one queue family.
    pub fn enumerate_adapters(&self) -> (r: Vec<Adapter>)
        ensures
            r@.len() == 1,
            r@[0].info == (AdapterInfo { vendor: 0, device: 1234, device_type: DeviceType::Other }),
            r@[0].queue_families@.len() == 1,
    {
        let info = AdapterInfo { vendor: 0, device: 1234, device_type: DeviceType::Other };
        let mut queue_families: Vec<QueueFamily> = Vec::new();
        queue_families.push(QueueFamily);
        let mut adapters: Vec<Adapter> = Vec::new();
        adapters.push(Adapter { info, physical_device: PhysicalDevice, queue_families });
        adapters
    }
}

} // verus!
