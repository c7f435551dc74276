//! Accelerator devices and their enumeration.

use vstd::prelude::*;
use vstd::string::StringExecFns;
use crate::number::decimal_text;
use crate::number::push_decimal;

verus! {

/// How a device is addressed.
#[derive(Clone, Copy, Debug, PartialEq, Eq, Structural)]
pub enum DeviceKind {
    /// The one integrated accelerator of a unified-memory host.
    IntegratedUnified,
    /// A discrete accelerator, by its index at the driver.
    DiscreteIndexed(usize),
}

/// One accelerator device. Name and memory figures are best effort and
/// stay unset where the driver does not tell them; a benchmark needs only
/// `device`.
#[derive(Clone, Debug, PartialEq, Eq)]
pub struct GpuInfo {
    pub device_id: usize,
    pub device: DeviceKind,
    pub name: Option<String>,
    pub total_memory: Option<u64>,
    pub free_memory: Option<u64>,
    pub used_memory: Option<u64>,
}

/// The descriptor of the discrete device with the given index.
pub open spec fn discrete_device(index: usize) -> GpuInfo {
    GpuInfo {
        device_id: index,
        device: DeviceKind::DiscreteIndexed(index),
        name: None,
        total_memory: None,
        free_memory: None,
        used_memory: None,
    }
}

/// The descriptor of the integrated device.
pub open spec fn integrated_device() -> GpuInfo {
    GpuInfo {
        device_id: 0,
        device: DeviceKind::IntegratedUnified,
        name: None,
        total_memory: None,
        free_memory: None,
        used_memory: None,
    }
}

/// The descriptor that addresses a device of the given kind.
pub open spec fn device_of(kind: DeviceKind) -> GpuInfo {
    match kind {
        DeviceKind::IntegratedUnified => integrated_device(),
        DeviceKind::DiscreteIndexed(index) => discrete_device(index),
    }
}

/// How a device is called: `integrated`, or `Cuda` with the index in
/// brackets.
pub open spec fn device_label(kind: DeviceKind) -> Seq<char> {
    match kind {
        DeviceKind::IntegratedUnified => "integrated"@,
        DeviceKind::DiscreteIndexed(index) => "Cuda("@ + decimal_text(index as nat) + ")"@,
    }
}

/// The devices of a host whose driver reports `device_count` discrete
/// devices: one descriptor per index, in order.
pub open spec fn discrete_devices(device_count: usize) -> Seq<GpuInfo> {
    Seq::new(device_count as nat, |i: int| discrete_device(i as usize))
}

impl DeviceKind {
    /// How this device is called.
    pub fn label(self) -> (text: String)
        ensures
            text@ == device_label(self),
    {
        match self {
            DeviceKind::IntegratedUnified => String::from_str("integrated"),
            DeviceKind::DiscreteIndexed(index) => {
                let mut text = String::from_str("Cuda(");
                push_decimal(&mut text, index as u128);
                text.append(")");
                text
            },
        }
    }

    /// The descriptor that addresses this device.
    pub fn describe(self) -> (info: GpuInfo)
        ensures
            info == device_of(self),
    {
        let device_id: usize = match self {
            DeviceKind::IntegratedUnified => 0,
            DeviceKind::DiscreteIndexed(index) => index,
        };
        GpuInfo {
            device_id,
            device: self,
            name: None,
            total_memory: None,
            free_memory: None,
            used_memory: None,
        }
    }
}

/// Enumerates the discrete devices of a host from the count its driver
/// reports. No device is a valid answer: the list is then empty.
pub fn get_gpu_info(device_count: usize) -> (devices: Vec<GpuInfo>)
    ensures
        devices@ == discrete_devices(device_count),
{
    let mut devices: Vec<GpuInfo> = Vec::new();
    let mut index: usize = 0;
    while index < device_count
        invariant
            index <= device_count,
            devices@.len() == index,
            forall|i: int| 0 <= i < index ==> devices@[i] == discrete_device(i as usize),
        decreases device_count - index,
    {
        devices.push(DeviceKind::DiscreteIndexed(index).describe());
        index = index + 1;
    }
    assert(devices@ =~= discrete_devices(device_count));
    devices
}

/// Without a discrete device the list is empty.
pub proof fn lemma_no_devices()
    ensures
        discrete_devices(0) == Seq::<GpuInfo>::empty(),
{
    assert(discrete_devices(0) =~= Seq::<GpuInfo>::empty());
}

} // verus!
