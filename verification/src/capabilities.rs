//! The capability set that the component advertises to the guest.
use vstd::prelude::*;

verus! {

/// Number of physical-device slots in the capability set.
pub const MAX_PHYSICAL_DEVICES: usize = 8;

/// Version of the capability set layout.
pub const CAPSET_VERSION: u32 = 1;

/// The capability set: a version, the number of filled device slots, and a
/// fixed table of `MAX_PHYSICAL_DEVICES` device-information slots.
pub struct VirtCapabilities<D> {
    pub capset_version: u32,
    pub num_physical_devices: u32,
    pub devices: Vec<D>,
}

impl<D> VirtCapabilities<D> {
    /// The slot table has exactly `MAX_PHYSICAL_DEVICES` entries and the
    /// count of filled slots never exceeds it.
    pub open spec fn wf(&self) -> bool {
        &&& self.devices@.len() == MAX_PHYSICAL_DEVICES
        &&& self.num_physical_devices <= MAX_PHYSICAL_DEVICES
    }
}

/// Number of devices that fit in the capability set: `min(n, MAX_PHYSICAL_DEVICES)`.
pub open spec fn advertised_count(n: nat) -> nat {
    if n < MAX_PHYSICAL_DEVICES { n } else { MAX_PHYSICAL_DEVICES as nat }
}

/// The slot table built from `infos`: slot `i` holds `infos[i]` for the first
/// `advertised_count` slots, and `empty` after them.
pub open spec fn slot_table<D>(infos: Seq<D>, empty: D) -> Seq<D> {
    Seq::new(
        MAX_PHYSICAL_DEVICES as nat,
        |i: int| if i < advertised_count(infos.len()) { infos[i] } else { empty },
    )
}

/// Builds the capability set from the information of the enumerated physical
/// devices (in enumeration order): version 1, the number of advertised
/// devices is `min(infos.len(), MAX_PHYSICAL_DEVICES)`, the first slots hold
/// the devices' information and the remaining slots hold `empty` (the
/// default device information). Devices beyond the table are not advertised.
pub fn build_capabilities<D: Copy>(infos: &Vec<D>, empty: D) -> (caps: VirtCapabilities<D>)
    ensures
        caps.wf(),
        caps.capset_version == CAPSET_VERSION,
        caps.num_physical_devices == advertised_count(infos@.len()),
        caps.devices@ == slot_table(infos@, empty),
{
    let count: usize = if infos.len() < MAX_PHYSICAL_DEVICES {
        infos.len()
    } else {
        MAX_PHYSICAL_DEVICES
    };
    let mut devices: Vec<D> = Vec::new();
    let mut i: usize = 0;
    while i < MAX_PHYSICAL_DEVICES
        invariant
            0 <= i <= MAX_PHYSICAL_DEVICES,
            count == advertised_count(infos@.len()),
            count <= infos@.len(),
            devices@.len() == i,
            forall|j: int|
                0 <= j < i ==> devices@[j] == slot_table(infos@, empty)[j],
        decreases MAX_PHYSICAL_DEVICES - i,
    {
        if i < count {
            devices.push(infos[i]);
        } else {
            devices.push(empty);
        }
        i = i + 1;
    }
    assert(devices@ =~= slot_table(infos@, empty));
    VirtCapabilities {
        capset_version: CAPSET_VERSION,
        num_physical_devices: count as u32,
        devices,
    }
}

/// The table built from `infos` advertises `min(n, MAX_PHYSICAL_DEVICES)`
/// devices; its slot `i` holds the `i`-th device's information for every
/// advertised device and `empty` in every other slot.
pub proof fn capability_table_layout<D>(infos: Seq<D>, empty: D)
    ensures
        advertised_count(infos.len()) <= MAX_PHYSICAL_DEVICES,
        infos.len() <= MAX_PHYSICAL_DEVICES ==> advertised_count(infos.len()) == infos.len(),
        infos.len() > MAX_PHYSICAL_DEVICES ==> advertised_count(infos.len()) == MAX_PHYSICAL_DEVICES,
        slot_table(infos, empty).len() == MAX_PHYSICAL_DEVICES,
        forall|i: int| 0 <= i < MAX_PHYSICAL_DEVICES && i < infos.len() ==> slot_table(infos, empty)[i] == infos[i],
        forall|i: int| infos.len() <= i < MAX_PHYSICAL_DEVICES ==> slot_table(infos, empty)[i] == empty,
{
}

} // verus!
