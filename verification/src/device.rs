//! Picking the key matrix out of the devices that are attached.

use vstd::prelude::*;

verus! {

/// Vendor identifier of the key matrix.
pub const TARGET_VENDOR_ID: u16 = 0x1222;

/// Product identifier of the key matrix.
pub const TARGET_PRODUCT_ID: u16 = 0xfaca;

/// The two identifiers by which an attached device is recognised.
#[derive(Clone, Copy, Debug, PartialEq, Eq, Structural)]
pub struct DeviceId {
    pub vendor_id: u16,
    pub product_id: u16,
}

impl DeviceId {
    /// Whether the device carries the given pair of identifiers.
    pub open spec fn matches(self, vendor_id: u16, product_id: u16) -> bool {
        self.vendor_id == vendor_id && self.product_id == product_id
    }

    /// Whether the device carries the given pair of identifiers.
    pub fn is_match(&self, vendor_id: u16, product_id: u16) -> (b: bool)
        ensures
            b == self.matches(vendor_id, product_id),
    {
        self.vendor_id == vendor_id && self.product_id == product_id
    }
}

/// Whether `at` is the place of the first device in `devices` that carries the
/// given identifiers.
pub open spec fn is_first_match(
    devices: Seq<DeviceId>,
    vendor_id: u16,
    product_id: u16,
    at: int,
) -> bool {
    &&& 0 <= at < devices.len()
    &&& devices[at].matches(vendor_id, product_id)
    &&& forall|j: int| 0 <= j < at ==> !(#[trigger] devices[j]).matches(vendor_id, product_id)
}

/// Whether no device in `devices` carries the given identifiers.
pub open spec fn no_match(devices: Seq<DeviceId>, vendor_id: u16, product_id: u16) -> bool {
    forall|j: int|
        0 <= j < devices.len() ==> !(#[trigger] devices[j]).matches(vendor_id, product_id)
}

/// Finds the first attached device with the given identifiers, in the order
/// of enumeration, and returns its place in `devices`.
pub fn find_device(devices: &[DeviceId], vendor_id: u16, product_id: u16) -> (found: Option<usize>)
    ensures
        match found {
            Some(at) => is_first_match(devices@, vendor_id, product_id, at as int),
            None => no_match(devices@, vendor_id, product_id),
        },
{
    let mut i: usize = 0;
    while i < devices.len()
        invariant
            i <= devices.len(),
            forall|j: int| 0 <= j < i ==> !(#[trigger] devices@[j]).matches(vendor_id, product_id),
        decreases devices.len() - i,
    {
        if devices[i].is_match(vendor_id, product_id) {
            return Some(i);
        }
        i += 1;
    }
    None
}

/// Finds the key matrix among the attached devices.
pub fn find_target(devices: &[DeviceId]) -> (found: Option<usize>)
    ensures
        match found {
            Some(at) => is_first_match(devices@, 0x1222, 0xfaca, at as int),
            None => no_match(devices@, 0x1222, 0xfaca),
        },
{
    find_device(devices, TARGET_VENDOR_ID, TARGET_PRODUCT_ID)
}

} // verus!
