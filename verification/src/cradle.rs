//! How the cradle is told from other USB devices, and which of its
//! interfaces carries the exchange.

use vstd::prelude::*;

verus! {

/// The vendor number of the cradle.
pub const CRADLE_VENDOR: u16 = 0x1d9d;

/// The product number of the cradle.
pub const CRADLE_PRODUCT: u16 = 0x1011;

/// Whether a device with these numbers is a cradle.
pub fn is_cradle(vendor_id: u16, product_id: u16) -> (cradle: bool)
    ensures
        cradle == (vendor_id == CRADLE_VENDOR && product_id == CRADLE_PRODUCT),
{
    vendor_id == CRADLE_VENDOR && product_id == CRADLE_PRODUCT
}

/// The direction of an endpoint, seen from the host.
#[derive(Clone, Copy, Debug, PartialEq, Eq, Structural)]
pub enum Direction {
    In,
    Out,
}

/// The kind of transfer that an endpoint takes.
#[derive(Clone, Copy, Debug, PartialEq, Eq, Structural)]
pub enum TransferType {
    Control,
    Isochronous,
    Bulk,
    Interrupt,
}

/// An endpoint of a device, with the configuration, the interface and the
/// alternate setting that it belongs to.
#[derive(Clone, Copy, Debug, PartialEq, Eq, Structural)]
pub struct EndpointInfo {
    pub configuration: u8,
    pub interface: u8,
    pub setting: u8,
    pub direction: Direction,
    pub transfer_type: TransferType,
}

impl EndpointInfo {
    /// Whether replies can be read from the endpoint: it is a bulk endpoint
    /// towards the host.
    pub open spec fn readable(self) -> bool {
        self.direction is In && self.transfer_type is Bulk
    }

    /// Whether replies can be read from the endpoint.
    pub fn is_readable(&self) -> (readable: bool)
        ensures
            readable == self.readable(),
    {
        let inward = match self.direction {
            Direction::In => true,
            Direction::Out => false,
        };
        let bulk = match self.transfer_type {
            TransferType::Bulk => true,
            _ => false,
        };
        inward && bulk
    }
}

/// Picks the endpoint whose interface carries the exchange: the first one of
/// the list from which replies can be read.
pub fn select_endpoint(endpoints: &Vec<EndpointInfo>) -> (chosen: Option<usize>)
    ensures
        match chosen {
            Some(i) => i < endpoints@.len() && endpoints@[i as int].readable() && forall|j: int|
                0 <= j < i ==> !(#[trigger] endpoints@[j]).readable(),
            None => forall|j: int|
                0 <= j < endpoints@.len() ==> !(#[trigger] endpoints@[j]).readable(),
        },
{
    let mut i: usize = 0;
    while i < endpoints.len()
        invariant
            i <= endpoints@.len(),
            forall|j: int| 0 <= j < i ==> !(#[trigger] endpoints@[j]).readable(),
        decreases endpoints@.len() - i,
    {
        if endpoints[i].is_readable() {
            return Some(i);
        }
        i = i + 1;
    }
    None
}

} // verus!
