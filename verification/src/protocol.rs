//! Wire protocol: the message schemas and their length-delimited encoding.

use vstd::prelude::*;
use crate::protocol::discovery::Device;

pub mod communication;
pub mod discovery;
pub mod framing;
pub mod scalar;
pub mod varint;
pub mod wire;

verus! {

/// The subscriber to changes of the set of known peers.
pub trait DiscoveryDelegate {
    fn device_added(&self, value: Device);

    fn device_removed(&self, device_id: String);
}

} // verus!
