//! What the registry's keeper asks of the transport.

use crate::address::Ipv4;
use vstd::prelude::*;

verus! {

/// A request to the transport.
#[derive(Clone, Copy, Debug, PartialEq, Eq, Structural)]
pub enum DiscoveryCommand {
    /// Ask the machine at this address for its descriptor.
    DeviceInformation(Ipv4),
}

} // verus!
