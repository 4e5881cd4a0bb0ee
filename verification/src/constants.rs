//! The fixed numbers of the protocol.

use vstd::prelude::*;

verus! {

/// The UDP port on which every peer listens for requests.
pub const TARGET_PORT: u16 = 9000;

/// The UDP port from which an observer sends its requests and on which it
/// receives the responses.
pub const HOST_PORT: u16 = 9001;

/// The number of seconds between two usage requests to the whole network.
pub const BROADCAST_INTERVAL: u64 = 5;

/// The largest datagram, in bytes, that is read in one piece; what a longer
/// one holds beyond this is cut off.
pub const RECEIVE_BUFFER: usize = 1024;

} // verus!
