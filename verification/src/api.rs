//! What the registry answers to those who read it from outside.

use crate::address::{address_of, Ipv4};
use crate::data_store::{DataStore, NodeData};
use vstd::prelude::*;

verus! {

/// A question that cannot be answered because it is malformed.
#[derive(Clone, Copy, Debug, PartialEq, Eq, Structural)]
pub enum BadRequest {
    /// The address asked for is no dotted-quad text.
    InvalidAddress,
}

/// All that the registry holds on the node whose address `ip` names.
/// A text that names no address is a malformed question; an address that
/// the registry does not know is answered with `None`.
pub fn get_node(store: &DataStore, ip: &str) -> (answer: Result<Option<NodeData>, BadRequest>)
    ensures
        match answer {
            Ok(Some(data)) => address_of(ip@) matches Some(at) && store@.contains_key(at@) && data@
                == store@[at@],
            Ok(None) => address_of(ip@) matches Some(at) && !store@.contains_key(at@),
            Err(e) => e == BadRequest::InvalidAddress && address_of(ip@) is None,
        },
{
    match Ipv4::parse(ip) {
        Some(at) => Ok(store.get_node(at)),
        None => Err(BadRequest::InvalidAddress),
    }
}

} // verus!
