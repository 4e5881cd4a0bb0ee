//! The choice of the address that this machine is known by.

use crate::address::{address_of, loopback_ip, private_ip, unspecified_ip, Ipv4};
use vstd::prelude::*;

verus! {

/// The address of one network interface.
#[derive(Clone, Copy, Debug, PartialEq, Eq, Structural)]
pub enum InterfaceAddress {
    V4(Ipv4),
    /// An IPv6 address, of which only this is kept: whether it is the
    /// loopback address.
    V6 { loopback: bool },
}

/// Why no address could be chosen.
#[derive(Clone, Copy, Debug, PartialEq, Eq, Structural)]
pub enum AddressError {
    /// No address was named and no interface has a usable one.
    NoAddressFound,
    /// The address that was named is no dotted-quad text.
    InvalidAddress,
}

/// An interface address can stand for this machine on the local network: it
/// is an IPv4 address of a private network, and neither a loopback address
/// nor `0.0.0.0`.
pub open spec fn usable(address: InterfaceAddress) -> bool {
    match address {
        InterfaceAddress::V4(ip) => !loopback_ip(ip) && !unspecified_ip(ip) && private_ip(ip),
        InterfaceAddress::V6 { loopback } => false,
    }
}

/// The first usable address of `addresses`.
pub open spec fn first_usable(addresses: Seq<InterfaceAddress>) -> Option<Ipv4>
    decreases addresses.len(),
{
    if addresses.len() == 0 {
        None
    } else if usable(addresses[0]) {
        Some(addresses[0]->V4_0)
    } else {
        first_usable(addresses.drop_first())
    }
}

/// The address that the arguments of the program and the interfaces of the
/// machine give: the second argument, read as dotted-quad text, where there
/// is one, and the first usable interface address otherwise.
pub open spec fn chosen_ip(args: Seq<String>, addresses: Seq<InterfaceAddress>) -> Result<
    Ipv4,
    AddressError,
> {
    if args.len() < 2 {
        match first_usable(addresses) {
            Some(ip) => Ok(ip),
            None => Err(AddressError::NoAddressFound),
        }
    } else {
        match address_of(args[1]@) {
            Some(ip) => Ok(ip),
            None => Err(AddressError::InvalidAddress),
        }
    }
}

/// The first usable address among those of the interfaces, in their order.
pub fn search_networks(addresses: &Vec<InterfaceAddress>) -> (found: Option<Ipv4>)
    ensures
        found == first_usable(addresses@),
{
    let mut i: usize = 0;
    assert(addresses@.skip(0) =~= addresses@);
    while i < addresses.len()
        invariant
            i <= addresses.len(),
            first_usable(addresses@) == first_usable(addresses@.skip(i as int)),
        decreases addresses.len() - i,
    {
        let ghost rest = addresses@.skip(i as int);
        assert(rest[0] == addresses@[i as int]);
        assert(rest.drop_first() =~= addresses@.skip(i + 1));
        match addresses[i] {
            InterfaceAddress::V4(ip) => {
                if !ip.is_loopback() && !ip.is_unspecified() && ip.is_private() {
                    return Some(ip);
                }
            },
            InterfaceAddress::V6 { loopback } => {},
        }
        i += 1;
    }
    assert(addresses@.skip(i as int).len() == 0);
    None
}

/// The address that this machine is known by: the one that the second
/// argument of the program names, where there is one, and the first usable
/// address of the interfaces otherwise.
pub fn get_ip(args: &Vec<String>, addresses: &Vec<InterfaceAddress>) -> (chosen: Result<
    Ipv4,
    AddressError,
>)
    ensures
        chosen == chosen_ip(args@, addresses@),
{
    if args.len() < 2 {
        match search_networks(addresses) {
            Some(ip) => Ok(ip),
            None => Err(AddressError::NoAddressFound),
        }
    } else {
        match Ipv4::parse(args[1].as_str()) {
            Some(ip) => Ok(ip),
            None => Err(AddressError::InvalidAddress),
        }
    }
}

} // verus!
