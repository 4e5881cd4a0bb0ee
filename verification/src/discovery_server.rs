//! The observer's side of the transport: which request leaves for which
//! endpoint, and what is made of a datagram that arrives.

use crate::address::{dotted, Ipv4};
use crate::commands::DiscoveryCommand;
use crate::constants::{HOST_PORT, RECEIVE_BUFFER, TARGET_PORT};
use crate::manager_messages::{encoded_request, ManagerRequest, RequestView};
use crate::target_messages::{decoded_response, ResponseSchema};
use vstd::prelude::*;
use vstd::slice::slice_subrange;

verus! {

/// A UDP endpoint.
#[derive(Clone, Copy, Debug, PartialEq, Eq, Structural)]
pub struct Endpoint {
    pub ip: Ipv4,
    pub port: u16,
}

/// A datagram to send: its text and the endpoint that it goes to.
#[derive(Debug)]
pub struct Outgoing {
    pub payload: String,
    pub to: Endpoint,
}

/// The address that reaches every machine of the local network.
pub open spec fn broadcast_ip() -> Ipv4 {
    Ipv4 { a: 255, b: 255, c: 255, d: 255 }
}

/// What is read of a datagram: all of it up to [`RECEIVE_BUFFER`] bytes,
/// and no more.
pub open spec fn read_part(datagram: Seq<u8>) -> Seq<u8> {
    if datagram.len() <= RECEIVE_BUFFER {
        datagram
    } else {
        datagram.take(RECEIVE_BUFFER as int)
    }
}

/// The part of `datagram` that is read.
pub fn read_of(datagram: &[u8]) -> (read: &[u8])
    ensures
        read@ == read_part(datagram@),
{
    if datagram.len() <= RECEIVE_BUFFER {
        datagram
    } else {
        slice_subrange(datagram, 0, RECEIVE_BUFFER)
    }
}

/// The observer's transport. It signs its requests with the address that
/// it is bound to.
pub struct DiscoveryServer {
    ip: Ipv4,
    request: ManagerRequest,
}

impl DiscoveryServer {
    /// The address that the transport is bound to.
    pub closed spec fn ip(&self) -> Ipv4 {
        self.ip
    }

    /// The requests are signed with the dotted-quad text of the address.
    #[verifier::type_invariant]
    spec fn signed(&self) -> bool {
        self.request@ == dotted(self.ip)
    }

    /// The transport of the observer at `ip`.
    pub fn new(ip: Ipv4) -> (server: Self)
        ensures
            server.ip() == ip,
    {
        Self { ip, request: ManagerRequest::new(ip.to_text()) }
    }

    /// The endpoint that the transport binds: the observer's address and
    /// [`HOST_PORT`].
    pub fn local_endpoint(&self) -> (endpoint: Endpoint)
        ensures
            endpoint == (Endpoint { ip: self.ip(), port: HOST_PORT }),
    {
        Endpoint { ip: self.ip, port: HOST_PORT }
    }

    /// What a command makes the transport send: a descriptor request to the
    /// peer port of the address that the command names.
    pub fn targeted_request(&self, command: DiscoveryCommand) -> (outgoing: Outgoing)
        ensures
            command matches DiscoveryCommand::DeviceInformation(target) && outgoing.to == (Endpoint {
                ip: target,
                port: TARGET_PORT,
            }),
            outgoing.payload@ == encoded_request(RequestView::Spec { sender_ip: dotted(self.ip()) }),
    {
        proof {
            use_type_invariant(self);
        }
        match command {
            DiscoveryCommand::DeviceInformation(target) => Outgoing {
                payload: self.request.spec_request_json(),
                to: Endpoint { ip: target, port: TARGET_PORT },
            },
        }
    }

    /// What the transport sends at every interval: a usage request to the
    /// peer port of the broadcast address.
    pub fn broadcast_request(&self) -> (outgoing: Outgoing)
        ensures
            outgoing.to == (Endpoint { ip: broadcast_ip(), port: TARGET_PORT }),
            outgoing.payload@ == encoded_request(
                RequestView::UsageOverview { sender_ip: dotted(self.ip()) },
            ),
    {
        proof {
            use_type_invariant(self);
        }
        Outgoing {
            payload: self.request.usage_overview_request_json(),
            to: Endpoint { ip: Ipv4::from_octets(255, 255, 255, 255), port: TARGET_PORT },
        }
    }

    /// What a datagram that arrives is passed on as: the response that the
    /// part of it that is read stands for, and nothing where that part
    /// stands for none.
    pub fn receive(datagram: &[u8]) -> (response: Option<ResponseSchema>)
        ensures
            match response {
                Some(r) => decoded_response(read_part(datagram@)) == Some(r@),
                None => decoded_response(read_part(datagram@)) is None,
            },
    {
        ResponseSchema::from_json(read_of(datagram))
    }
}

} // verus!
