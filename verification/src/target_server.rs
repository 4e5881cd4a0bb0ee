//! The peer's side of the transport: it answers every request with the
//! response of the same kind.

use crate::address::Ipv4;
use crate::constants::TARGET_PORT;
use crate::device_info::{MachineInfoView, MachineUsage};
use crate::discovery_server::{read_of, read_part, Endpoint};
use crate::manager_messages::{decoded_request, ManagerRequestSchema, RequestView};
use crate::target_messages::{
    encoded_response, ResponseView, SpecResponse, UsageOverviewResponse,
};
use crate::usage::{
    sample_of, total_received, total_transmitted, SystemInfo, UsageReading,
};
use vstd::prelude::*;

verus! {

/// The kind of response that a request asks for.
#[derive(Clone, Copy, Debug, PartialEq, Eq, Structural)]
pub enum ReplyKind {
    Spec,
    UsageOverview,
}

/// The kind of response that answers a request: that of the request.
pub open spec fn reply_to(request: RequestView) -> ReplyKind {
    match request {
        RequestView::Spec { sender_ip } => ReplyKind::Spec,
        RequestView::UsageOverview { sender_ip } => ReplyKind::UsageOverview,
    }
}

/// The kind of response that a datagram asks for: that of the request that
/// the part of it that is read stands for.
pub open spec fn asked_by(datagram: Seq<u8>) -> Option<ReplyKind> {
    match decoded_request(read_part(datagram)) {
        Some(request) => Some(reply_to(request)),
        None => None,
    }
}

/// A peer: the address that it answers under and the sampler of its
/// machine.
pub struct TargetServer {
    ip: Ipv4,
    system_info: SystemInfo,
}

impl TargetServer {
    /// The address that the peer answers under.
    pub closed spec fn ip(&self) -> Ipv4 {
        self.ip
    }

    /// The descriptor of the peer's machine.
    pub closed spec fn descriptor(&self) -> MachineInfoView {
        self.system_info@
    }

    /// The peer that answers under `ip` for the machine that `system_info`
    /// samples.
    pub fn new(ip: Ipv4, system_info: SystemInfo) -> (server: Self)
        ensures
            server.ip() == ip,
            server.descriptor() == system_info@,
    {
        Self { ip, system_info }
    }

    /// The endpoint that a peer binds: [`TARGET_PORT`] on every interface.
    pub fn local_endpoint() -> (endpoint: Endpoint)
        ensures
            endpoint == (Endpoint { ip: Ipv4 { a: 0, b: 0, c: 0, d: 0 }, port: TARGET_PORT }),
    {
        Endpoint { ip: Ipv4::from_octets(0, 0, 0, 0), port: TARGET_PORT }
    }

    /// The kind of response that `request` asks for.
    pub fn reply_kind(request: &ManagerRequestSchema) -> (kind: ReplyKind)
        ensures
            kind == reply_to(request@),
    {
        match request {
            ManagerRequestSchema::Spec(_) => ReplyKind::Spec,
            ManagerRequestSchema::UsageOverview(_) => ReplyKind::UsageOverview,
        }
    }

    /// The kind of response that a datagram asks for, and nothing where the
    /// part of it that is read stands for no request.
    pub fn receive(datagram: &[u8]) -> (kind: Option<ReplyKind>)
        ensures
            kind == asked_by(datagram@),
    {
        match ManagerRequestSchema::from_json(read_of(datagram)) {
            Some(request) => Some(TargetServer::reply_kind(&request)),
            None => None,
        }
    }

    /// The text that answers a descriptor request: the descriptor of this
    /// machine under the peer's address.
    pub fn spec_reply(&self) -> (text: String)
        ensures
            text@ == encoded_response(
                ResponseView::Spec { ip: self.ip(), spec: self.descriptor() },
            ),
    {
        SpecResponse::spec_response_json(self.ip, self.system_info.get_machine_info().clone())
    }

    /// The text that answers a usage request: the sample that `reading`
    /// gives, under the peer's address. The traffic of all interfaces,
    /// added up, fits in 64 bits each way.
    pub fn usage_reply(&self, reading: &UsageReading) -> (text: String)
        requires
            total_received(reading.networks@) <= u64::MAX,
            total_transmitted(reading.networks@) <= u64::MAX,
        ensures
            text@ == encoded_response(
                ResponseView::UsageOverview { ip: self.ip(), usage: sample_of(*reading) },
            ),
    {
        let usage: MachineUsage = self.system_info.get_usage(reading);
        UsageOverviewResponse::usage_overview_response_json(self.ip, usage)
    }
}

} // verus!
