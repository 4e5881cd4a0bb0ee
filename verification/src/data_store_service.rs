//! The keeper of the registry: it applies each response to the registry,
//! asks for the descriptor of a node when it is first seen, and removes the
//! nodes that have been silent for too long.

use crate::clock::unix_seconds;
use crate::commands::DiscoveryCommand;
use crate::data_store::{
    lists_overviews, overview_of, registry_wf, with_info, with_usage, DataStore, NodeOverview, NodeView,
};
use crate::address::Ipv4;
use crate::device_info::{MachineInfoView, MachineUsageView};
use crate::target_messages::{ResponseSchema, ResponseView};
use vstd::prelude::*;

verus! {

/// The number of seconds of silence after which a node is lost.
pub const THRESHOLD: u64 = 30;

/// The number of seconds between two searches for lost nodes.
pub const CHECK_FREQUENCY: u64 = 10;

/// A node is lost at the time `now` when its last write lies more than
/// [`THRESHOLD`] seconds back.
pub open spec fn is_lost(node: NodeView, now: u64) -> bool {
    node.last_updated + THRESHOLD < now
}

/// The nodes of a registry that are lost at the time `now`.
pub open spec fn lost_nodes(nodes: Map<u32, NodeView>, now: u64) -> Map<u32, NodeView> {
    Map::new(|ip: u32| nodes.contains_key(ip) && is_lost(nodes[ip], now), |ip: u32| nodes[ip])
}

/// The nodes of a registry that are not lost at the time `now`.
pub open spec fn live_nodes(nodes: Map<u32, NodeView>, now: u64) -> Map<u32, NodeView> {
    Map::new(|ip: u32| nodes.contains_key(ip) && !is_lost(nodes[ip], now), |ip: u32| nodes[ip])
}

/// The registry after a response has been applied at the time `now`.
pub open spec fn after_response(nodes: Map<u32, NodeView>, response: ResponseView, now: u64) -> Map<
    u32,
    NodeView,
> {
    match response {
        ResponseView::Spec { ip, spec } => with_info(nodes, ip@, spec, now),
        ResponseView::UsageOverview { ip, usage } => with_usage(nodes, ip@, usage, now),
    }
}

/// What a response makes the keeper ask of the transport: the descriptor
/// of a node whose first usage sample this is, and nothing otherwise.
pub open spec fn follow_up(nodes: Map<u32, NodeView>, response: ResponseView) -> Option<
    DiscoveryCommand,
> {
    match response {
        ResponseView::Spec { ip, spec } => None,
        ResponseView::UsageOverview { ip, usage } => if nodes.contains_key(ip@) {
            None
        } else {
            Some(DiscoveryCommand::DeviceInformation(ip))
        },
    }
}

/// The overview `shown` is that of a node lost at the time `now`.
spec fn shown_lost(shown: NodeOverview, now: u64) -> bool {
    shown.last_updated + THRESHOLD < now
}

/// The address of the `i`-th overview of `listed`.
spec fn ip_at(listed: Seq<NodeOverview>, i: int) -> u32 {
    listed[i].ip@
}

/// `ip` is the address of a lost node among the overviews of `listed` from
/// the position `from` on.
spec fn swept(listed: Seq<NodeOverview>, from: int, now: u64, ip: u32) -> bool {
    exists|i: int|
        from <= i < listed.len() && #[trigger] ip_at(listed, i) == ip && shown_lost(listed[i], now)
}

/// The registry `before` without the lost nodes that `listed` shows from the
/// position `from` on.
spec fn unswept(before: Map<u32, NodeView>, listed: Seq<NodeOverview>, from: int, now: u64) -> Map<
    u32,
    NodeView,
> {
    Map::new(
        |ip: u32| before.contains_key(ip) && !swept(listed, from, now, ip),
        |ip: u32| before[ip],
    )
}

/// `removed` holds the lost overviews of `listed` from the position `from`
/// on, the last first; `source` gives the position that each came from.
spec fn picked(
    listed: Seq<NodeOverview>,
    from: int,
    now: u64,
    source: Seq<int>,
    removed: Seq<NodeOverview>,
) -> bool {
    &&& source.len() == removed.len()
    &&& forall|j: int|
        0 <= j < source.len() ==> from <= #[trigger] source[j] < listed.len() && removed[j]
            == listed[source[j]] && shown_lost(listed[source[j]], now)
    &&& forall|j: int, k: int|
        0 <= j < k < source.len() ==> #[trigger] source[j] > #[trigger] source[k]
    &&& forall|i: int|
        from <= i < listed.len() && #[trigger] shown_lost(listed[i], now) ==> source.contains(i)
}

proof fn lemma_pick_step(
    listed: Seq<NodeOverview>,
    at: int,
    now: u64,
    source: Seq<int>,
    removed: Seq<NodeOverview>,
)
    requires
        0 <= at < listed.len(),
        picked(listed, at + 1, now, source, removed),
    ensures
        shown_lost(listed[at], now) ==> picked(
            listed,
            at,
            now,
            source.push(at),
            removed.push(listed[at]),
        ),
        !shown_lost(listed[at], now) ==> picked(listed, at, now, source, removed),
{
    if shown_lost(listed[at], now) {
        let grown = source.push(at);
        let more = removed.push(listed[at]);
        assert forall|i: int|
            at <= i < listed.len() && #[trigger] shown_lost(listed[i], now) implies grown.contains(
            i,
        ) by {
            if i == at {
                assert(grown[source.len() as int] == at);
            } else {
                let j = choose|j: int| 0 <= j < source.len() && source[j] == i;
                assert(grown[j] == i);
            }
        }
        assert forall|j: int| 0 <= j < grown.len() implies at <= #[trigger] grown[j]
            < listed.len() && more[j] == listed[grown[j]] && shown_lost(listed[grown[j]], now) by {
            if j < source.len() {
                assert(grown[j] == source[j]);
            }
        }
        assert forall|j: int, k: int| 0 <= j < k < grown.len() implies #[trigger] grown[j]
            > #[trigger] grown[k] by {
            assert(grown[j] == source[j]);
            if k < source.len() {
                assert(grown[k] == source[k]);
            }
        }
    } else {
        assert forall|j: int| 0 <= j < source.len() implies at <= #[trigger] source[j] by {}
    }
}

proof fn lemma_sweep_step(
    before: Map<u32, NodeView>,
    listed: Seq<NodeOverview>,
    at: int,
    now: u64,
    earlier: Map<u32, NodeView>,
    later: Map<u32, NodeView>,
)
    requires
        0 <= at < listed.len(),
        earlier == unswept(before, listed, at + 1, now),
        later == if shown_lost(listed[at], now) {
            earlier.remove(listed[at].ip@)
        } else {
            earlier
        },
    ensures
        later == unswept(before, listed, at, now),
{
    let target = unswept(before, listed, at, now);
    assert forall|ip: u32| swept(listed, at, now, ip) <==> swept(listed, at + 1, now, ip) || (ip
        == listed[at].ip@ && shown_lost(listed[at], now)) by {
        if swept(listed, at, now, ip) {
            let i = choose|i: int|
                at <= i < listed.len() && #[trigger] ip_at(listed, i) == ip && shown_lost(
                    listed[i],
                    now,
                );
            if i != at {
                assert(at + 1 <= i < listed.len() && ip_at(listed, i) == ip);
            }
        }
        if swept(listed, at + 1, now, ip) {
            let i = choose|i: int|
                at + 1 <= i < listed.len() && #[trigger] ip_at(listed, i) == ip && shown_lost(
                    listed[i],
                    now,
                );
            assert(at <= i < listed.len() && ip_at(listed, i) == ip);
        }
        if ip == listed[at].ip@ && shown_lost(listed[at], now) {
            assert(ip_at(listed, at) == ip);
        }
    }
    assert(later =~= target);
}

proof fn lemma_sweep_done(
    before: Map<u32, NodeView>,
    listed: Seq<NodeOverview>,
    now: u64,
    source: Seq<int>,
    removed: Seq<NodeOverview>,
)
    requires
        registry_wf(before),
        lists_overviews(listed, before),
        picked(listed, 0, now, source, removed),
    ensures
        unswept(before, listed, 0, now) == live_nodes(before, now),
        lists_overviews(removed, lost_nodes(before, now)),
{
    let lost = lost_nodes(before, now);
    assert forall|ip: u32| before.contains_key(ip) implies (swept(listed, 0, now, ip) <==> is_lost(
        before[ip],
        now,
    )) by {
        if swept(listed, 0, now, ip) {
            let i = choose|i: int|
                0 <= i < listed.len() && #[trigger] ip_at(listed, i) == ip && shown_lost(
                    listed[i],
                    now,
                );
            assert(listed[i]@ == overview_of(before[ip]));
        }
        if is_lost(before[ip], now) {
            let i = choose|i: int| 0 <= i < listed.len() && (#[trigger] listed[i]).ip@ == ip;
            assert(ip_at(listed, i) == ip);
            assert(listed[i]@ == overview_of(before[ip]));
        }
    }
    assert(unswept(before, listed, 0, now) =~= live_nodes(before, now));
    assert forall|j: int| 0 <= j < removed.len() implies lost.contains_key(
        (#[trigger] removed[j]).ip@,
    ) && removed[j]@ == overview_of(lost[removed[j].ip@]) by {
        let i = source[j];
        assert(removed[j] == listed[i]);
        assert(listed[i]@ == overview_of(before[listed[i].ip@]));
    }
    assert forall|j: int, k: int| 0 <= j < k < removed.len() implies (#[trigger] removed[j]).ip@ != (
    #[trigger] removed[k]).ip@ by {
        assert(source[j] > source[k]);
        assert(removed[j] == listed[source[j]]);
        assert(removed[k] == listed[source[k]]);
    }
    assert forall|ip: u32| #[trigger] lost.contains_key(ip) implies exists|j: int|
        0 <= j < removed.len() && (#[trigger] removed[j]).ip@ == ip by {
        let i = choose|i: int| 0 <= i < listed.len() && (#[trigger] listed[i]).ip@ == ip;
        assert(listed[i]@ == overview_of(before[ip]));
        assert(shown_lost(listed[i], now));
        let j = choose|j: int| 0 <= j < source.len() && source[j] == i;
        assert(removed[j] == listed[i]);
    }
    let ips = removed.map_values(|o: NodeOverview| o.ip@);
    assert(ips.no_duplicates());
    assert(ips.to_set() =~= lost.dom()) by {
        assert forall|ip: u32| lost.dom().contains(ip) implies ips.to_set().contains(ip) by {
            let j = choose|j: int| 0 <= j < removed.len() && (#[trigger] removed[j]).ip@ == ip;
            assert(ips[j] == ip);
        }
        assert forall|ip: u32| ips.to_set().contains(ip) implies lost.dom().contains(ip) by {
            let j = choose|j: int| 0 <= j < ips.len() && ips[j] == ip;
            assert(removed[j].ip@ == ip);
        }
    }
    ips.unique_seq_to_set();
}

/// The keeper of one registry.
pub struct DataStoreService {
    data_store: DataStore,
}

impl View for DataStoreService {
    type V = Map<u32, NodeView>;

    closed spec fn view(&self) -> Map<u32, NodeView> {
        self.data_store@
    }
}

impl DataStoreService {
    /// The invariant of the keeper, which every keeper meets: that of its
    /// registry.
    pub open spec fn wf(&self) -> bool {
        registry_wf(self@)
    }

    /// The keeper of `data_store`.
    pub fn new(data_store: DataStore) -> (service: Self)
        ensures
            service@ == data_store@,
            service.wf(),
    {
        proof {
            use_type_invariant(&data_store);
            data_store.lemma_filed();
        }
        Self { data_store }
    }

    /// The registry, to read.
    pub fn data_store(&self) -> (data_store: &DataStore)
        ensures
            data_store@ == self@,
            self.wf(),
    {
        proof {
            use_type_invariant(&self.data_store);
            self.data_store.lemma_filed();
        }
        &self.data_store
    }

    /// Applies one response at the time `now`. A descriptor is stored with
    /// its node; a usage sample is recorded, and where it is the first of
    /// its address the result asks for that node's descriptor.
    pub fn watch_response_at(&mut self, response: ResponseSchema, now: u64) -> (command: Option<
        DiscoveryCommand,
    >)
        ensures
            old(self).wf(),
            final(self).wf(),
            final(self)@ == after_response(old(self)@, response@, now),
            command == follow_up(old(self)@, response@),
    {
        match response {
            ResponseSchema::Spec(spec_response) => {
                self.data_store.update_node_information_at(
                    spec_response.ip,
                    spec_response.spec,
                    now,
                );
                None
            },
            ResponseSchema::UsageOverview(usage_response) => {
                let is_new = self.data_store.update_usage_at(
                    usage_response.ip,
                    usage_response.usage,
                    now,
                );
                if is_new {
                    Some(DiscoveryCommand::DeviceInformation(usage_response.ip))
                } else {
                    None
                }
            },
        }
    }

    /// Applies one response at the present time: what
    /// [`DataStoreService::watch_response_at`] does for some reading of the
    /// clock.
    pub fn watch_response(&mut self, response: ResponseSchema) -> (command: Option<
        DiscoveryCommand,
    >)
        ensures
            old(self).wf(),
            final(self).wf(),
            exists|now: u64| final(self)@ == after_response(old(self)@, response@, now),
            command == follow_up(old(self)@, response@),
    {
        let now = unix_seconds();
        self.watch_response_at(response, now)
    }

    /// Removes the nodes that are lost at the time `now`, and hands out
    /// what the registry showed of each before it went.
    pub fn check_lost_connection_at(&mut self, now: u64) -> (removed: Vec<NodeOverview>)
        ensures
            old(self).wf(),
            final(self).wf(),
            final(self)@ == live_nodes(old(self)@, now),
            lists_overviews(removed@, lost_nodes(old(self)@, now)),
    {
        let mut pending = self.data_store.get_node_overview();
        let mut removed: Vec<NodeOverview> = Vec::new();
        let ghost before = self@;
        let ghost listed = pending@;
        let ghost mut source: Seq<int> = Seq::empty();
        proof {
            assert(self@ =~= unswept(before, listed, listed.len() as int, now));
        }
        while pending.len() > 0
            invariant
                registry_wf(before),
                self.wf(),
                lists_overviews(listed, before),
                pending.len() <= listed.len(),
                pending@ == listed.take(pending.len() as int),
                self@ == unswept(before, listed, pending.len() as int, now),
                picked(listed, pending.len() as int, now, source, removed@),
            decreases pending.len(),
        {
            let ghost at = pending.len() - 1;
            let node = pending.pop().unwrap();
            assert(node == listed[at]);
            let ghost earlier = self@;
            proof {
                lemma_pick_step(listed, at, now, source, removed@);
            }
            if now >= THRESHOLD && node.last_updated < now - THRESHOLD {
                self.data_store.remove_node(&node.ip);
                removed.push(node);
                proof {
                    source = source.push(at);
                }
            }
            proof {
                lemma_sweep_step(before, listed, at, now, earlier, self@);
            }
        }
        proof {
            lemma_sweep_done(before, listed, now, source, removed@);
        }
        removed
    }

    /// Removes the nodes that are lost at the present time: what
    /// [`DataStoreService::check_lost_connection_at`] does for some reading
    /// of the clock.
    pub fn check_lost_connection(&mut self) -> (removed: Vec<NodeOverview>)
        ensures
            old(self).wf(),
            final(self).wf(),
            exists|now: u64|
                final(self)@ == live_nodes(old(self)@, now) && lists_overviews(
                    removed@,
                    lost_nodes(old(self)@, now),
                ),
    {
        let now = unix_seconds();
        self.check_lost_connection_at(now)
    }
}

/// Staleness eviction: after a search for lost nodes at the time `now`, a
/// node is in the registry exactly if it was there before and its last
/// write lies no more than [`THRESHOLD`] seconds back; such a node is left
/// as it was.
pub proof fn lemma_search_keeps_the_live(nodes: Map<u32, NodeView>, now: u64, ip: u32)
    ensures
        live_nodes(nodes, now).contains_key(ip) <==> nodes.contains_key(ip) && now
            <= nodes[ip].last_updated + THRESHOLD,
        live_nodes(nodes, now).contains_key(ip) ==> live_nodes(nodes, now)[ip] == nodes[ip],
        lost_nodes(nodes, now).contains_key(ip) <==> nodes.contains_key(ip) && !live_nodes(
            nodes,
            now,
        ).contains_key(ip),
{
}

/// A node that has been written at the time `written` and not since is
/// gone after a search made more than [`THRESHOLD`] seconds later, however
/// many searches came before.
pub proof fn lemma_silent_node_goes(nodes: Map<u32, NodeView>, ip: u32, earlier: u64, later: u64)
    requires
        nodes.contains_key(ip),
        earlier <= later,
        nodes[ip].last_updated + THRESHOLD < later,
    ensures
        !live_nodes(live_nodes(nodes, earlier), later).contains_key(ip),
{
}

/// Where an address stands in the life of a node.
pub enum NodeState {
    /// The registry holds nothing on the address: it was never seen, or its
    /// node has been removed.
    Unseen,
    /// The registry holds usage of the address, and no descriptor yet.
    TrackedWithoutDescriptor,
    /// The registry holds usage and a descriptor of the address.
    TrackedWithDescriptor,
}

/// Where `ip` stands in the registry `nodes`.
pub open spec fn state_of(nodes: Map<u32, NodeView>, ip: u32) -> NodeState {
    if !nodes.contains_key(ip) {
        NodeState::Unseen
    } else if nodes[ip].machine_info is None {
        NodeState::TrackedWithoutDescriptor
    } else {
        NodeState::TrackedWithDescriptor
    }
}

/// The life of a node. A usage sample makes an unseen address tracked
/// without a descriptor, and leaves a tracked one where it stands. A
/// descriptor is dropped for an unseen address, and makes a tracked one
/// tracked with a descriptor. A search for lost nodes makes a lost address
/// unseen and leaves every other where it stands. A response and a search
/// touch no address but these.
pub proof fn lemma_node_life(
    nodes: Map<u32, NodeView>,
    ip: Ipv4,
    usage: MachineUsageView,
    spec: MachineInfoView,
    now: u64,
    other: u32,
)
    requires
        other != ip@,
    ensures
        state_of(after_response(nodes, ResponseView::UsageOverview { ip, usage }, now), ip@) == (
        match state_of(nodes, ip@) {
            NodeState::Unseen => NodeState::TrackedWithoutDescriptor,
            known => known,
        }),
        state_of(after_response(nodes, ResponseView::Spec { ip, spec }, now), ip@) == (match state_of(
            nodes,
            ip@,
        ) {
            NodeState::Unseen => NodeState::Unseen,
            _ => NodeState::TrackedWithDescriptor,
        }),
        state_of(live_nodes(nodes, now), ip@) == (if nodes.contains_key(ip@) && is_lost(
            nodes[ip@],
            now,
        ) {
            NodeState::Unseen
        } else {
            state_of(nodes, ip@)
        }),
        state_of(after_response(nodes, ResponseView::UsageOverview { ip, usage }, now), other)
            == state_of(nodes, other),
        state_of(after_response(nodes, ResponseView::Spec { ip, spec }, now), other) == state_of(
            nodes,
            other,
        ),
        follow_up(nodes, ResponseView::UsageOverview { ip, usage }) is Some <==> state_of(nodes, ip@)
            is Unseen,
{
}

} // verus!
