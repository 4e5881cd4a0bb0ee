//! The registry of known nodes.
//!
//! A node is known by its IPv4 address. It carries the descriptor of the
//! machine behind that address, once one has arrived, a history of its usage
//! samples with the newest first and at most [`HISTORY_LIMIT`] of them, and
//! the time of the last write. All times are Unix seconds.

use crate::address::Ipv4;
use crate::clock::unix_seconds;
use crate::device_info::{MachineInfo, MachineInfoView, MachineUsage, MachineUsageView};
use std::collections::HashMap;
use std::collections::VecDeque;
use vstd::prelude::*;
use vstd::std_specs::iter::IteratorSpec;

verus! {

broadcast use vstd::std_specs::hash::group_hash_axioms;

/// The largest number of usage records kept for one node.
pub const HISTORY_LIMIT: usize = 500;

/// The mathematical value of one usage record: a sample and the second at
/// which the registry received it.
pub struct UsageRecordView {
    pub machine_usage: MachineUsageView,
    pub timestamp: u64,
}

/// The mathematical value of a node.
pub struct NodeView {
    pub ip: u32,
    pub machine_info: Option<MachineInfoView>,
    pub usage: Seq<UsageRecordView>,
    pub last_updated: u64,
}

/// The mathematical value of a node's overview.
pub struct NodeOverviewView {
    pub ip: u32,
    pub machine_info: Option<MachineInfoView>,
    pub usage: Option<MachineUsageView>,
    pub last_updated: u64,
}

/// A history cut down to its [`HISTORY_LIMIT`] newest records.
pub open spec fn capped(history: Seq<UsageRecordView>) -> Seq<UsageRecordView> {
    if history.len() > HISTORY_LIMIT {
        history.take(HISTORY_LIMIT as int)
    } else {
        history
    }
}

/// The node that a first usage sample creates.
pub open spec fn node_created(ip: u32, usage: MachineUsageView, now: u64) -> NodeView {
    NodeView {
        ip,
        machine_info: None,
        usage: seq![UsageRecordView { machine_usage: usage, timestamp: now }],
        last_updated: now,
    }
}

/// A node after one more usage sample: the sample comes first in the
/// history, and the oldest record leaves where the limit is passed.
pub open spec fn node_with_usage(node: NodeView, usage: MachineUsageView, now: u64) -> NodeView {
    NodeView {
        usage: capped(seq![UsageRecordView { machine_usage: usage, timestamp: now }] + node.usage),
        last_updated: now,
        ..node
    }
}

/// A node after a descriptor has arrived: the history is emptied where the
/// node had another descriptor before, and kept otherwise.
pub open spec fn node_with_info(node: NodeView, info: MachineInfoView, now: u64) -> NodeView {
    NodeView {
        machine_info: Some(info),
        usage: if node.machine_info is Some && node.machine_info != Some(info) {
            Seq::empty()
        } else {
            node.usage
        },
        last_updated: now,
        ..node
    }
}

/// What an overview shows of a node: its newest sample in place of the
/// history.
pub open spec fn overview_of(node: NodeView) -> NodeOverviewView {
    NodeOverviewView {
        ip: node.ip,
        machine_info: node.machine_info,
        usage: if node.usage.len() > 0 {
            Some(node.usage[0].machine_usage)
        } else {
            None
        },
        last_updated: node.last_updated,
    }
}

/// A registry after a usage sample for `ip`.
pub open spec fn with_usage(
    nodes: Map<u32, NodeView>,
    ip: u32,
    usage: MachineUsageView,
    now: u64,
) -> Map<u32, NodeView> {
    if nodes.contains_key(ip) {
        nodes.insert(ip, node_with_usage(nodes[ip], usage, now))
    } else {
        nodes.insert(ip, node_created(ip, usage, now))
    }
}

/// A registry after a descriptor for `ip`: unchanged where `ip` is unknown.
pub open spec fn with_info(
    nodes: Map<u32, NodeView>,
    ip: u32,
    info: MachineInfoView,
    now: u64,
) -> Map<u32, NodeView> {
    if nodes.contains_key(ip) {
        nodes.insert(ip, node_with_info(nodes[ip], info, now))
    } else {
        nodes
    }
}

/// Every node is filed under its own address and holds no more records than
/// the limit.
pub open spec fn registry_wf(nodes: Map<u32, NodeView>) -> bool {
    forall|ip: u32| #[trigger]
        nodes.contains_key(ip) ==> nodes[ip].ip == ip && nodes[ip].usage.len() <= HISTORY_LIMIT
}

struct MachineUsageRecord {
    machine_usage: MachineUsage,
    timestamp: u64,
}

impl View for MachineUsageRecord {
    type V = UsageRecordView;

    closed spec fn view(&self) -> UsageRecordView {
        UsageRecordView { machine_usage: self.machine_usage@, timestamp: self.timestamp }
    }
}

struct Node {
    ip: Ipv4,
    machine_info: Option<MachineInfo>,
    usage: VecDeque<MachineUsageRecord>,
    last_updated: u64,
}

/// The value of an optional descriptor.
pub open spec fn info_view(info: Option<MachineInfo>) -> Option<MachineInfoView> {
    match info {
        Some(i) => Some(i@),
        None => None,
    }
}

/// The value of an optional usage sample.
pub open spec fn usage_view(usage: Option<MachineUsage>) -> Option<MachineUsageView> {
    match usage {
        Some(u) => Some(u@),
        None => None,
    }
}

impl View for Node {
    type V = NodeView;

    closed spec fn view(&self) -> NodeView {
        NodeView {
            ip: self.ip@,
            machine_info: info_view(self.machine_info),
            usage: self.usage@.map_values(|r: MachineUsageRecord| r@),
            last_updated: self.last_updated,
        }
    }
}

fn clone_info(info: &Option<MachineInfo>) -> (copy: Option<MachineInfo>)
    ensures
        info_view(copy) == info_view(*info),
{
    match info {
        Some(i) => Some(i.clone()),
        None => None,
    }
}

impl Node {
    fn new(ip: Ipv4, machine_info: Option<MachineInfo>, machine_usage: MachineUsage, now: u64) -> (node:
        Node)
        ensures
            node@ == (NodeView { machine_info: info_view(machine_info), ..node_created(
                ip@,
                machine_usage@,
                now,
            ) }),
    {
        let mut usage: VecDeque<MachineUsageRecord> = VecDeque::with_capacity(HISTORY_LIMIT);
        let record = MachineUsageRecord { machine_usage, timestamp: now };
        usage.push_front(record);
        let node = Node { ip, machine_info, usage, last_updated: now };
        assert(node@.usage =~= seq![record@]);
        node
    }

    /// Puts one more sample in front of the history; the oldest record
    /// leaves first where the history is full.
    fn update_usage(&mut self, machine_usage: MachineUsage, now: u64)
        requires
            old(self)@.usage.len() <= HISTORY_LIMIT,
        ensures
            final(self)@ == node_with_usage(old(self)@, machine_usage@, now),
            final(self)@.usage.len() <= HISTORY_LIMIT,
    {
        if self.usage.len() >= HISTORY_LIMIT {
            self.usage.pop_back();
        }
        let record = MachineUsageRecord { machine_usage, timestamp: now };
        self.usage.push_front(record);
        self.last_updated = now;
        assert(self@.usage =~= node_with_usage(old(self)@, machine_usage@, now).usage);
    }

    /// Stores a descriptor; the history is emptied where it differs from
    /// the one held before.
    fn update_info(&mut self, machine_info: MachineInfo, now: u64)
        ensures
            final(self)@ == node_with_info(old(self)@, machine_info@, now),
    {
        let changed = match &self.machine_info {
            Some(info) => !(*info == machine_info),
            None => false,
        };
        if changed {
            self.usage = VecDeque::with_capacity(HISTORY_LIMIT);
        }
        self.machine_info = Some(machine_info);
        self.last_updated = now;
        assert(self@.usage =~= node_with_info(old(self)@, machine_info@, now).usage);
    }

    fn to_node_data(&self) -> (data: NodeData)
        ensures
            data@ == self@,
    {
        let mut usage: Vec<MachineUsageData> = Vec::new();
        let mut i: usize = 0;
        while i < self.usage.len()
            invariant
                i <= self.usage.len(),
                usage.len() == i,
                forall|j: int| 0 <= j < i ==> (#[trigger] usage[j])@ == self.usage@[j]@,
            decreases self.usage.len() - i,
        {
            let record = &self.usage[i];
            usage.push(
                MachineUsageData {
                    machine_usage: record.machine_usage.clone(),
                    timestamp: record.timestamp,
                },
            );
            i += 1;
        }
        let data = NodeData {
            ip: self.ip,
            machine_info: clone_info(&self.machine_info),
            usage,
            last_updated: self.last_updated,
        };
        assert(data@.usage =~= self@.usage);
        data
    }

    fn to_overview(&self) -> (overview: NodeOverview)
        ensures
            overview@ == overview_of(self@),
    {
        let usage = if self.usage.len() > 0 {
            Some(self.usage[0].machine_usage.clone())
        } else {
            None
        };
        NodeOverview {
            ip: self.ip,
            machine_info: clone_info(&self.machine_info),
            usage,
            last_updated: self.last_updated,
        }
    }
}

/// One record of a node's history, as handed out.
#[derive(Debug)]
pub struct MachineUsageData {
    pub machine_usage: MachineUsage,
    pub timestamp: u64,
}

impl View for MachineUsageData {
    type V = UsageRecordView;

    open spec fn view(&self) -> UsageRecordView {
        UsageRecordView { machine_usage: self.machine_usage@, timestamp: self.timestamp }
    }
}

/// A copy of everything the registry holds on one node.
#[derive(Debug)]
pub struct NodeData {
    pub ip: Ipv4,
    pub machine_info: Option<MachineInfo>,
    pub usage: Vec<MachineUsageData>,
    pub last_updated: u64,
}

impl View for NodeData {
    type V = NodeView;

    open spec fn view(&self) -> NodeView {
        NodeView {
            ip: self.ip@,
            machine_info: info_view(self.machine_info),
            usage: self.usage@.map_values(|r: MachineUsageData| r@),
            last_updated: self.last_updated,
        }
    }
}

impl Clone for MachineUsageData {
    fn clone(&self) -> (copy: Self)
        ensures
            copy@ == self@,
    {
        MachineUsageData { machine_usage: self.machine_usage.clone(), timestamp: self.timestamp }
    }
}

impl Clone for NodeData {
    fn clone(&self) -> (copy: Self)
        ensures
            copy@ == self@,
    {
        let mut usage: Vec<MachineUsageData> = Vec::new();
        let mut i: usize = 0;
        while i < self.usage.len()
            invariant
                i <= self.usage.len(),
                usage.len() == i,
                forall|j: int| 0 <= j < i ==> (#[trigger] usage[j])@ == self.usage[j]@,
            decreases self.usage.len() - i,
        {
            usage.push(self.usage[i].clone());
            i += 1;
        }
        let copy = NodeData {
            ip: self.ip,
            machine_info: clone_info(&self.machine_info),
            usage,
            last_updated: self.last_updated,
        };
        assert(copy@.usage =~= self@.usage);
        copy
    }
}

/// A copy of a node with its newest sample only.
#[derive(Debug)]
pub struct NodeOverview {
    pub ip: Ipv4,
    pub machine_info: Option<MachineInfo>,
    pub usage: Option<MachineUsage>,
    pub last_updated: u64,
}

impl View for NodeOverview {
    type V = NodeOverviewView;

    open spec fn view(&self) -> NodeOverviewView {
        NodeOverviewView {
            ip: self.ip@,
            machine_info: info_view(self.machine_info),
            usage: usage_view(self.usage),
            last_updated: self.last_updated,
        }
    }
}

impl Default for DataStore {
    /// An empty registry.
    fn default() -> (store: Self)
        ensures
            store@ == Map::<u32, NodeView>::empty(),
            store.wf(),
    {
        DataStore::new()
    }
}

impl Clone for NodeOverview {
    fn clone(&self) -> (copy: Self)
        ensures
            copy@ == self@,
    {
        NodeOverview {
            ip: self.ip,
            machine_info: clone_info(&self.machine_info),
            usage: match &self.usage {
                Some(usage) => Some(usage.clone()),
                None => None,
            },
            last_updated: self.last_updated,
        }
    }
}

/// `listed` holds the overview of every node of `nodes`, each once, and
/// nothing else. The order is left open.
pub open spec fn lists_overviews(listed: Seq<NodeOverview>, nodes: Map<u32, NodeView>) -> bool {
    &&& listed.len() == nodes.dom().len()
    &&& forall|i: int|
        0 <= i < listed.len() ==> nodes.contains_key((#[trigger] listed[i]).ip@) && listed[i]@
            == overview_of(nodes[listed[i].ip@])
    &&& forall|i: int, j: int|
        0 <= i < j < listed.len() ==> (#[trigger] listed[i]).ip@ != (#[trigger] listed[j]).ip@
    &&& forall|ip: u32| #[trigger]
        nodes.contains_key(ip) ==> exists|i: int|
            0 <= i < listed.len() && (#[trigger] listed[i]).ip@ == ip
}

/// `listed` holds a full copy of every node of `nodes`, each once, and
/// nothing else. The order is left open.
pub open spec fn lists_nodes(listed: Seq<NodeData>, nodes: Map<u32, NodeView>) -> bool {
    &&& listed.len() == nodes.dom().len()
    &&& forall|i: int|
        0 <= i < listed.len() ==> nodes.contains_key((#[trigger] listed[i]).ip@) && listed[i]@
            == nodes[listed[i].ip@]
    &&& forall|i: int, j: int|
        0 <= i < j < listed.len() ==> (#[trigger] listed[i]).ip@ != (#[trigger] listed[j]).ip@
    &&& forall|ip: u32| #[trigger]
        nodes.contains_key(ip) ==> exists|i: int|
            0 <= i < listed.len() && (#[trigger] listed[i]).ip@ == ip
}

/// The registry: one node for each address that has reported usage and has
/// not been removed since.
pub struct DataStore {
    nodes: HashMap<u32, Node>,
}

impl View for DataStore {
    type V = Map<u32, NodeView>;

    closed spec fn view(&self) -> Map<u32, NodeView> {
        Map::new(|ip: u32| self.nodes@.contains_key(ip), |ip: u32| self.nodes@[ip]@)
    }
}

impl DataStore {
    /// Every node is filed under its own address and holds no more records
    /// than the limit.
    #[verifier::type_invariant]
    pub(crate) closed spec fn filed(&self) -> bool {
        forall|ip: u32| #[trigger]
            self.nodes@.contains_key(ip) ==> self.nodes@[ip]@.ip == ip
                && self.nodes@[ip]@.usage.len() <= HISTORY_LIMIT
    }

    /// The invariant of the registry, which every registry meets.
    pub open spec fn wf(&self) -> bool {
        registry_wf(self@)
    }

    /// What [`DataStore::filed`] says of the nodes, said of the registry's
    /// value.
    pub(crate) proof fn lemma_filed(&self)
        requires
            self.filed(),
        ensures
            self.wf(),
    {
    }

    /// An empty registry.
    pub fn new() -> (store: DataStore)
        ensures
            store@ == Map::<u32, NodeView>::empty(),
            store.wf(),
    {
        let store = DataStore { nodes: HashMap::new() };
        assert(store@ =~= Map::<u32, NodeView>::empty());
        store
    }

    /// A copy of all that is held on `ip`, if it is known.
    pub fn get_node(&self, ip: Ipv4) -> (found: Option<NodeData>)
        ensures
            self.wf(),
            match found {
                Some(data) => self@.contains_key(ip@) && data@ == self@[ip@],
                None => !self@.contains_key(ip@),
            },
    {
        proof {
            use_type_invariant(self);
        }
        let key = ip.to_bits();
        match self.nodes.get(&key) {
            Some(node) => Some(node.to_node_data()),
            None => None,
        }
    }

    /// Records a usage sample for `ip` at the time `now`, and says whether
    /// `ip` was unknown before: a first sample creates the node.
    pub fn update_usage_at(&mut self, ip: Ipv4, machine_usage: MachineUsage, now: u64) -> (is_new:
        bool)
        ensures
            old(self).wf(),
            final(self).wf(),
            final(self)@ == with_usage(old(self)@, ip@, machine_usage@, now),
            is_new == !old(self)@.contains_key(ip@),
    {
        proof {
            use_type_invariant(&*self);
        }
        let key = ip.to_bits();
        let ghost usage = machine_usage@;
        let mut nodes = self.take_nodes();
        let is_new = match nodes.remove(&key) {
            Some(node) => {
                let mut node = node;
                node.update_usage(machine_usage, now);
                nodes.insert(key, node);
                false
            },
            None => {
                nodes.insert(key, Node::new(ip, None, machine_usage, now));
                true
            },
        };
        self.nodes = nodes;
        assert(self@ =~= with_usage(old(self)@, ip@, usage, now));
        is_new
    }

    /// Records a usage sample for `ip` at the present time, and says whether
    /// `ip` was unknown before. The registry afterwards is the one that
    /// [`DataStore::update_usage_at`] gives for some reading of the clock.
    pub fn update_usage(&mut self, ip: Ipv4, machine_usage: MachineUsage) -> (is_new: bool)
        ensures
            old(self).wf(),
            final(self).wf(),
            exists|now: u64| final(self)@ == with_usage(old(self)@, ip@, machine_usage@, now),
            is_new == !old(self)@.contains_key(ip@),
    {
        let now = unix_seconds();
        self.update_usage_at(ip, machine_usage, now)
    }

    /// Stores the descriptor of `ip` at the time `now`. A descriptor for an
    /// unknown address is dropped.
    pub fn update_node_information_at(&mut self, ip: Ipv4, machine_info: MachineInfo, now: u64)
        ensures
            old(self).wf(),
            final(self).wf(),
            final(self)@ == with_info(old(self)@, ip@, machine_info@, now),
    {
        proof {
            use_type_invariant(&*self);
        }
        let key = ip.to_bits();
        let ghost info = machine_info@;
        let mut nodes = self.take_nodes();
        match nodes.remove(&key) {
            Some(node) => {
                let mut node = node;
                node.update_info(machine_info, now);
                nodes.insert(key, node);
            },
            None => {},
        }
        self.nodes = nodes;
        assert(self@ =~= with_info(old(self)@, ip@, info, now));
    }

    /// Stores the descriptor of `ip` at the present time. The registry
    /// afterwards is the one that [`DataStore::update_node_information_at`]
    /// gives for some reading of the clock.
    pub fn update_node_information(&mut self, ip: Ipv4, machine_info: MachineInfo)
        ensures
            old(self).wf(),
            final(self).wf(),
            exists|now: u64| final(self)@ == with_info(old(self)@, ip@, machine_info@, now),
    {
        let now = unix_seconds();
        self.update_node_information_at(ip, machine_info, now)
    }

    /// Removes `ip` from the registry, whatever is held on it.
    pub fn remove_node(&mut self, ip: &Ipv4)
        ensures
            old(self).wf(),
            final(self).wf(),
            final(self)@ == old(self)@.remove(ip@),
    {
        proof {
            use_type_invariant(&*self);
        }
        let key = ip.to_bits();
        let mut nodes = self.take_nodes();
        nodes.remove(&key);
        self.nodes = nodes;
        assert(self@ =~= old(self)@.remove(ip@));
    }

    /// Takes the nodes out of the registry, to put them back changed.
    fn take_nodes(&mut self) -> (nodes: HashMap<u32, Node>)
        ensures
            nodes == old(self).nodes,
            final(self).nodes@ == Map::<u32, Node>::empty(),
    {
        let mut nodes: HashMap<u32, Node> = HashMap::new();
        core::mem::swap(&mut self.nodes, &mut nodes);
        nodes
    }

    /// The addresses of the registry, each once, in the order in which the
    /// map yields them.
    fn key_list(&self) -> (keys: Vec<u32>)
        ensures
            keys@.no_duplicates(),
            keys@.to_set() == self@.dom(),
            keys@.len() == self@.dom().len(),
    {
        let mut keys: Vec<u32> = Vec::new();
        let walk = self.nodes.keys();
        let ghost listed = IteratorSpec::remaining(&walk).unref();
        for key in it: walk
            invariant
                it.seq().unref() == listed,
                keys@ == listed.take(it.index()),
        {
            keys.push(*key);
        }
        assert(keys@ =~= listed);
        assert(self@.dom() =~= self.nodes@.dom());
        keys
    }

    /// The overview of every node: a copy, in no particular order.
    pub fn get_node_overview(&self) -> (listed: Vec<NodeOverview>)
        ensures
            self.wf(),
            lists_overviews(listed@, self@),
    {
        proof {
            use_type_invariant(self);
        }
        let keys = self.key_list();
        let mut listed: Vec<NodeOverview> = Vec::new();
        let mut i: usize = 0;
        while i < keys.len()
            invariant
                self.wf(),
                i <= keys.len(),
                listed.len() == i,
                keys@.to_set() == self@.dom(),
                forall|j: int|
                    0 <= j < i ==> (#[trigger] listed[j]).ip@ == keys[j] && listed[j]@
                        == overview_of(self@[keys[j]]),
            decreases keys.len() - i,
        {
            let key = keys[i];
            assert(keys@.to_set().contains(key));
            match self.nodes.get(&key) {
                Some(node) => {
                    listed.push(node.to_overview());
                },
                None => {
                    assert(false);
                },
            }
            i += 1;
        }
        proof {
            assert forall|ip: u32| #[trigger] self@.contains_key(ip) implies exists|i: int|
                0 <= i < listed.len() && (#[trigger] listed[i]).ip@ == ip by {
                assert(keys@.to_set().contains(ip));
                let at = choose|at: int| 0 <= at < keys@.len() && keys@[at] == ip;
                assert(listed[at].ip@ == ip);
            }
            assert forall|j: int| 0 <= j < listed.len() implies self@.contains_key(
                (#[trigger] listed[j]).ip@,
            ) by {
                assert(keys@.to_set().contains(keys@[j]));
            }
        }
        listed
    }

    /// The overview of every node: the same as
    /// [`DataStore::get_node_overview`].
    pub fn get_node_status(&self) -> (listed: Vec<NodeOverview>)
        ensures
            self.wf(),
            lists_overviews(listed@, self@),
    {
        self.get_node_overview()
    }

    /// A full copy of every node, in no particular order.
    pub fn get_nodes(&self) -> (listed: Vec<NodeData>)
        ensures
            self.wf(),
            lists_nodes(listed@, self@),
    {
        proof {
            use_type_invariant(self);
        }
        let keys = self.key_list();
        let mut listed: Vec<NodeData> = Vec::new();
        let mut i: usize = 0;
        while i < keys.len()
            invariant
                self.wf(),
                i <= keys.len(),
                listed.len() == i,
                keys@.to_set() == self@.dom(),
                forall|j: int|
                    0 <= j < i ==> (#[trigger] listed[j]).ip@ == keys[j] && listed[j]@
                        == self@[keys[j]],
            decreases keys.len() - i,
        {
            let key = keys[i];
            assert(keys@.to_set().contains(key));
            match self.nodes.get(&key) {
                Some(node) => {
                    listed.push(node.to_node_data());
                },
                None => {
                    assert(false);
                },
            }
            i += 1;
        }
        proof {
            assert forall|ip: u32| #[trigger] self@.contains_key(ip) implies exists|i: int|
                0 <= i < listed.len() && (#[trigger] listed[i]).ip@ == ip by {
                assert(keys@.to_set().contains(ip));
                let at = choose|at: int| 0 <= at < keys@.len() && keys@[at] == ip;
                assert(listed[at].ip@ == ip);
            }
            assert forall|j: int| 0 <= j < listed.len() implies self@.contains_key(
                (#[trigger] listed[j]).ip@,
            ) by {
                assert(keys@.to_set().contains(keys@[j]));
            }
        }
        listed
    }
}

/// One usage sample with the second at which it is recorded.
pub struct TimedUsage {
    pub usage: MachineUsageView,
    pub now: u64,
}

/// The record that a timed sample leaves in a history.
pub open spec fn record_of(sample: TimedUsage) -> UsageRecordView {
    UsageRecordView { machine_usage: sample.usage, timestamp: sample.now }
}

/// The registry after the samples of `samples` have been recorded for `ip`
/// one after the other, the first of the sequence first.
pub open spec fn with_usages(nodes: Map<u32, NodeView>, ip: u32, samples: Seq<TimedUsage>) -> Map<
    u32,
    NodeView,
>
    decreases samples.len(),
{
    if samples.len() == 0 {
        nodes
    } else {
        with_usage(
            with_usages(nodes, ip, samples.drop_last()),
            ip,
            samples.last().usage,
            samples.last().now,
        )
    }
}

/// The records of `samples` with the one recorded last in front.
pub open spec fn newest_first(samples: Seq<TimedUsage>) -> Seq<UsageRecordView> {
    Seq::new(samples.len(), |i: int| record_of(samples[samples.len() - 1 - i]))
}

/// The history of `ip` in a registry: empty where `ip` is unknown.
pub open spec fn history_of(nodes: Map<u32, NodeView>, ip: u32) -> Seq<UsageRecordView> {
    if nodes.contains_key(ip) {
        nodes[ip].usage
    } else {
        Seq::empty()
    }
}

/// Recording samples for one address puts them in front of its history,
/// the newest first, and keeps the newest [`HISTORY_LIMIT`] records of the
/// whole. The registry stays well formed, and the address is known as soon
/// as one sample has been recorded.
pub proof fn lemma_usages_accumulate(nodes: Map<u32, NodeView>, ip: u32, samples: Seq<TimedUsage>)
    requires
        registry_wf(nodes),
    ensures
        registry_wf(with_usages(nodes, ip, samples)),
        samples.len() > 0 ==> with_usages(nodes, ip, samples).contains_key(ip),
        history_of(with_usages(nodes, ip, samples), ip) == capped(
            newest_first(samples) + history_of(nodes, ip),
        ),
    decreases samples.len(),
{
    let old_history = history_of(nodes, ip);
    if samples.len() == 0 {
        assert(newest_first(samples) + old_history =~= old_history);
    } else {
        let earlier = samples.drop_last();
        let last = samples.last();
        lemma_usages_accumulate(nodes, ip, earlier);
        let mid = with_usages(nodes, ip, earlier);
        let mid_history = history_of(mid, ip);
        let done = with_usage(mid, ip, last.usage, last.now);
        assert(history_of(done, ip) == capped(seq![record_of(last)] + mid_history));
        assert(capped(seq![record_of(last)] + mid_history) =~= capped(
            newest_first(samples) + old_history,
        )) by {
            assert(newest_first(samples) =~= seq![record_of(last)] + newest_first(earlier));
            assert(newest_first(samples) + old_history =~= seq![record_of(last)] + (newest_first(
                earlier,
            ) + old_history));
        }
    }
}

/// Bounded history: once [`HISTORY_LIMIT`] samples or more have been
/// recorded for one address, its history holds exactly the newest
/// [`HISTORY_LIMIT`] of them, the newest first.
pub proof fn lemma_history_bounded(nodes: Map<u32, NodeView>, ip: u32, samples: Seq<TimedUsage>)
    requires
        registry_wf(nodes),
        samples.len() >= HISTORY_LIMIT,
    ensures
        with_usages(nodes, ip, samples).contains_key(ip),
        with_usages(nodes, ip, samples)[ip].usage.len() == HISTORY_LIMIT,
        with_usages(nodes, ip, samples)[ip].usage == newest_first(samples).take(
            HISTORY_LIMIT as int,
        ),
{
    lemma_usages_accumulate(nodes, ip, samples);
    assert(capped(newest_first(samples) + history_of(nodes, ip)) =~= newest_first(samples).take(
        HISTORY_LIMIT as int,
    ));
}

/// The times of `samples` do not fall from one sample to the next.
pub open spec fn times_rise(samples: Seq<TimedUsage>) -> bool {
    forall|i: int, j: int| 0 <= i <= j < samples.len() ==> samples[i].now <= samples[j].now
}

/// No record of `history` is newer than a record before it.
pub open spec fn times_fall(history: Seq<UsageRecordView>) -> bool {
    forall|i: int, j: int|
        0 <= i <= j < history.len() ==> history[i].timestamp >= history[j].timestamp
}

/// Reverse chronological order: where the clock does not step back from one
/// sample to the next, and the history that the samples find is in order
/// and no newer than the first of them, the history that they leave runs
/// from the newest time to the oldest.
pub proof fn lemma_history_times_fall(nodes: Map<u32, NodeView>, ip: u32, samples: Seq<TimedUsage>)
    requires
        registry_wf(nodes),
        times_rise(samples),
        times_fall(history_of(nodes, ip)),
        samples.len() > 0 && history_of(nodes, ip).len() > 0 ==> history_of(nodes, ip)[0].timestamp
            <= samples[0].now,
    ensures
        times_fall(history_of(with_usages(nodes, ip, samples), ip)),
{
    lemma_usages_accumulate(nodes, ip, samples);
    let found = history_of(nodes, ip);
    let fresh = newest_first(samples);
    let whole = fresh + found;
    assert forall|i: int, j: int| 0 <= i <= j < whole.len() implies whole[i].timestamp
        >= whole[j].timestamp by {
        if j < fresh.len() {
            assert(samples[samples.len() - 1 - j].now <= samples[samples.len() - 1 - i].now);
        } else if i < fresh.len() {
            assert(samples[0].now <= samples[samples.len() - 1 - i].now);
            assert(found[0].timestamp >= found[j - fresh.len()].timestamp);
        } else {
            assert(found[i - fresh.len()].timestamp >= found[j - fresh.len()].timestamp);
        }
    }
    let kept = capped(whole);
    assert forall|i: int, j: int| 0 <= i <= j < kept.len() implies kept[i].timestamp
        >= kept[j].timestamp by {
        assert(kept[i] == whole[i] && kept[j] == whole[j]);
    }
}

/// Once [`HISTORY_LIMIT`] samples or more have been recorded for one
/// address by a clock that does not step back, its history runs from the
/// newest time to the oldest, whatever it held before.
pub proof fn lemma_bounded_history_times_fall(
    nodes: Map<u32, NodeView>,
    ip: u32,
    samples: Seq<TimedUsage>,
)
    requires
        registry_wf(nodes),
        samples.len() >= HISTORY_LIMIT,
        times_rise(samples),
    ensures
        times_fall(with_usages(nodes, ip, samples)[ip].usage),
{
    lemma_history_bounded(nodes, ip, samples);
    let kept = newest_first(samples).take(HISTORY_LIMIT as int);
    assert forall|i: int, j: int| 0 <= i <= j < kept.len() implies kept[i].timestamp
        >= kept[j].timestamp by {
        assert(samples[samples.len() - 1 - j].now <= samples[samples.len() - 1 - i].now);
    }
}

/// A descriptor that differs from the one held empties the history of its
/// node.
pub proof fn lemma_new_descriptor_resets(
    nodes: Map<u32, NodeView>,
    ip: u32,
    held: MachineInfoView,
    arrived: MachineInfoView,
    now: u64,
)
    requires
        nodes.contains_key(ip),
        nodes[ip].machine_info == Some(held),
        arrived != held,
    ensures
        with_info(nodes, ip, arrived, now)[ip].usage == Seq::<UsageRecordView>::empty(),
        with_info(nodes, ip, arrived, now)[ip].machine_info == Some(arrived),
{
}

/// A descriptor equal to the one held, or the first descriptor of a node,
/// leaves the history as it is.
pub proof fn lemma_same_descriptor_keeps(
    nodes: Map<u32, NodeView>,
    ip: u32,
    arrived: MachineInfoView,
    now: u64,
)
    requires
        nodes.contains_key(ip),
        nodes[ip].machine_info == Some(arrived) || nodes[ip].machine_info is None,
    ensures
        with_info(nodes, ip, arrived, now)[ip].usage == nodes[ip].usage,
        with_info(nodes, ip, arrived, now)[ip].machine_info == Some(arrived),
{
}

/// A descriptor that differs from the one held empties the history, and the
/// same descriptor arriving once more, after any number of samples, keeps
/// all of them.
pub proof fn lemma_descriptor_change_then_repeat(
    nodes: Map<u32, NodeView>,
    ip: u32,
    held: MachineInfoView,
    arrived: MachineInfoView,
    samples: Seq<TimedUsage>,
    first: u64,
    second: u64,
)
    requires
        registry_wf(nodes),
        nodes.contains_key(ip),
        nodes[ip].machine_info == Some(held),
        arrived != held,
    ensures
        ({
            let changed = with_info(nodes, ip, arrived, first);
            let sampled = with_usages(changed, ip, samples);
            let repeated = with_info(sampled, ip, arrived, second);
            &&& changed[ip].usage.len() == 0
            &&& sampled.contains_key(ip)
            &&& repeated[ip].usage == sampled[ip].usage
            &&& repeated[ip].usage == capped(newest_first(samples))
        }),
{
    let changed = with_info(nodes, ip, arrived, first);
    assert(registry_wf(changed));
    lemma_usages_keep_descriptor(changed, ip, samples);
    lemma_usages_accumulate(changed, ip, samples);
    assert(newest_first(samples) + history_of(changed, ip) =~= newest_first(samples));
}

/// Usage samples leave the descriptor of a known node as it is.
pub proof fn lemma_usages_keep_descriptor(
    nodes: Map<u32, NodeView>,
    ip: u32,
    samples: Seq<TimedUsage>,
)
    requires
        nodes.contains_key(ip),
    ensures
        with_usages(nodes, ip, samples).contains_key(ip),
        with_usages(nodes, ip, samples)[ip].machine_info == nodes[ip].machine_info,
    decreases samples.len(),
{
    if samples.len() > 0 {
        lemma_usages_keep_descriptor(nodes, ip, samples.drop_last());
    }
}

/// First seen exactly once: of the samples recorded one after the other for
/// an address that was unknown, the first finds the address unknown and no
/// later one does. What [`DataStore::update_usage_at`] returns for the
/// sample at position `k` is whether the address is unknown after the `k`
/// samples before it.
pub proof fn lemma_first_seen_once(
    nodes: Map<u32, NodeView>,
    ip: u32,
    samples: Seq<TimedUsage>,
    k: int,
)
    requires
        !nodes.contains_key(ip),
        0 <= k < samples.len(),
    ensures
        !with_usages(nodes, ip, samples.take(k)).contains_key(ip) <==> k == 0,
    decreases k,
{
    if k > 0 {
        let before = samples.take(k);
        assert(before.len() > 0);
        assert(with_usages(nodes, ip, before) == with_usage(
            with_usages(nodes, ip, before.drop_last()),
            ip,
            before.last().usage,
            before.last().now,
        ));
    }
}

} // verus!
