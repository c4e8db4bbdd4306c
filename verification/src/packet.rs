//! What travels through the network.
use vstd::prelude::*;

use crate::network::{NodeId, NodeType, RouteView, SourceRoutingHeader};

verus! {

/// How many bytes of a message one fragment can hold.
pub const FRAGMENT_DSIZE: usize = 128;

/// One piece of a message.
#[derive(Clone, Copy, Debug, PartialEq, Eq)]
pub struct Fragment {
    pub fragment_index: u64,
    pub total_n_fragments: u64,
    pub length: u8,
    pub data: [u8; FRAGMENT_DSIZE],
}

/// The answer to a fragment that arrived.
#[derive(Clone, Copy, Debug, PartialEq, Eq)]
pub struct Ack {
    pub fragment_index: u64,
}

/// Why a fragment was not handed on.
#[derive(Clone, Copy, Debug, PartialEq, Eq)]
pub enum NackType {
    /// The named node cannot be reached.
    ErrorInRouting(NodeId),
    /// The route ends at a drone.
    DestinationIsDrone,
    /// The fragment was lost on purpose.
    Dropped,
    /// The fragment came to the named node, which the route does not have at this place.
    UnexpectedRecipient(NodeId),
}

/// The answer to a fragment that was not handed on.
#[derive(Clone, Copy, Debug, PartialEq, Eq)]
pub struct Nack {
    pub fragment_index: u64,
    pub nack_type: NackType,
}

/// A question about the shape of the network, passed from neighbour to neighbour.
#[derive(Debug, PartialEq, Eq)]
pub struct FloodRequest {
    pub flood_id: u64,
    pub initiator_id: NodeId,
    /// The nodes that the request came through, in order.
    pub path_trace: Vec<(NodeId, NodeType)>,
}

/// The answer to a flood request.
#[derive(Debug, PartialEq, Eq)]
pub struct FloodResponse {
    pub flood_id: u64,
    pub path_trace: Vec<(NodeId, NodeType)>,
}

/// The kinds of packets.
#[derive(Debug, PartialEq, Eq)]
pub enum PacketType {
    MsgFragment(Fragment),
    Ack(Ack),
    Nack(Nack),
    FloodRequest(FloodRequest),
    FloodResponse(FloodResponse),
}

/// A packet: what it carries, the way it takes and the session it belongs to.
#[derive(Debug, PartialEq, Eq)]
pub struct Packet {
    pub routing_header: SourceRoutingHeader,
    pub session_id: u64,
    pub pack_type: PacketType,
}

/// A flood request as a mathematical value.
#[verifier::ext_equal]
pub struct FloodRequestView {
    pub flood_id: u64,
    pub initiator_id: NodeId,
    pub path_trace: Seq<(NodeId, NodeType)>,
}

/// A flood response as a mathematical value.
#[verifier::ext_equal]
pub struct FloodResponseView {
    pub flood_id: u64,
    pub path_trace: Seq<(NodeId, NodeType)>,
}

/// What a packet carries, as a mathematical value.
#[verifier::ext_equal]
pub enum PacketTypeView {
    MsgFragment(Fragment),
    Ack(Ack),
    Nack(Nack),
    FloodRequest(FloodRequestView),
    FloodResponse(FloodResponseView),
}

/// A packet as a mathematical value.
#[verifier::ext_equal]
pub struct PacketView {
    pub routing_header: RouteView,
    pub session_id: u64,
    pub pack_type: PacketTypeView,
}

impl View for FloodRequest {
    type V = FloodRequestView;

    open spec fn view(&self) -> FloodRequestView {
        FloodRequestView {
            flood_id: self.flood_id,
            initiator_id: self.initiator_id,
            path_trace: self.path_trace@,
        }
    }
}

impl View for FloodResponse {
    type V = FloodResponseView;

    open spec fn view(&self) -> FloodResponseView {
        FloodResponseView { flood_id: self.flood_id, path_trace: self.path_trace@ }
    }
}

impl View for PacketType {
    type V = PacketTypeView;

    open spec fn view(&self) -> PacketTypeView {
        match *self {
            PacketType::MsgFragment(fragment) => PacketTypeView::MsgFragment(fragment),
            PacketType::Ack(ack) => PacketTypeView::Ack(ack),
            PacketType::Nack(nack) => PacketTypeView::Nack(nack),
            PacketType::FloodRequest(request) => PacketTypeView::FloodRequest(request@),
            PacketType::FloodResponse(response) => PacketTypeView::FloodResponse(response@),
        }
    }
}

impl View for Packet {
    type V = PacketView;

    open spec fn view(&self) -> PacketView {
        PacketView {
            routing_header: self.routing_header@,
            session_id: self.session_id,
            pack_type: self.pack_type@,
        }
    }
}

impl FloodRequestView {
    /// The request with one more node at the end of its trace.
    pub open spec fn incremented(self, id: NodeId, node_type: NodeType) -> FloodRequestView {
        FloodRequestView { path_trace: self.path_trace.push((id, node_type)), ..self }
    }

    /// What tells one flood from another: who began it, and its number there.
    pub open spec fn key(self) -> (NodeId, u64) {
        (self.initiator_id, self.flood_id)
    }
}

impl PacketView {
    /// A packet that carries `fragment`.
    pub open spec fn fragment(
        routing_header: RouteView,
        session_id: u64,
        fragment: Fragment,
    ) -> PacketView {
        PacketView { routing_header, session_id, pack_type: PacketTypeView::MsgFragment(fragment) }
    }

    /// A packet that carries `nack`.
    pub open spec fn nack(routing_header: RouteView, session_id: u64, nack: Nack) -> PacketView {
        PacketView { routing_header, session_id, pack_type: PacketTypeView::Nack(nack) }
    }

    /// A packet that carries `request`.
    pub open spec fn flood_request(
        routing_header: RouteView,
        session_id: u64,
        request: FloodRequestView,
    ) -> PacketView {
        PacketView { routing_header, session_id, pack_type: PacketTypeView::FloodRequest(request) }
    }

    /// The same packet, one hop further on its route.
    pub open spec fn advanced(self) -> PacketView {
        PacketView { routing_header: self.routing_header.advanced(), ..self }
    }

    /// Whether the hop index can be counted up, or need not be: flood requests have no route.
    pub open spec fn can_move_on(self) -> bool {
        self.pack_type is FloodRequest || self.routing_header.hop_index < usize::MAX
    }
}

/// A copy of a flood's trace.
fn copy_trace(trace: &Vec<(NodeId, NodeType)>) -> (copy: Vec<(NodeId, NodeType)>)
    ensures
        copy@ == trace@,
{
    let mut copy: Vec<(NodeId, NodeType)> = Vec::new();
    let mut i: usize = 0;
    while i < trace.len()
        invariant
            i <= trace.len(),
            copy@ == trace@.take(i as int),
        decreases trace.len() - i,
    {
        copy.push((trace[i].0, trace[i].1));
        i = i + 1;
        assert(trace@.take(i as int) =~= trace@.take(i - 1).push(trace@[i - 1]));
    }
    assert(trace@.take(i as int) =~= trace@);
    copy
}

impl Clone for FloodRequest {
    fn clone(&self) -> (copy: Self)
        ensures
            copy@ == self@,
    {
        FloodRequest {
            flood_id: self.flood_id,
            initiator_id: self.initiator_id,
            path_trace: copy_trace(&self.path_trace),
        }
    }
}

impl Clone for FloodResponse {
    fn clone(&self) -> (copy: Self)
        ensures
            copy@ == self@,
    {
        FloodResponse { flood_id: self.flood_id, path_trace: copy_trace(&self.path_trace) }
    }
}

impl Clone for PacketType {
    fn clone(&self) -> (copy: Self)
        ensures
            copy@ == self@,
    {
        match self {
            PacketType::MsgFragment(fragment) => PacketType::MsgFragment(*fragment),
            PacketType::Ack(ack) => PacketType::Ack(*ack),
            PacketType::Nack(nack) => PacketType::Nack(*nack),
            PacketType::FloodRequest(request) => PacketType::FloodRequest(request.clone()),
            PacketType::FloodResponse(response) => PacketType::FloodResponse(response.clone()),
        }
    }
}

impl Clone for Packet {
    fn clone(&self) -> (copy: Self)
        ensures
            copy@ == self@,
    {
        Packet {
            routing_header: self.routing_header.clone(),
            session_id: self.session_id,
            pack_type: self.pack_type.clone(),
        }
    }
}

impl FloodRequest {
    /// Adds a node to the trace.
    pub fn increment(&mut self, id: NodeId, node_type: NodeType)
        ensures
            final(self)@ == old(self)@.incremented(id, node_type),
            final(self).flood_id == old(self).flood_id,
            final(self).initiator_id == old(self).initiator_id,
            final(self).path_trace@ == old(self).path_trace@.push((id, node_type)),
    {
        self.path_trace.push((id, node_type));
    }
}

impl Packet {
    /// Packs a fragment.
    pub fn new_fragment(
        routing_header: SourceRoutingHeader,
        session_id: u64,
        fragment: Fragment,
    ) -> (packet: Self)
        ensures
            packet@ == PacketView::fragment(routing_header@, session_id, fragment),
            packet.routing_header == routing_header,
            packet.session_id == session_id,
            packet.pack_type == PacketType::MsgFragment(fragment),
    {
        Packet { routing_header, session_id, pack_type: PacketType::MsgFragment(fragment) }
    }

    /// Packs a negative answer.
    pub fn new_nack(routing_header: SourceRoutingHeader, session_id: u64, nack: Nack) -> (packet: Self)
        ensures
            packet@ == PacketView::nack(routing_header@, session_id, nack),
            packet.routing_header == routing_header,
            packet.session_id == session_id,
            packet.pack_type == PacketType::Nack(nack),
    {
        Packet { routing_header, session_id, pack_type: PacketType::Nack(nack) }
    }

    /// Packs a flood request.
    pub fn new_flood_request(
        routing_header: SourceRoutingHeader,
        session_id: u64,
        request: FloodRequest,
    ) -> (packet: Self)
        ensures
            packet@ == PacketView::flood_request(routing_header@, session_id, request@),
            packet.routing_header == routing_header,
            packet.session_id == session_id,
            packet.pack_type == PacketType::FloodRequest(request),
    {
        Packet { routing_header, session_id, pack_type: PacketType::FloodRequest(request) }
    }
}

} // verus!
