//! The drone.
use std::collections::{HashMap, HashSet};

use vstd::prelude::*;

use crate::action::{Action, ActionView, Fallback};
use crate::controller::{DroneCommand, DroneEvent};
use crate::input::Input;
use crate::model::{
    DroneView, ANGEL_BITS, BACKFLIP_BITS, DEVIL_BITS, ONE_BITS, ZERO_BITS,
};
use crate::network::{NodeId, NodeType, RouteView, SourceRoutingHeader};
use crate::packet::{Fragment, FloodRequest, Nack, NackType, Packet, PacketType, PacketView};
use crate::single::Single;

verus! {

broadcast use vstd::std_specs::hash::group_hash_axioms;

/// A drone. `S` is whatever sends packets to a neighbour; the drone keeps it and never looks at it.
#[verifier::reject_recursive_types(S)]
pub struct KrustyCrapDrone<S> {
    /// The drone's own node.
    id: NodeId,
    /// The neighbours' senders.
    packet_send: HashMap<NodeId, S>,
    /// The packet drop rate, from 0.0 to 1.0.
    pdr: Single,
    /// The floods seen so far, by initiator.
    floods: HashMap<NodeId, HashSet<u64>>,
    /// Whether the drone has been told to crash.
    crashing_behavior: bool,
}

/// Whether `floods` holds the flood `key`.
spec fn holds_flood(floods: Map<NodeId, HashSet<u64>>, key: (NodeId, u64)) -> bool {
    floods.contains_key(key.0) && floods[key.0]@.contains(key.1)
}

/// What a sequence contains once `last` is put at its end.
proof fn lemma_push_contains(nodes: Seq<NodeId>, last: NodeId, id: NodeId)
    ensures
        nodes.push(last).contains(id) <==> id == last || nodes.contains(id),
{
    if nodes.contains(id) {
        let i = nodes.index_of(id);
        assert(nodes.push(last)[i] == id);
    }
    assert(nodes.push(last)[nodes.len() as int] == last);
}

/// Once every node of `all` was looked at, what was chosen is all of them but `exclude_id`.
proof fn lemma_all_visited(all: Seq<NodeId>, visited: int, chosen: Seq<NodeId>, exclude_id: NodeId)
    requires
        forall|id: NodeId| #[trigger]
            chosen.contains(id) <==> id != exclude_id && all.take(visited).contains(id),
    ensures
        visited == all.len() ==> chosen.to_set() == all.to_set().remove(exclude_id),
{
    if visited == all.len() {
        assert(all.take(visited) =~= all);
        assert forall|id: NodeId| #[trigger]
            chosen.to_set().contains(id) <==> all.to_set().remove(exclude_id).contains(id) by {
            assert(chosen.to_set().contains(id) <==> chosen.contains(id));
            assert(all.to_set().contains(id) <==> all.contains(id));
        }
        assert(chosen.to_set() =~= all.to_set().remove(exclude_id));
    }
}

impl<S> View for KrustyCrapDrone<S> {
    type V = DroneView<S>;

    closed spec fn view(&self) -> DroneView<S> {
        DroneView {
            id: self.id,
            neighbors: self.packet_send@,
            pdr: self.pdr,
            floods: Set::new(|key: (NodeId, u64)| holds_flood(self.floods@, key)),
            crashing: self.crashing_behavior,
        }
    }
}

impl<S> KrustyCrapDrone<S> {
    /// A drone that has seen no flood and is not crashing.
    pub fn new(id: NodeId, packet_send: HashMap<NodeId, S>, pdr: Single) -> (drone: Self)
        ensures
            drone@ == (DroneView {
                id,
                neighbors: packet_send@,
                pdr,
                floods: Set::<(NodeId, u64)>::empty(),
                crashing: false,
            }),
    {
        let drone = KrustyCrapDrone {
            id,
            packet_send,
            pdr,
            floods: HashMap::new(),
            crashing_behavior: false,
        };
        assert(drone@.floods =~= Set::<(NodeId, u64)>::empty());
        drone
    }

    /// What sends packets to the neighbour `id`.
    pub fn sender_of(&self, id: NodeId) -> (sender: Option<&S>)
        ensures
            sender is Some <==> self@.neighbors.contains_key(id),
            sender matches Some(sender) ==> *sender == self@.neighbors[id],
    {
        self.packet_send.get(&id)
    }

    /// What sends packets to the next hop of a route.
    pub fn get_sender_of_next(&self, routing_header: &SourceRoutingHeader) -> (sender: Option<&S>)
        ensures
            sender is Some <==> self@.sender_of_next(routing_header@) is Some,
            sender matches Some(sender) ==> Some(*sender) == self@.sender_of_next(routing_header@),
    {
        match routing_header.next_hop() {
            Some(next_hop_id) => self.packet_send.get(&next_hop_id),
            None => None,
        }
    }

    /// Hands an event to the controller.
    pub fn send_event(&self, event: DroneEvent, actions: &mut Vec<Action>)
        ensures
            Action::views(final(actions)@) == Action::views(old(actions)@).push(
                ActionView::Notify(event@),
            ),
    {
        actions.push(Action::Notify(event));
    }

    /// Sends a packet to the next hop, or through the controller where there is no way to it.
    pub fn send_to_next_hop(&self, packet: Packet) -> (actions: Vec<Action>)
        requires
            packet.routing_header.hop_index < usize::MAX,
        ensures
            Action::views(actions@) == self@.next_hop_actions(packet@),
    {
        let ghost old_packet = packet@;
        let mut packet = packet;
        let mut actions: Vec<Action> = Vec::new();
        let next_hop_id = packet.routing_header.next_hop();
        let connected = self.get_sender_of_next(&packet.routing_header).is_some();
        packet.routing_header.increase_hop_index();
        match next_hop_id {
            Some(to) if connected => {
                actions.push(Action::Transmit { to, packet, fallback: Fallback::Controller });
            },
            _ => {
                self.send_event(DroneEvent::ControllerShortcut(packet), &mut actions);
            },
        }
        assert(Action::views(actions@) =~= self@.next_hop_actions(old_packet));
        actions
    }

    /// Answers a fragment that is not handed on, with a packet on the way back.
    pub fn send_nack(
        &self,
        nack_type: NackType,
        fragment_index: u64,
        routing_header: SourceRoutingHeader,
        session_id: u64,
    ) -> (actions: Vec<Action>)
        requires
            routing_header.hop_index < usize::MAX,
        ensures
            Action::views(actions@) == self@.nack_actions(
                nack_type,
                fragment_index,
                routing_header@,
                session_id,
            ),
    {
        let mut routing_header = routing_header;
        let nack = Nack { fragment_index, nack_type };
        routing_header.turn_back();
        self.send_to_next_hop(Packet::new_nack(routing_header, session_id, nack))
    }

    /// Hands a fragment on, loses it, or answers why it goes no further. `roll` is a number drawn
    /// from 0.0 up to, but not including, 1.0; the fragment is lost where it is less than the drop
    /// rate.
    pub fn handle_fragment(
        &self,
        fragment: Fragment,
        routing_header: SourceRoutingHeader,
        session_id: u64,
        roll: Single,
    ) -> (actions: Vec<Action>)
        requires
            routing_header.hop_index < usize::MAX,
        ensures
            Action::views(actions@) == self@.fragment_actions(
                fragment,
                routing_header@,
                session_id,
                roll,
            ),
    {
        let fragment_index: u64 = fragment.fragment_index;

        if self.crashing_behavior {
            return self.send_nack(
                NackType::ErrorInRouting(self.id),
                fragment_index,
                routing_header,
                session_id,
            );
        }
        let Some(current_hop_id) = routing_header.current_hop() else {
            return self.send_nack(
                NackType::UnexpectedRecipient(self.id),
                fragment_index,
                routing_header,
                session_id,
            );
        };
        if self.id != current_hop_id {
            return self.send_nack(
                NackType::UnexpectedRecipient(self.id),
                fragment_index,
                routing_header,
                session_id,
            );
        }
        let Some(next_hop_id) = routing_header.next_hop() else {
            return self.send_nack(
                NackType::DestinationIsDrone,
                fragment_index,
                routing_header,
                session_id,
            );
        };
        if self.sender_of(next_hop_id).is_none() {
            return self.send_nack(
                NackType::ErrorInRouting(next_hop_id),
                fragment_index,
                routing_header,
                session_id,
            );
        }
        let mut packet = Packet::new_fragment(routing_header.clone(), session_id, fragment);
        let mut actions: Vec<Action> = Vec::new();
        if roll.less_than(self.pdr) {
            self.send_event(DroneEvent::PacketDropped(packet), &mut actions);
            let mut nack = self.send_nack(
                NackType::Dropped,
                fragment_index,
                routing_header,
                session_id,
            );
            let ghost nack_actions = nack@;
            let ghost dropped = actions@;
            actions.append(&mut nack);
            assert(Action::views(dropped + nack_actions) =~= Action::views(dropped)
                + Action::views(nack_actions));
        } else {
            packet.routing_header.increase_hop_index();
            actions.push(
                Action::Transmit { to: next_hop_id, packet, fallback: Fallback::Nothing },
            );
        }
        assert(Action::views(actions@) =~= self@.fragment_actions(
            fragment,
            routing_header@,
            session_id,
            roll,
        ));
        actions
    }

    /// The node before the last one of a trace, if there is one.
    pub fn get_prev_node_id(&self, path_trace: &Vec<(NodeId, NodeType)>) -> (prev: Option<NodeId>)
        ensures
            prev == crate::model::prev_node(path_trace@),
            prev is Some <==> path_trace@.len() > 1,
            prev matches Some(id) ==> id == path_trace@[path_trace@.len() - 2].0,
    {
        if path_trace.len() > 1 {
            Some(path_trace[path_trace.len() - 2].0)
        } else {
            None
        }
    }

    /// The neighbours other than `exclude_id`, in no particular order.
    pub fn get_neighbors_except(&self, exclude_id: NodeId) -> (neighbors: Vec<NodeId>)
        ensures
            crate::model::enumerates(neighbors@, self@.neighbors_except(exclude_id)),
            neighbors@.no_duplicates(),
            forall|id: NodeId| #[trigger]
                neighbors@.contains(id) <==> self@.neighbors.contains_key(id) && id != exclude_id,
    {
        let mut neighbors: Vec<NodeId> = Vec::new();
        for node_id in keys: self.packet_send.keys()
            invariant
                keys.seq().unref().to_set() == self.packet_send@.dom(),
                keys.seq().no_duplicates(),
                neighbors@.no_duplicates(),
                forall|id: NodeId| #[trigger]
                    neighbors@.contains(id) <==> id != exclude_id && keys.seq().unref().take(
                        keys.index(),
                    ).contains(id),
                keys.index() == keys.seq().len() ==> neighbors@.to_set()
                    == self@.neighbors_except(exclude_id),
        {
            let ghost all = keys.seq().unref();
            let ghost seen = all.take(keys.index());
            let ghost chosen = neighbors@;
            proof {
                assert(all.take(keys.index() + 1) =~= seen.push(*node_id));
                assert(!seen.contains(*node_id)) by {
                    assert(forall|i: int| 0 <= i < seen.len() ==> seen[i] == *keys.seq()[i]);
                }
                assert forall|id: NodeId| #[trigger]
                    seen.push(*node_id).contains(id) <==> id == *node_id || seen.contains(id) by {
                    lemma_push_contains(seen, *node_id, id);
                }
                assert forall|id: NodeId| #[trigger]
                    chosen.push(*node_id).contains(id) <==> id == *node_id || chosen.contains(
                        id,
                    ) by {
                    lemma_push_contains(chosen, *node_id, id);
                }
                assert(!chosen.contains(*node_id));
            }
            if *node_id != exclude_id {
                neighbors.push(*node_id);
            }
            proof {
                lemma_all_visited(all, keys.index() + 1, neighbors@, exclude_id);
            }
        }
        assert forall|id: NodeId| #[trigger]
            neighbors@.contains(id) <==> self@.neighbors.contains_key(id) && id != exclude_id by {
            assert(neighbors@.to_set().contains(id) <==> neighbors@.contains(id));
        }
        neighbors
    }

    /// Passes a flood request on to each of `neighbors`. The packets carry no route: a flood
    /// needs none.
    pub fn forward_flood_request(
        &self,
        neighbors: Vec<NodeId>,
        request: FloodRequest,
        session_id: u64,
    ) -> (actions: Vec<Action>)
        ensures
            Action::views(actions@) == crate::model::transmissions(
                neighbors@,
                PacketView::flood_request(RouteView::empty(), session_id, request@),
            ),
    {
        let ghost copy = PacketView::flood_request(RouteView::empty(), session_id, request@);
        let mut actions: Vec<Action> = Vec::new();
        let mut i: usize = 0;
        while i < neighbors.len()
            invariant
                i <= neighbors.len(),
                copy == PacketView::flood_request(RouteView::empty(), session_id, request@),
                Action::views(actions@) == crate::model::transmissions(
                    neighbors@.take(i as int),
                    copy,
                ),
            decreases neighbors.len() - i,
        {
            let routing_header = SourceRoutingHeader::empty_route();
            let packet = Packet::new_flood_request(routing_header, session_id, request.clone());
            let ghost before = actions@;
            actions.push(
                Action::Transmit { to: neighbors[i], packet, fallback: Fallback::Nothing },
            );
            assert(Action::views(actions@) =~= Action::views(before).push(
                actions@.last()@,
            ));
            i = i + 1;
            assert(crate::model::transmissions(neighbors@.take(i as int), copy)
                =~= crate::model::transmissions(neighbors@.take(i - 1), copy).push(
                ActionView::Transmit {
                    to: neighbors@[i - 1],
                    packet: copy,
                    fallback: Fallback::Nothing,
                },
            ));
        }
        assert(neighbors@.take(i as int) =~= neighbors@);
        actions
    }

    /// Whether the flood `flood_id` of `initiator_id` has been seen.
    fn has_seen(&self, initiator_id: NodeId, flood_id: u64) -> (seen: bool)
        ensures
            seen == self@.floods.contains((initiator_id, flood_id)),
    {
        match self.floods.get(&initiator_id) {
            Some(ids) => ids.contains(&flood_id),
            None => false,
        }
    }

    /// Notes that the flood `flood_id` of `initiator_id` has been seen.
    fn remember(&mut self, initiator_id: NodeId, flood_id: u64)
        ensures
            final(self)@ == (DroneView {
                floods: old(self)@.floods.insert((initiator_id, flood_id)),
                ..old(self)@
            }),
    {
        let ids = self.floods.entry(initiator_id).or_insert(HashSet::new());
        ids.insert(flood_id);
        assert(self@.floods =~= old(self)@.floods.insert((initiator_id, flood_id)));
    }

    /// Passes a flood request on to the other neighbours, or answers it where it was seen before
    /// or there is nobody else to ask.
    pub fn handle_flood_request(&mut self, flood_request: FloodRequest, session_id: u64) -> (actions:
        Vec<Action>)
        ensures
            final(self)@ == old(self)@.flooded(flood_request@),
            old(self)@.answers_flood(flood_request@, session_id, Action::views(actions@)),
    {
        let ghost request = flood_request@;
        let mut flood_request = flood_request;
        let mut actions: Vec<Action> = Vec::new();

        if self.crashing_behavior {
            assert(Action::views(actions@) =~= Seq::<ActionView>::empty());
            return actions;
        }
        flood_request.increment(self.id, NodeType::Drone);
        let flood_id: u64 = flood_request.flood_id;
        let initiator_id: NodeId = flood_request.initiator_id;
        let ghost traced = flood_request@;

        if self.has_seen(initiator_id, flood_id) {
            assert(self@.floods.insert((initiator_id, flood_id)) =~= self@.floods);
            actions.push(Action::Respond { request: flood_request, session_id });
            assert(Action::views(actions@) =~= seq![
                ActionView::Respond { request: traced, session_id },
            ]);
            return actions;
        }
        self.remember(initiator_id, flood_id);
        let Some(sender_id) = self.get_prev_node_id(&flood_request.path_trace) else {
            assert(Action::views(actions@) =~= Seq::<ActionView>::empty());
            return actions;
        };
        let neighbors = self.get_neighbors_except(sender_id);
        let ghost targets = self@.neighbors_except(sender_id);
        if neighbors.len() > 0 {
            assert(neighbors@.to_set().contains(neighbors@[0]));
            let ghost order = neighbors@;
            let actions = self.forward_flood_request(neighbors, flood_request, session_id);
            assert(crate::model::enumerates(order, targets));
            actions
        } else {
            assert(neighbors@.to_set() =~= Set::<NodeId>::empty());
            actions.push(Action::Respond { request: flood_request, session_id });
            assert(Action::views(actions@) =~= seq![
                ActionView::Respond { request: traced, session_id },
            ]);
            actions
        }
    }

    /// Sends a negative answer on its way.
    pub fn handle_nack(&self, packet: Packet) -> (actions: Vec<Action>)
        requires
            packet.routing_header.hop_index < usize::MAX,
        ensures
            Action::views(actions@) == self@.next_hop_actions(packet@),
    {
        self.send_to_next_hop(packet)
    }

    /// Sends an answer on its way.
    pub fn handle_ack(&self, packet: Packet) -> (actions: Vec<Action>)
        requires
            packet.routing_header.hop_index < usize::MAX,
        ensures
            Action::views(actions@) == self@.next_hop_actions(packet@),
    {
        self.send_to_next_hop(packet)
    }

    /// Sends the answer to a flood on its way.
    pub fn handle_flood_response(&self, packet: Packet) -> (actions: Vec<Action>)
        requires
            packet.routing_header.hop_index < usize::MAX,
        ensures
            Action::views(actions@) == self@.next_hop_actions(packet@),
    {
        self.send_to_next_hop(packet)
    }

    /// Deals with a packet, each kind in its own way. `roll` is the number drawn for a fragment.
    pub fn handle_packet(&mut self, packet: Packet, roll: Single) -> (actions: Vec<Action>)
        requires
            packet@.can_move_on(),
        ensures
            final(self)@ == old(self)@.received(packet@),
            old(self)@.answers_packet(packet@, roll, Action::views(actions@)),
    {
        match packet.pack_type {
            PacketType::Nack(_) => self.handle_nack(packet),
            PacketType::Ack(_) => self.handle_ack(packet),
            PacketType::MsgFragment(fragment) => self.handle_fragment(
                fragment,
                packet.routing_header,
                packet.session_id,
                roll,
            ),
            PacketType::FloodRequest(flood_request) => self.handle_flood_request(
                flood_request,
                packet.session_id,
            ),
            PacketType::FloodResponse(_) => self.handle_flood_response(packet),
        }
    }

    /// Follows an order.
    pub fn handle_command(&mut self, command: DroneCommand<S>)
        ensures
            final(self)@ == old(self)@.commanded(command),
    {
        match command {
            DroneCommand::AddSender(id, sender) => {
                self.packet_send.insert(id, sender);
            },
            DroneCommand::RemoveSender(id) => {
                self.packet_send.remove(&id);
            },
            DroneCommand::SetPacketDropRate(pdr) => {
                self.pdr = pdr;
            },
            DroneCommand::Crash => {
                self.crashing_behavior = true;
            },
        }
    }

    /// One turn of the main loop.
    pub fn run_step(&mut self, input: Input<S>, roll: Single) -> (actions: Vec<Action>)
        requires
            input@.can_move_on(),
        ensures
            final(self)@ == old(self)@.stepped(input@),
            old(self)@.answers_input(input@, roll, Action::views(actions@)),
    {
        let actions = match input {
            Input::Command(command) => {
                self.handle_command(command);
                Vec::new()
            },
            Input::Packet(packet) => self.handle_packet(packet, roll),
            Input::Closed => Vec::new(),
        };
        assert(actions@.len() == 0 ==> Action::views(actions@)
            =~= Seq::<ActionView>::empty());
        actions
    }

    /// Whether the main loop is over. `queue_empty` tells whether no packet waits for the drone.
    pub fn is_finished(&self, queue_empty: bool) -> (finished: bool)
        ensures
            finished == self@.finished(queue_empty),
            finished <==> self@.crashing && queue_empty,
    {
        self.crashing_behavior && queue_empty
    }

    /// Looks for a special drop rate before the main loop begins, and returns what to print, if
    /// anything.
    pub fn ester_egg(&mut self) -> (line: Option<&'static str>)
        ensures
            final(self)@ == old(self)@.egged(),
            line is Some <==> old(self)@.pdr.same(Single { bits: BACKFLIP_BITS }),
            line matches Some(line) ==> line@ == crate::model::backflip_line(),
    {
        if self.pdr.equals(Single::from_bits(ANGEL_BITS)) {
            self.pdr = Single::from_bits(ZERO_BITS);
        }
        if self.pdr.equals(Single::from_bits(DEVIL_BITS)) {
            self.pdr = Single::from_bits(ONE_BITS);
        }
        if self.pdr.equals(Single::from_bits(BACKFLIP_BITS)) {
            Some(Self::request_to_do_a_backflip())
        } else {
            None
        }
    }

    /// The reply to whoever asks for a backflip.
    pub fn request_to_do_a_backflip() -> (line: &'static str)
        ensures
            line@ == crate::model::backflip_line(),
    {
        "You really thought that I can do a backflip? Bruuuh, you got scammed"
    }
}

} // verus!
