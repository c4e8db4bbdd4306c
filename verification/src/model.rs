//! The drone as a mathematical value, and what it does, stated over that value.
use vstd::prelude::*;

use crate::action::{ActionView, Fallback};
use crate::controller::{DroneCommand, EventView};
use crate::input::InputView;
use crate::network::{NodeId, NodeType, RouteView};
use crate::packet::{Fragment, FloodRequestView, Nack, NackType, PacketTypeView, PacketView};
use crate::single::Single;

verus! {

/// The drop rate at whose sight a starting drone loses nothing: 0.777.
pub const ANGEL_BITS: u32 = 0x3f46_e979;

/// The drop rate at whose sight a starting drone loses everything: 0.666.
pub const DEVIL_BITS: u32 = 0x3f2a_7efa;

/// The drop rate at whose sight a starting drone is asked for a backflip: 0.36036036.
pub const BACKFLIP_BITS: u32 = 0x3eb8_8127;

/// 0.0.
pub const ZERO_BITS: u32 = 0;

/// 1.0.
pub const ONE_BITS: u32 = 0x3f80_0000;

/// The reply to whoever asks for a backflip.
pub open spec fn backflip_line() -> Seq<char> {
    "You really thought that I can do a backflip? Bruuuh, you got scammed"@
}

/// What a drone decides about a fragment.
pub enum FragmentVerdict {
    /// It is answered with a negative answer of this kind.
    Refuse(NackType),
    /// It is lost on purpose.
    Drop,
    /// It is handed on to this neighbour.
    Forward(NodeId),
}

/// The state of a drone.
#[verifier::ext_equal]
#[verifier::reject_recursive_types(S)]
pub struct DroneView<S> {
    pub id: NodeId,
    /// The neighbours, each with what sends packets to it.
    pub neighbors: Map<NodeId, S>,
    pub pdr: Single,
    /// The floods seen so far: who began each, and its number there.
    pub floods: Set<(NodeId, u64)>,
    pub crashing: bool,
}

/// The node before the last one of a trace.
pub open spec fn prev_node(path_trace: Seq<(NodeId, NodeType)>) -> Option<NodeId> {
    if path_trace.len() > 1 {
        Some(path_trace[path_trace.len() - 2].0)
    } else {
        None
    }
}

/// `packet` for each node of `order`, one after the other.
pub open spec fn transmissions(order: Seq<NodeId>, packet: PacketView) -> Seq<ActionView> {
    Seq::new(
        order.len(),
        |i: int| ActionView::Transmit { to: order[i], packet, fallback: Fallback::Nothing },
    )
}

/// Whether `order` names each of `targets` exactly once and nothing else.
pub open spec fn enumerates(order: Seq<NodeId>, targets: Set<NodeId>) -> bool {
    order.no_duplicates() && order.to_set() == targets
}

/// Whether `actions` send `packet` to each of `targets` once, in some order, and do nothing else.
pub open spec fn is_fan_out(
    actions: Seq<ActionView>,
    targets: Set<NodeId>,
    packet: PacketView,
) -> bool {
    exists|order: Seq<NodeId>|
        #[trigger] enumerates(order, targets) && actions == transmissions(order, packet)
}

impl<S> DroneView<S> {
    /// The drone after an order.
    pub open spec fn commanded(self, command: DroneCommand<S>) -> DroneView<S> {
        match command {
            DroneCommand::AddSender(id, sender) => DroneView {
                neighbors: self.neighbors.insert(id, sender),
                ..self
            },
            DroneCommand::RemoveSender(id) => DroneView {
                neighbors: self.neighbors.remove(id),
                ..self
            },
            DroneCommand::SetPacketDropRate(pdr) => DroneView { pdr, ..self },
            DroneCommand::Crash => DroneView { crashing: true, ..self },
        }
    }

    /// What sends packets to the next hop of `route`.
    pub open spec fn sender_of_next(self, route: RouteView) -> Option<S> {
        match route.next_hop() {
            Some(next) => self.neighbors.get(next),
            None => None,
        }
    }

    /// What is done with a packet that goes its way: the next hop gets it, or the controller does.
    pub open spec fn next_hop_actions(self, packet: PacketView) -> Seq<ActionView> {
        match packet.routing_header.next_hop() {
            Some(to) if self.neighbors.contains_key(to) => seq![
                ActionView::Transmit {
                    to,
                    packet: packet.advanced(),
                    fallback: Fallback::Controller,
                },
            ],
            _ => seq![ActionView::Notify(EventView::ControllerShortcut(packet.advanced()))],
        }
    }

    /// The negative answer to a fragment, set on the way back.
    pub open spec fn nack_packet(
        nack_type: NackType,
        fragment_index: u64,
        route: RouteView,
        session_id: u64,
    ) -> PacketView {
        PacketView::nack(route.way_back(), session_id, Nack { fragment_index, nack_type })
    }

    /// What is done to answer a fragment that is not handed on.
    pub open spec fn nack_actions(
        self,
        nack_type: NackType,
        fragment_index: u64,
        route: RouteView,
        session_id: u64,
    ) -> Seq<ActionView> {
        self.next_hop_actions(Self::nack_packet(nack_type, fragment_index, route, session_id))
    }

    /// What is decided about a fragment on `route`. `roll` is the number drawn for it.
    pub open spec fn verdict(self, route: RouteView, roll: Single) -> FragmentVerdict {
        if self.crashing {
            FragmentVerdict::Refuse(NackType::ErrorInRouting(self.id))
        } else if route.current_hop() != Some(self.id) {
            FragmentVerdict::Refuse(NackType::UnexpectedRecipient(self.id))
        } else {
            match route.next_hop() {
                None => FragmentVerdict::Refuse(NackType::DestinationIsDrone),
                Some(next) => if !self.neighbors.contains_key(next) {
                    FragmentVerdict::Refuse(NackType::ErrorInRouting(next))
                } else if roll.lt(self.pdr) {
                    FragmentVerdict::Drop
                } else {
                    FragmentVerdict::Forward(next)
                },
            }
        }
    }

    /// What is done with a fragment.
    pub open spec fn fragment_actions(
        self,
        fragment: Fragment,
        route: RouteView,
        session_id: u64,
        roll: Single,
    ) -> Seq<ActionView> {
        let packet = PacketView::fragment(route, session_id, fragment);
        match self.verdict(route, roll) {
            FragmentVerdict::Refuse(nack_type) => self.nack_actions(
                nack_type,
                fragment.fragment_index,
                route,
                session_id,
            ),
            FragmentVerdict::Drop => seq![ActionView::Notify(EventView::PacketDropped(packet))]
                + self.nack_actions(NackType::Dropped, fragment.fragment_index, route, session_id),
            FragmentVerdict::Forward(to) => seq![
                ActionView::Transmit {
                    to,
                    packet: packet.advanced(),
                    fallback: Fallback::Nothing,
                },
            ],
        }
    }

    /// The request as this drone passes it on or answers it.
    pub open spec fn traced(self, request: FloodRequestView) -> FloodRequestView {
        request.incremented(self.id, NodeType::Drone)
    }

    /// The neighbours other than `exclude_id`.
    pub open spec fn neighbors_except(self, exclude_id: NodeId) -> Set<NodeId> {
        self.neighbors.dom().remove(exclude_id)
    }

    /// The drone after a flood request.
    pub open spec fn flooded(self, request: FloodRequestView) -> DroneView<S> {
        if self.crashing {
            self
        } else {
            DroneView { floods: self.floods.insert(request.key()), ..self }
        }
    }

    /// Whether `actions` are what is to be done with a flood request. Only the order in which the
    /// neighbours get it is left open.
    pub open spec fn answers_flood(
        self,
        request: FloodRequestView,
        session_id: u64,
        actions: Seq<ActionView>,
    ) -> bool {
        let traced = self.traced(request);
        let response = seq![ActionView::Respond { request: traced, session_id }];
        if self.crashing {
            actions == Seq::<ActionView>::empty()
        } else if self.floods.contains(request.key()) {
            actions == response
        } else {
            match prev_node(traced.path_trace) {
                None => actions == Seq::<ActionView>::empty(),
                Some(sender) => if self.neighbors_except(sender) == Set::<NodeId>::empty() {
                    actions == response
                } else {
                    is_fan_out(
                        actions,
                        self.neighbors_except(sender),
                        PacketView::flood_request(RouteView::empty(), session_id, traced),
                    )
                },
            }
        }
    }

    /// The drone after a packet.
    pub open spec fn received(self, packet: PacketView) -> DroneView<S> {
        match packet.pack_type {
            PacketTypeView::FloodRequest(request) => self.flooded(request),
            _ => self,
        }
    }

    /// Whether `actions` are what is to be done with a packet.
    pub open spec fn answers_packet(
        self,
        packet: PacketView,
        roll: Single,
        actions: Seq<ActionView>,
    ) -> bool {
        match packet.pack_type {
            PacketTypeView::MsgFragment(fragment) => actions == self.fragment_actions(
                fragment,
                packet.routing_header,
                packet.session_id,
                roll,
            ),
            PacketTypeView::FloodRequest(request) => self.answers_flood(
                request,
                packet.session_id,
                actions,
            ),
            _ => actions == self.next_hop_actions(packet),
        }
    }

    /// The drone after one turn of its main loop.
    pub open spec fn stepped(self, input: InputView<S>) -> DroneView<S> {
        match input {
            InputView::Command(command) => self.commanded(command),
            InputView::Packet(packet) => self.received(packet),
            InputView::Closed => self,
        }
    }

    /// Whether `actions` are what is to be done in one turn of the main loop.
    pub open spec fn answers_input(
        self,
        input: InputView<S>,
        roll: Single,
        actions: Seq<ActionView>,
    ) -> bool {
        match input {
            InputView::Packet(packet) => self.answers_packet(packet, roll, actions),
            _ => actions == Seq::<ActionView>::empty(),
        }
    }

    /// Whether the main loop is over: the drone crashes, and no packet waits for it.
    pub open spec fn finished(self, queue_empty: bool) -> bool {
        self.crashing && queue_empty
    }

    /// The drone after its look at the drop rate that it starts with.
    pub open spec fn egged(self) -> DroneView<S> {
        if self.pdr.same(Single { bits: ANGEL_BITS }) {
            DroneView { pdr: Single { bits: ZERO_BITS }, ..self }
        } else if self.pdr.same(Single { bits: DEVIL_BITS }) {
            DroneView { pdr: Single { bits: ONE_BITS }, ..self }
        } else {
            self
        }
    }
}

} // verus!
