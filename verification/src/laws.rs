//! What holds of the drone as a whole.
//!
//! Each law is stated over the values that the contracts of the drone's functions speak of.
use vstd::prelude::*;

use crate::action::{Action, ActionView, Fallback};
use crate::controller::{DroneCommand, DroneEvent, EventView};
use crate::input::{Input, InputView};
use crate::model::{
    DroneView, FragmentVerdict, ANGEL_BITS, BACKFLIP_BITS, DEVIL_BITS, ONE_BITS, ZERO_BITS,
};
use crate::network::{NodeId, NodeType, RouteView, SourceRoutingHeader};
use crate::packet::{
    Fragment, FloodRequest, FloodRequestView, FloodResponse, FloodResponseView, Nack, NackType,
    Packet, PacketType, PacketTypeView, PacketView,
};
use crate::single::Single;

verus! {

/// The packet at position `index` of its route.
pub open spec fn at(packet: PacketView, index: int) -> PacketView {
    PacketView {
        routing_header: RouteView { hop_index: index, hops: packet.routing_header.hops },
        ..packet
    }
}

/// Whether the states, inputs, draws and answers are those of a drone over some turns of its main
/// loop.
pub open spec fn is_run<S>(
    states: Seq<DroneView<S>>,
    inputs: Seq<InputView<S>>,
    rolls: Seq<Single>,
    answers: Seq<Seq<ActionView>>,
) -> bool {
    &&& states.len() == inputs.len() + 1
    &&& rolls.len() == inputs.len()
    &&& answers.len() == inputs.len()
    &&& forall|k: int|
        #![trigger inputs[k]]
        0 <= k < inputs.len() ==> {
            &&& states[k + 1] == states[k].stepped(inputs[k])
            &&& states[k].answers_input(inputs[k], rolls[k], answers[k])
        }
}

/// What the controller hears while `actions` are done, where `delivered` tells of each whether a
/// neighbour took the packet. It is meant for lists without [`ActionView::Respond`]: what is heard
/// of a response depends on the packet that is made for it.
pub open spec fn reports(actions: Seq<ActionView>, delivered: Seq<bool>) -> Seq<EventView>
    recommends
        delivered.len() >= actions.len(),
        forall|i: int| 0 <= i < actions.len() ==> !(#[trigger] actions[i] is Respond),
    decreases actions.len(),
{
    if actions.len() == 0 {
        Seq::empty()
    } else {
        let earlier = reports(actions.drop_last(), delivered);
        match actions.last() {
            ActionView::Notify(event) => earlier.push(event),
            ActionView::Transmit { packet, fallback, .. } => match crate::action::delivery_report(
                packet,
                fallback,
                delivered[actions.len() - 1],
            ) {
                Some(event) => earlier.push(event),
                None => earlier,
            },
            ActionView::Respond { .. } => earlier,
        }
    }
}

/// Those of `actions` that send something to `node`.
pub open spec fn sends_to(actions: Seq<ActionView>, node: NodeId) -> Seq<ActionView> {
    actions.filter(|action: ActionView| action matches ActionView::Transmit { to, .. } && to == node)
}

/// Whoever gets a packet with a route finds itself named there as the current hop.
pub proof fn law_sent_to_the_current_hop<S>(
    drone: DroneView<S>,
    input: InputView<S>,
    roll: Single,
    actions: Seq<ActionView>,
    i: int,
)
    requires
        drone.answers_input(input, roll, actions),
        0 <= i < actions.len(),
    ensures
        actions[i] matches ActionView::Transmit { to, packet, .. } ==> packet.pack_type
            is FloodRequest || packet.routing_header.current_hop() == Some(to),
{
    lemma_transmits(drone, input, roll, actions, i);
}

/// A drone sends to its neighbours only, and the turn that asks for it leaves them in place.
pub proof fn law_sends_to_neighbors_only<S>(
    drone: DroneView<S>,
    input: InputView<S>,
    roll: Single,
    actions: Seq<ActionView>,
    i: int,
)
    requires
        drone.answers_input(input, roll, actions),
        0 <= i < actions.len(),
    ensures
        actions[i] matches ActionView::Transmit { to, .. } ==> drone.neighbors.contains_key(to)
            && drone.stepped(input).neighbors == drone.neighbors,
{
    lemma_transmits(drone, input, roll, actions, i);
}

/// What holds of every packet that is sent in one turn.
proof fn lemma_transmits<S>(
    drone: DroneView<S>,
    input: InputView<S>,
    roll: Single,
    actions: Seq<ActionView>,
    i: int,
)
    requires
        drone.answers_input(input, roll, actions),
        0 <= i < actions.len(),
    ensures
        actions[i] matches ActionView::Transmit { to, packet, .. } ==> {
            &&& drone.neighbors.contains_key(to)
            &&& drone.stepped(input).neighbors == drone.neighbors
            &&& packet.pack_type is FloodRequest || packet.routing_header.current_hop() == Some(to)
        },
{
    if let InputView::Packet(packet) = input {
        if let PacketTypeView::FloodRequest(request) = packet.pack_type {
            let traced = drone.traced(request);
            if !drone.crashing && !drone.floods.contains(request.key()) {
                if let Some(sender) = crate::model::prev_node(traced.path_trace) {
                    let targets = drone.neighbors_except(sender);
                    let copy = PacketView::flood_request(
                        RouteView::empty(),
                        packet.session_id,
                        traced,
                    );
                    if targets != Set::<NodeId>::empty() {
                        let order = choose|order: Seq<NodeId>| #[trigger]
                            crate::model::enumerates(order, targets) && actions
                                == crate::model::transmissions(order, copy);
                        assert(order.to_set().contains(order[i]));
                    }
                }
            }
        }
    }
}

/// Every packet that is not a fragment or a flood request reaches somebody: whatever the channel to
/// the next hop does, the controller hears of it exactly once, and gets the packet itself where no
/// neighbour took it.
pub proof fn law_no_answer_is_lost<S>(drone: DroneView<S>, packet: PacketView, delivered: Seq<bool>)
    requires
        delivered.len() == 1,
    ensures
        reports(drone.next_hop_actions(packet), delivered) == seq![
            if drone.sender_of_next(packet.routing_header) is Some && delivered[0] {
                EventView::PacketSent(packet.advanced())
            } else {
                EventView::ControllerShortcut(packet.advanced())
            },
        ],
{
    let actions = drone.next_hop_actions(packet);
    reveal_with_fuel(reports, 2);
    assert(actions.drop_last() =~= Seq::<ActionView>::empty());
    assert(reports(actions, delivered).len() == 1);
}

/// A lost fragment is reported as it came, before the answer to it is sent.
pub proof fn law_drop_is_reported<S>(
    drone: DroneView<S>,
    fragment: Fragment,
    route: RouteView,
    session_id: u64,
    roll: Single,
    delivered: Seq<bool>,
)
    requires
        drone.verdict(route, roll) is Drop,
        delivered.len() == 2,
    ensures
        ({
            let nack = DroneView::<S>::nack_packet(
                NackType::Dropped,
                fragment.fragment_index,
                route,
                session_id,
            );
            reports(drone.fragment_actions(fragment, route, session_id, roll), delivered) == seq![
                EventView::PacketDropped(PacketView::fragment(route, session_id, fragment)),
                if drone.sender_of_next(nack.routing_header) is Some && delivered[1] {
                    EventView::PacketSent(nack.advanced())
                } else {
                    EventView::ControllerShortcut(nack.advanced())
                },
            ]
        }),
{
    let actions = drone.fragment_actions(fragment, route, session_id, roll);
    reveal_with_fuel(reports, 3);
    assert(actions.len() == 2);
    assert(actions.drop_last().len() == 1);
    assert(actions.drop_last().drop_last() =~= Seq::<ActionView>::empty());
}

/// The way back starts at the current hop, ends where the packet came from, and leads through the
/// same nodes in the opposite order.
pub proof fn law_way_back(route: RouteView)
    requires
        0 <= route.hop_index < route.hops.len(),
    ensures
        route.way_back().current_hop() == route.current_hop(),
        route.way_back().next_hop() == route.hop(route.hop_index - 1),
        route.way_back().hops.len() == route.hop_index + 1,
        route.way_back().hops.last() == route.hops[0],
        forall|j: int|
            0 <= j <= route.hop_index ==> #[trigger] route.way_back().hops[j]
                == route.hops[route.hop_index - j],
{
}

/// Turning round at the end of the way back leads to where the packet was turned round first.
pub proof fn law_way_back_twice(route: RouteView)
    requires
        0 <= route.hop_index < route.hops.len(),
    ensures
        (RouteView {
            hop_index: route.hop_index,
            hops: route.way_back().hops,
        }).way_back().hops == route.hops.take(route.hop_index + 1),
{
    let back = RouteView { hop_index: route.hop_index, hops: route.way_back().hops };
    assert(back.hops.take(back.travelled()) =~= back.hops);
    assert(back.way_back().hops =~= route.hops.take(route.hop_index + 1));
}

/// A fragment that is refused or lost is answered to the node it came from, where that node is a
/// neighbour.
pub proof fn law_nack_goes_to_the_previous_hop<S>(
    drone: DroneView<S>,
    nack_type: NackType,
    fragment_index: u64,
    route: RouteView,
    session_id: u64,
)
    requires
        0 < route.hop_index < route.hops.len(),
        drone.neighbors.contains_key(route.hops[route.hop_index - 1]),
    ensures
        drone.nack_actions(nack_type, fragment_index, route, session_id) == seq![
            ActionView::Transmit {
                to: route.hops[route.hop_index - 1],
                packet: at(
                    PacketView::nack(
                        route.way_back(),
                        session_id,
                        Nack { fragment_index, nack_type },
                    ),
                    1,
                ),
                fallback: Fallback::Controller,
            },
        ],
{
    law_way_back(route);
}

/// A fragment is handed on exactly where the drone is not crashing, is the current hop, is
/// connected to the next one, and the draw is not less than the drop rate. All that changes of it is its
/// place on the route.
pub proof fn law_forwarded_when<S>(
    drone: DroneView<S>,
    fragment: Fragment,
    route: RouteView,
    session_id: u64,
    roll: Single,
)
    ensures
        drone.verdict(route, roll) is Forward <==> {
            &&& !drone.crashing
            &&& route.current_hop() == Some(drone.id)
            &&& drone.sender_of_next(route) is Some
            &&& !roll.lt(drone.pdr)
        },
        drone.verdict(route, roll) is Forward ==> drone.fragment_actions(
            fragment,
            route,
            session_id,
            roll,
        ) == seq![
            ActionView::Transmit {
                to: route.next_hop()->0,
                packet: at(
                    PacketView::fragment(route, session_id, fragment),
                    route.hop_index + 1,
                ),
                fallback: Fallback::Nothing,
            },
        ],
{
}

/// The packet that an action gives to somebody who can bring it further, if any.
pub open spec fn passed_on(action: ActionView) -> Option<PacketView> {
    match action {
        ActionView::Transmit { packet, .. } => Some(packet),
        ActionView::Notify(EventView::ControllerShortcut(packet)) => Some(packet),
        _ => None,
    }
}

/// No fragment goes unanswered: either it is handed on, or a negative answer to it is, and never
/// both.
pub proof fn law_handed_on_or_answered<S>(
    drone: DroneView<S>,
    fragment: Fragment,
    route: RouteView,
    session_id: u64,
    roll: Single,
)
    ensures
        ({
            let actions = drone.fragment_actions(fragment, route, session_id, roll);
            let nack = |nack_type: NackType|
                DroneView::<S>::nack_packet(
                    nack_type,
                    fragment.fragment_index,
                    route,
                    session_id,
                );
            &&& actions.len() > 0
            &&& passed_on(actions.last()) == Some(
                match drone.verdict(route, roll) {
                    FragmentVerdict::Forward(_) => PacketView::fragment(
                        route,
                        session_id,
                        fragment,
                    ).advanced(),
                    FragmentVerdict::Refuse(nack_type) => nack(nack_type).advanced(),
                    FragmentVerdict::Drop => nack(NackType::Dropped).advanced(),
                },
            )
            &&& forall|i: int| 0 <= i < actions.len() - 1 ==> passed_on(#[trigger] actions[i])
                is None
        }),
{
}

/// Whether `drone` can take part in carrying a packet from position `k` of its route to the next.
pub open spec fn carries<S>(drone: DroneView<S>, route: RouteView, k: int) -> bool {
    &&& drone.id == route.hops[k]
    &&& drone.neighbors.contains_key(route.hops[k + 1])
}

/// A chain of drones, `drones[k]` at position `k + 1` of the route, none of them crashing and none
/// with a draw that loses the fragment, carries it from the first to the node behind the last: each
/// sends on, to the node that the route has next, exactly what that node is to get.
pub proof fn law_fragment_crosses_chain<S>(
    drones: Seq<DroneView<S>>,
    rolls: Seq<Single>,
    fragment: Fragment,
    route: RouteView,
    session_id: u64,
    k: int,
)
    requires
        route.hops.len() == drones.len() + 2,
        rolls.len() == drones.len(),
        forall|j: int|
            0 <= j < drones.len() ==> {
                &&& carries(#[trigger] drones[j], route, j + 1)
                &&& !drones[j].crashing
                &&& !rolls[j].lt(drones[j].pdr)
            },
        0 <= k < drones.len(),
    ensures
        ({
            let packet = PacketView::fragment(route, session_id, fragment);
            drones[k].fragment_actions(
                fragment,
                at(packet, k + 1).routing_header,
                session_id,
                rolls[k],
            ) == seq![
                ActionView::Transmit {
                    to: route.hops[k + 2],
                    packet: at(packet, k + 2),
                    fallback: Fallback::Nothing,
                },
            ]
        }),
{
}

/// The same for packets that are only handed on. Here it does not matter whether a drone is
/// crashing, nor what its drop rate is.
pub proof fn law_answer_crosses_chain<S>(
    drones: Seq<DroneView<S>>,
    packet: PacketView,
    roll: Single,
    k: int,
)
    requires
        !(packet.pack_type is MsgFragment),
        !(packet.pack_type is FloodRequest),
        packet.routing_header.hops.len() == drones.len() + 2,
        forall|j: int|
            0 <= j < drones.len() ==> carries(#[trigger] drones[j], packet.routing_header, j + 1),
        0 <= k < drones.len(),
    ensures
        forall|actions: Seq<ActionView>| #[trigger]
            drones[k].answers_packet(at(packet, k + 1), roll, actions) <==> actions == seq![
                ActionView::Transmit {
                    to: packet.routing_header.hops[k + 2],
                    packet: at(packet, k + 2),
                    fallback: Fallback::Controller,
                },
            ],
{
}

/// The answer to a fragment that got as far as position `k` of its route comes back to the node at
/// position 0, through the drones that handed the fragment on: the drone at position `j` hands it
/// to the node at position `j - 1`.
pub proof fn law_nack_retraces_the_route<S>(
    drones: Seq<DroneView<S>>,
    nack_type: NackType,
    fragment_index: u64,
    route: RouteView,
    session_id: u64,
    j: int,
)
    requires
        0 < route.hop_index < route.hops.len(),
        drones.len() == route.hop_index + 1,
        forall|m: int|
            0 < m < drones.len() ==> (#[trigger] drones[m]).neighbors.contains_key(
                route.hops[m - 1],
            ),
        0 < j < route.hop_index,
    ensures
        ({
            let nack = DroneView::<S>::nack_packet(nack_type, fragment_index, route, session_id);
            &&& drones[route.hop_index].nack_actions(
                nack_type,
                fragment_index,
                route,
                session_id,
            ) == seq![
                ActionView::Transmit {
                    to: route.hops[route.hop_index - 1],
                    packet: at(nack, 1),
                    fallback: Fallback::Controller,
                },
            ]
            &&& drones[j].next_hop_actions(at(nack, route.hop_index - j)) == seq![
                ActionView::Transmit {
                    to: route.hops[j - 1],
                    packet: at(nack, route.hop_index - j + 1),
                    fallback: Fallback::Controller,
                },
            ]
        }),
{
    law_way_back(route);
    let nack = DroneView::<S>::nack_packet(nack_type, fragment_index, route, session_id);
    let arrived = at(nack, route.hop_index - j);
    assert(arrived.routing_header.next_hop() == Some(route.hops[j - 1])) by {
        assert(route.way_back().hops[route.hop_index - j + 1] == route.hops[j - 1]);
    }
}

/// A crashing drone hands no fragment on and loses none: it answers each one with its own node as
/// the place where the route breaks.
pub proof fn law_crashing_refuses_fragments<S>(drone: DroneView<S>, route: RouteView, roll: Single)
    requires
        drone.crashing,
    ensures
        drone.verdict(route, roll) == FragmentVerdict::Refuse(NackType::ErrorInRouting(drone.id)),
{
}

/// A crashing drone takes no notice of flood requests.
pub proof fn law_crashing_ignores_floods<S>(
    drone: DroneView<S>,
    request: FloodRequestView,
    session_id: u64,
    actions: Seq<ActionView>,
)
    requires
        drone.crashing,
        drone.answers_flood(request, session_id, actions),
    ensures
        actions.len() == 0,
        drone.flooded(request) == drone,
{
}

/// A crashing drone still sends the other packets on, as if it were not crashing.
pub proof fn law_crashing_still_hands_on<S>(drone: DroneView<S>, packet: PacketView)
    ensures
        drone.commanded(DroneCommand::Crash).next_hop_actions(packet) == drone.next_hop_actions(
            packet,
        ),
{
}

/// Over any run, the drone keeps its node, keeps crashing once it began to, and keeps every flood
/// that it has seen.
pub proof fn law_what_a_run_keeps<S>(
    states: Seq<DroneView<S>>,
    inputs: Seq<InputView<S>>,
    rolls: Seq<Single>,
    answers: Seq<Seq<ActionView>>,
    i: int,
    j: int,
)
    requires
        is_run(states, inputs, rolls, answers),
        0 <= i <= j < states.len(),
    ensures
        states[j].id == states[i].id,
        states[i].crashing ==> states[j].crashing,
        states[i].floods.subset_of(states[j].floods),
    decreases j - i,
{
    if i < j {
        law_what_a_run_keeps(states, inputs, rolls, answers, i, j - 1);
        let input = inputs[j - 1];
        assert(states[j] == states[j - 1].stepped(input));
    }
}

/// A drone that was not told to crash runs on: without that order, no run ends.
pub proof fn law_runs_until_told_to_crash<S>(
    states: Seq<DroneView<S>>,
    inputs: Seq<InputView<S>>,
    rolls: Seq<Single>,
    answers: Seq<Seq<ActionView>>,
    j: int,
    queue_empty: bool,
)
    requires
        is_run(states, inputs, rolls, answers),
        !states[0].crashing,
        0 <= j < states.len(),
        forall|k: int|
            0 <= k < j ==> #[trigger] inputs[k] != InputView::<S>::Command(DroneCommand::Crash),
    ensures
        !states[j].finished(queue_empty),
    decreases j,
{
    if 0 < j {
        law_runs_until_told_to_crash(states, inputs, rolls, answers, j - 1, true);
        let input = inputs[j - 1];
        assert(states[j] == states[j - 1].stepped(input));
    }
}

/// Over any run, a flood is passed on at most once: a drone that gets it again, from whomever,
/// only answers it, or says nothing while it crashes.
pub proof fn law_flood_passed_on_once<S>(
    states: Seq<DroneView<S>>,
    inputs: Seq<InputView<S>>,
    rolls: Seq<Single>,
    answers: Seq<Seq<ActionView>>,
    i: int,
    j: int,
    first: PacketView,
    again: PacketView,
)
    requires
        is_run(states, inputs, rolls, answers),
        0 <= i < j < inputs.len(),
        inputs[i] == InputView::<S>::Packet(first),
        inputs[j] == InputView::<S>::Packet(again),
        first.pack_type is FloodRequest,
        again.pack_type is FloodRequest,
        first.pack_type->FloodRequest_0.key() == again.pack_type->FloodRequest_0.key(),
    ensures
        answers[j] == if states[j].crashing {
            Seq::<ActionView>::empty()
        } else {
            seq![
                ActionView::Respond {
                    request: states[j].traced(again.pack_type->FloodRequest_0),
                    session_id: again.session_id,
                },
            ]
        },
{
    let first_input = inputs[i];
    let again_input = inputs[j];
    let key = first.pack_type->FloodRequest_0.key();
    law_what_a_run_keeps(states, inputs, rolls, answers, i, j);
    law_what_a_run_keeps(states, inputs, rolls, answers, i + 1, j);
    assert(states[i + 1] == states[i].stepped(first_input));
    if !states[j].crashing {
        assert(states[i + 1].floods.contains(key));
        assert(states[j].floods.contains(key));
    }
}

/// A flood that is new to the drone goes to every neighbour but the one it came from, once each,
/// and to nobody else.
pub proof fn law_flood_reaches_the_others<S>(
    drone: DroneView<S>,
    request: FloodRequestView,
    session_id: u64,
    actions: Seq<ActionView>,
    node: NodeId,
)
    requires
        !drone.crashing,
        !drone.floods.contains(request.key()),
        request.path_trace.len() > 0,
        drone.answers_flood(request, session_id, actions),
    ensures
        sends_to(actions, node) == if drone.neighbors.contains_key(node) && node
            != request.path_trace.last().0 {
            seq![
                ActionView::Transmit {
                    to: node,
                    packet: PacketView {
                        routing_header: RouteView { hop_index: 0, hops: Seq::empty() },
                        session_id,
                        pack_type: PacketTypeView::FloodRequest(
                            FloodRequestView {
                                flood_id: request.flood_id,
                                initiator_id: request.initiator_id,
                                path_trace: request.path_trace.push((drone.id, NodeType::Drone)),
                            },
                        ),
                    },
                    fallback: Fallback::Nothing,
                },
            ]
        } else {
            Seq::<ActionView>::empty()
        },
{
    let traced = drone.traced(request);
    let sender = request.path_trace.last().0;
    assert(crate::model::prev_node(traced.path_trace) == Some(sender));
    let targets = drone.neighbors_except(sender);
    let copy = PacketView::flood_request(RouteView::empty(), session_id, traced);
    if targets == Set::<NodeId>::empty() {
        assert(!targets.contains(node));
        assert(actions.len() == 1);
        reveal_with_fuel(Seq::filter, 2);
        assert(actions.drop_last() =~= Seq::<ActionView>::empty());
    } else {
        let order = choose|order: Seq<NodeId>| #[trigger]
            crate::model::enumerates(order, targets) && actions == crate::model::transmissions(
                order,
                copy,
            );
        lemma_one_send_each(order, copy, node);
        assert(order.contains(node) <==> order.to_set().contains(node));
    }
}

/// What goes to one node of an order without repetition.
proof fn lemma_one_send_each(order: Seq<NodeId>, packet: PacketView, node: NodeId)
    requires
        order.no_duplicates(),
    ensures
        sends_to(crate::model::transmissions(order, packet), node) == if order.contains(node) {
            seq![ActionView::Transmit { to: node, packet, fallback: Fallback::Nothing }]
        } else {
            Seq::<ActionView>::empty()
        },
    decreases order.len(),
{
    let actions = crate::model::transmissions(order, packet);
    reveal(Seq::filter);
    if order.len() > 0 {
        let rest = order.drop_last();
        lemma_one_send_each(rest, packet, node);
        assert(actions.drop_last() =~= crate::model::transmissions(rest, packet));
        assert(order =~= rest.push(order.last()));
        assert(!rest.contains(order.last()));
        if order.contains(node) && order.last() != node {
            let i = order.index_of(node);
            assert(rest[i] == node);
        }
        if rest.contains(node) {
            let i = rest.index_of(node);
            assert(order[i] == node);
        }
        if order.last() == node {
            assert(order[order.len() - 1] == node);
        }
    }
}

/// Taking away a neighbour undoes adding it, where it was none before.
pub proof fn law_remove_undoes_add<S>(drone: DroneView<S>, id: NodeId, sender: S)
    requires
        !drone.neighbors.contains_key(id),
    ensures
        drone.commanded(DroneCommand::AddSender(id, sender)).commanded(
            DroneCommand::RemoveSender(id),
        ) == drone,
{
    assert(drone.neighbors.insert(id, sender).remove(id) =~= drone.neighbors);
}

/// Of two senders for one neighbour, and of two drop rates, the later one counts.
pub proof fn law_later_order_counts<S>(
    drone: DroneView<S>,
    id: NodeId,
    first: S,
    later: S,
    first_rate: Single,
    later_rate: Single,
)
    ensures
        drone.commanded(DroneCommand::AddSender(id, first)).commanded(
            DroneCommand::AddSender(id, later),
        ) == drone.commanded(DroneCommand::AddSender(id, later)),
        drone.commanded(DroneCommand::SetPacketDropRate(first_rate)).commanded(
            DroneCommand::SetPacketDropRate(later_rate),
        ) == drone.commanded(DroneCommand::SetPacketDropRate(later_rate)),
{
    assert(drone.neighbors.insert(id, first).insert(id, later) =~= drone.neighbors.insert(
        id,
        later,
    ));
}

/// A fragment for a node that the drone was cut off from is refused with that node's name.
pub proof fn law_cut_off_neighbor_is_named<S>(
    drone: DroneView<S>,
    id: NodeId,
    route: RouteView,
    roll: Single,
)
    requires
        !drone.crashing,
        route.current_hop() == Some(drone.id),
        route.next_hop() == Some(id),
    ensures
        drone.commanded(DroneCommand::RemoveSender(id)).verdict(route, roll)
            == FragmentVerdict::Refuse(NackType::ErrorInRouting(id)),
{
}

/// A drone with the drop rate 0.0 loses no fragment whose draw is not below 0.0.
pub proof fn law_zero_rate_loses_nothing<S>(drone: DroneView<S>, route: RouteView, roll: Single)
    requires
        drone.pdr.same(Single { bits: ZERO_BITS }),
        !roll.lt(Single { bits: ZERO_BITS }),
    ensures
        !(drone.verdict(route, roll) is Drop),
{
}

/// A drone with the drop rate 1.0 hands no fragment on whose draw is below 1.0.
pub proof fn law_full_rate_loses_everything<S>(drone: DroneView<S>, route: RouteView, roll: Single)
    requires
        drone.pdr.same(Single { bits: ONE_BITS }),
        roll.lt(Single { bits: ONE_BITS }),
    ensures
        !(drone.verdict(route, roll) is Forward),
{
}

/// A higher drop rate saves no fragment.
pub proof fn law_higher_rate_saves_nothing<S>(
    drone: DroneView<S>,
    higher: Single,
    route: RouteView,
    roll: Single,
)
    requires
        drone.pdr.le(higher),
        drone.verdict(route, roll) is Drop,
    ensures
        drone.commanded(DroneCommand::SetPacketDropRate(higher)).verdict(route, roll) is Drop,
{
}

/// A drone that starts as an angel goes on with the drop rate 0.0, one that starts as a devil with
/// 1.0; to look twice changes nothing.
pub proof fn law_start_is_settled_once<S>(drone: DroneView<S>)
    ensures
        drone.pdr.bits == ANGEL_BITS ==> drone.egged() == drone.commanded(
            DroneCommand::SetPacketDropRate(Single { bits: ZERO_BITS }),
        ),
        drone.pdr.bits == DEVIL_BITS ==> drone.egged() == drone.commanded(
            DroneCommand::SetPacketDropRate(Single { bits: ONE_BITS }),
        ),
        drone.egged().egged() == drone.egged(),
{
}

// What each operation does, said of the plain parts of the values alone.

/// The mathematical value of a header has the header's own parts.
pub proof fn law_value_of_header(header: SourceRoutingHeader)
    ensures
        header@.hop_index == header.hop_index,
        header@.hops == header.hops@,
{
}

/// The mathematical value of a packet has the packet's own parts, and carries what it carries.
pub proof fn law_value_of_packet(packet: Packet)
    ensures
        packet@.session_id == packet.session_id,
        packet@.routing_header.hop_index == packet.routing_header.hop_index,
        packet@.routing_header.hops == packet.routing_header.hops@,
        match packet.pack_type {
            PacketType::MsgFragment(fragment) => packet@.pack_type == PacketTypeView::MsgFragment(
                fragment,
            ),
            PacketType::Ack(ack) => packet@.pack_type == PacketTypeView::Ack(ack),
            PacketType::Nack(nack) => packet@.pack_type == PacketTypeView::Nack(nack),
            PacketType::FloodRequest(request) => packet@.pack_type
                == PacketTypeView::FloodRequest(
                FloodRequestView {
                    flood_id: request.flood_id,
                    initiator_id: request.initiator_id,
                    path_trace: request.path_trace@,
                },
            ),
            PacketType::FloodResponse(response) => packet@.pack_type
                == PacketTypeView::FloodResponse(
                FloodResponseView {
                    flood_id: response.flood_id,
                    path_trace: response.path_trace@,
                },
            ),
        },
{
}

/// The mathematical value of a flood request or response has its own parts.
pub proof fn law_value_of_flood(request: FloodRequest, response: FloodResponse)
    ensures
        request@.flood_id == request.flood_id,
        request@.initiator_id == request.initiator_id,
        request@.path_trace == request.path_trace@,
        response@.flood_id == response.flood_id,
        response@.path_trace == response.path_trace@,
{
}

/// The mathematical value of an event is of the same kind and about the same packet.
pub proof fn law_value_of_event(event: DroneEvent)
    ensures
        match event {
            DroneEvent::PacketSent(packet) => event@ == EventView::PacketSent(packet@),
            DroneEvent::PacketDropped(packet) => event@ == EventView::PacketDropped(packet@),
            DroneEvent::ControllerShortcut(packet) => event@ == EventView::ControllerShortcut(
                packet@,
            ),
        },
{
}

/// The mathematical value of an action asks for the same.
pub proof fn law_value_of_action(action: Action)
    ensures
        match action {
            Action::Notify(event) => action@ == ActionView::Notify(event@),
            Action::Transmit { to, packet, fallback } => action@ == (ActionView::Transmit {
                to,
                packet: packet@,
                fallback,
            }),
            Action::Respond { request, session_id } => action@ == (ActionView::Respond {
                request: request@,
                session_id,
            }),
        },
{
}

/// The values of a list of actions are the values of its actions, in their order.
pub proof fn law_value_of_actions(actions: Seq<Action>)
    ensures
        Action::views(actions).len() == actions.len(),
        forall|i: int|
            0 <= i < actions.len() ==> #[trigger] Action::views(actions)[i] == actions[i]@,
{
}

/// The mathematical value of an input is of the same kind and holds the same.
pub proof fn law_value_of_input<S>(input: Input<S>)
    ensures
        match input {
            Input::Command(command) => input@ == InputView::<S>::Command(command),
            Input::Packet(packet) => input@ == InputView::<S>::Packet(packet@),
            Input::Closed => input@ is Closed,
        },
{
}

/// A packet can be dealt with unless it has a route whose index cannot be counted up; commands and
/// closed channels can always be.
pub proof fn law_what_can_be_dealt_with<S>(packet: PacketView, command: DroneCommand<S>)
    ensures
        packet.pack_type is FloodRequest ==> packet.can_move_on(),
        !(packet.pack_type is FloodRequest) ==> (packet.can_move_on()
            <==> packet.routing_header.hop_index < usize::MAX),
        InputView::<S>::Packet(packet).can_move_on() <==> packet.can_move_on(),
        InputView::<S>::Command(command).can_move_on(),
        InputView::<S>::Closed.can_move_on(),
{
}

/// The current hop is the node at the hop index, the next hop the one behind it; off the route
/// there is none.
pub proof fn law_hops_of_a_route(route: RouteView)
    requires
        0 <= route.hop_index,
    ensures
        route.current_hop() is Some <==> route.hop_index < route.hops.len(),
        route.current_hop() matches Some(id) ==> id == route.hops[route.hop_index],
        route.next_hop() is Some <==> route.hop_index + 1 < route.hops.len(),
        route.next_hop() matches Some(id) ==> id == route.hops[route.hop_index + 1],
{
}

/// One hop on, the next hop is the current one, and the route itself is the same.
pub proof fn law_one_hop_on(packet: PacketView)
    requires
        0 <= packet.routing_header.hop_index,
    ensures
        packet.advanced().routing_header.hop_index == packet.routing_header.hop_index + 1,
        packet.advanced().routing_header.hops == packet.routing_header.hops,
        packet.advanced().session_id == packet.session_id,
        packet.advanced().pack_type == packet.pack_type,
        packet.routing_header.advanced() == packet.advanced().routing_header,
        packet.routing_header.advanced().current_hop() == packet.routing_header.next_hop(),
{
}

/// The way back from anywhere: at its start, the nodes up to the current one, or all of them where
/// the index is off the route, last one first. A packet that needs no way has none.
pub proof fn law_way_back_from_anywhere(route: RouteView)
    requires
        0 <= route.hop_index,
    ensures
        route.way_back().hop_index == 0,
        route.hop_index < route.hops.len() ==> route.way_back().hops.len() == route.hop_index + 1,
        route.hop_index >= route.hops.len() ==> route.way_back().hops.len() == route.hops.len(),
        forall|j: int|
            0 <= j < route.way_back().hops.len() ==> #[trigger] route.way_back().hops[j]
                == route.hops[route.way_back().hops.len() - 1 - j],
        RouteView::empty().hop_index == 0,
        RouteView::empty().hops.len() == 0,
{
}

/// A new packet has the route and the session it is made with and carries exactly what is packed.
pub proof fn law_packed_as_given(
    routing_header: RouteView,
    session_id: u64,
    fragment: Fragment,
    nack: Nack,
    request: FloodRequestView,
)
    ensures
        PacketView::fragment(routing_header, session_id, fragment).routing_header
            == routing_header,
        PacketView::fragment(routing_header, session_id, fragment).session_id == session_id,
        PacketView::fragment(routing_header, session_id, fragment).pack_type
            == PacketTypeView::MsgFragment(fragment),
        PacketView::nack(routing_header, session_id, nack).routing_header == routing_header,
        PacketView::nack(routing_header, session_id, nack).session_id == session_id,
        PacketView::nack(routing_header, session_id, nack).pack_type == PacketTypeView::Nack(nack),
        PacketView::flood_request(routing_header, session_id, request).routing_header
            == routing_header,
        PacketView::flood_request(routing_header, session_id, request).session_id == session_id,
        PacketView::flood_request(routing_header, session_id, request).pack_type
            == PacketTypeView::FloodRequest(request),
{
}

/// Tracing a request adds one node behind those that it came through; which flood it is stays.
pub proof fn law_trace_grows_by_one<S>(
    drone: DroneView<S>,
    request: FloodRequestView,
    id: NodeId,
    node_type: NodeType,
)
    ensures
        request.incremented(id, node_type).flood_id == request.flood_id,
        request.incremented(id, node_type).initiator_id == request.initiator_id,
        request.incremented(id, node_type).path_trace == request.path_trace.push((id, node_type)),
        drone.traced(request).flood_id == request.flood_id,
        drone.traced(request).initiator_id == request.initiator_id,
        drone.traced(request).path_trace == request.path_trace.push((drone.id, NodeType::Drone)),
        request.key().0 == request.initiator_id,
        request.key().1 == request.flood_id,
{
}

/// In a traced request, the node before the last one is the one that the request came from.
pub proof fn law_previous_node_sent_it<S>(drone: DroneView<S>, request: FloodRequestView)
    ensures
        crate::model::prev_node(drone.traced(request).path_trace) is Some
            <==> request.path_trace.len() > 0,
        crate::model::prev_node(drone.traced(request).path_trace) matches Some(id) ==> id
            == request.path_trace.last().0,
        forall|trace: Seq<(NodeId, NodeType)>| #[trigger]
            crate::model::prev_node(trace) is Some <==> trace.len() > 1,
        forall|trace: Seq<(NodeId, NodeType)>| #[trigger]
            crate::model::prev_node(trace) matches Some(id) ==> id == trace[trace.len() - 2].0,
{
}

/// The neighbours but one: everybody connected who is not that one.
pub proof fn law_neighbors_but_one<S>(
    drone: DroneView<S>,
    exclude_id: NodeId,
    id: NodeId,
    order: Seq<NodeId>,
)
    requires
        crate::model::enumerates(order, drone.neighbors_except(exclude_id)),
    ensures
        order.contains(id) <==> drone.neighbors.contains_key(id) && id != exclude_id,
        forall|i: int, j: int| 0 <= i < j < order.len() ==> order[i] != order[j],
{
    assert(order.to_set().contains(id) <==> order.contains(id));
}

/// A copy for each node of a list: as many actions as nodes, each for its node, all with the same
/// packet, and none that falls back on the controller.
pub proof fn law_a_copy_for_each(order: Seq<NodeId>, packet: PacketView, i: int)
    requires
        0 <= i < order.len(),
    ensures
        crate::model::transmissions(order, packet).len() == order.len(),
        crate::model::transmissions(order, packet)[i] == (ActionView::Transmit {
            to: order[i],
            packet,
            fallback: Fallback::Nothing,
        }),
{
}

/// What is known of a neighbour's sender is what the drone was given for the next hop.
pub proof fn law_sender_of_the_next_hop<S>(drone: DroneView<S>, route: RouteView)
    requires
        0 <= route.hop_index,
    ensures
        drone.sender_of_next(route) is Some <==> route.hop_index + 1 < route.hops.len()
            && drone.neighbors.contains_key(route.hops[route.hop_index + 1]),
        drone.sender_of_next(route) matches Some(sender) ==> sender
            == drone.neighbors[route.hops[route.hop_index + 1]],
{
}

/// What the controller hears of an attempt to send: that the packet was sent, if it was; if not,
/// the packet itself where the controller is the fallback, and else nothing.
pub proof fn law_report_of_an_attempt(packet: PacketView, fallback: Fallback)
    ensures
        crate::action::delivery_report(packet, fallback, true) == Some(
            EventView::PacketSent(packet),
        ),
        fallback is Controller ==> crate::action::delivery_report(packet, fallback, false) == Some(
            EventView::ControllerShortcut(packet),
        ),
        fallback is Nothing ==> crate::action::delivery_report(packet, fallback, false) is None,
{
}

/// A packet that is only handed on goes to the node behind the current one on its route where that
/// is a neighbour, with the controller as fallback, and else to the controller. Session, content
/// and route are those that came in, and the hop index is one greater.
pub proof fn law_handed_on_unchanged<S>(drone: DroneView<S>, packet: PacketView)
    requires
        0 <= packet.routing_header.hop_index,
    ensures
        ({
            let actions = drone.next_hop_actions(packet);
            let hops = packet.routing_header.hops;
            let next = packet.routing_header.hop_index + 1;
            let connected = next < hops.len() && drone.neighbors.contains_key(hops[next]);
            &&& actions.len() == 1
            &&& actions[0] is Transmit <==> connected
            &&& actions[0] matches ActionView::Transmit { to, packet: sent, fallback } ==> {
                &&& to == hops[next]
                &&& fallback is Controller
                &&& sent.session_id == packet.session_id
                &&& sent.pack_type == packet.pack_type
                &&& sent.routing_header.hops == hops
                &&& sent.routing_header.hop_index == next
            }
            &&& !connected ==> {
                &&& actions[0] matches ActionView::Notify(EventView::ControllerShortcut(sent))
                &&& sent.session_id == packet.session_id
                &&& sent.pack_type == packet.pack_type
                &&& sent.routing_header.hops == hops
                &&& sent.routing_header.hop_index == next
            }
        }),
{
}

/// A negative answer carries the reason that was given, the index of the fragment and its session.
/// It goes back over the nodes up to the current one, or all of them where the index is off the
/// route, in the opposite order: to the second of them where that is a neighbour, and else to the
/// controller.
pub proof fn law_answer_names_the_reason<S>(
    drone: DroneView<S>,
    nack_type: NackType,
    fragment_index: u64,
    route: RouteView,
    session_id: u64,
)
    requires
        0 <= route.hop_index,
    ensures
        ({
            let actions = drone.nack_actions(nack_type, fragment_index, route, session_id);
            let seen = if route.hop_index < route.hops.len() {
                route.hop_index + 1
            } else {
                route.hops.len() as int
            };
            let back = Seq::new(seen as nat, |j: int| route.hops[seen - 1 - j]);
            let connected = seen > 1 && drone.neighbors.contains_key(route.hops[seen - 2]);
            let sent = match actions[0] {
                ActionView::Transmit { packet, .. } => packet,
                ActionView::Notify(EventView::ControllerShortcut(packet)) => packet,
                _ => arbitrary(),
            };
            &&& actions.len() == 1
            &&& connected ==> (actions[0] matches ActionView::Transmit { to, fallback, .. } && to
                == route.hops[seen - 2] && fallback is Controller)
            &&& !connected ==> (actions[0] matches ActionView::Notify(
                EventView::ControllerShortcut(_),
            ))
            &&& sent.session_id == session_id
            &&& sent.pack_type == PacketTypeView::Nack(Nack { fragment_index, nack_type })
            &&& sent.routing_header.hop_index == 1
            &&& sent.routing_header.hops == back
        }),
{
    law_way_back_from_anywhere(route);
    let seen = route.way_back().hops.len() as int;
    let back = Seq::new(seen as nat, |j: int| route.hops[seen - 1 - j]);
    assert(route.way_back().hops =~= back);
}

/// A fragment that came to a drone which is not crashing, is the node at the hop index and is
/// connected to the node behind it, with a draw that is not below the drop rate, goes to that node
/// as it came: the same fragment, session and route, the hop index one greater.
pub proof fn law_good_fragment_goes_on_as_it_came<S>(
    drone: DroneView<S>,
    packet: PacketView,
    fragment: Fragment,
    roll: Single,
    actions: Seq<ActionView>,
)
    requires
        packet.pack_type == PacketTypeView::MsgFragment(fragment),
        drone.answers_packet(packet, roll, actions),
        !drone.crashing,
        0 <= packet.routing_header.hop_index,
        packet.routing_header.hop_index + 1 < packet.routing_header.hops.len(),
        packet.routing_header.hops[packet.routing_header.hop_index] == drone.id,
        drone.neighbors.contains_key(
            packet.routing_header.hops[packet.routing_header.hop_index + 1],
        ),
        !roll.lt(drone.pdr),
    ensures
        actions.len() == 1,
        actions[0] matches ActionView::Transmit { to, packet: sent, fallback } && {
            &&& to == packet.routing_header.hops[packet.routing_header.hop_index + 1]
            &&& fallback is Nothing
            &&& sent.session_id == packet.session_id
            &&& sent.pack_type == packet.pack_type
            &&& sent.routing_header.hops == packet.routing_header.hops
            &&& sent.routing_header.hop_index == packet.routing_header.hop_index + 1
        },
{
}

/// Such a fragment whose draw is below the drop rate is not sent at all: the controller hears of it
/// as it came, and its sender gets an answer that says it was dropped.
pub proof fn law_lost_fragment_is_reported_and_answered<S>(
    drone: DroneView<S>,
    packet: PacketView,
    fragment: Fragment,
    roll: Single,
    actions: Seq<ActionView>,
)
    requires
        packet.pack_type == PacketTypeView::MsgFragment(fragment),
        drone.answers_packet(packet, roll, actions),
        !drone.crashing,
        0 <= packet.routing_header.hop_index,
        packet.routing_header.hop_index + 1 < packet.routing_header.hops.len(),
        packet.routing_header.hops[packet.routing_header.hop_index] == drone.id,
        drone.neighbors.contains_key(
            packet.routing_header.hops[packet.routing_header.hop_index + 1],
        ),
        roll.lt(drone.pdr),
    ensures
        actions.len() == 2,
        actions[0] matches ActionView::Notify(EventView::PacketDropped(lost)) && {
            &&& lost.session_id == packet.session_id
            &&& lost.pack_type == packet.pack_type
            &&& lost.routing_header.hops == packet.routing_header.hops
            &&& lost.routing_header.hop_index == packet.routing_header.hop_index
        },
        ({
            let hops = packet.routing_header.hops;
            let place = packet.routing_header.hop_index;
            let back = Seq::new((place + 1) as nat, |j: int| hops[place - j]);
            let sent = match actions[1] {
                ActionView::Transmit { packet, .. } => packet,
                ActionView::Notify(EventView::ControllerShortcut(packet)) => packet,
                _ => arbitrary(),
            };
            let connected = place > 0 && drone.neighbors.contains_key(hops[place - 1]);
            &&& connected ==> (actions[1] matches ActionView::Transmit { to, fallback, .. } && to
                == hops[place - 1] && fallback is Controller)
            &&& !connected ==> (actions[1] matches ActionView::Notify(
                EventView::ControllerShortcut(_),
            ))
            &&& sent.session_id == packet.session_id
            &&& sent.pack_type == PacketTypeView::Nack(
                Nack { fragment_index: fragment.fragment_index, nack_type: NackType::Dropped },
            )
            &&& sent.routing_header.hop_index == 1
            &&& sent.routing_header.hops == back
        }),
{
    let route = packet.routing_header;
    law_answer_names_the_reason(
        drone,
        NackType::Dropped,
        fragment.fragment_index,
        route,
        packet.session_id,
    );
    let nack = drone.nack_actions(
        NackType::Dropped,
        fragment.fragment_index,
        route,
        packet.session_id,
    );
    assert(actions[1] == nack[0]);
    let seen = route.hop_index + 1;
    assert(Seq::new(seen as nat, |j: int| route.hops[seen - 1 - j]) =~= Seq::new(
        (route.hop_index + 1) as nat,
        |j: int| route.hops[route.hop_index - j],
    ));
}

/// A fragment that cannot be handed on is answered with the one reason that holds: a crashing drone
/// names itself as the break of the route; a drone that is not the node at the hop index names
/// itself as an unexpected recipient; a route that ends here has a drone as its destination; and a
/// next node that is no neighbour is named as the break of the route. The answer carries the index
/// and the session of the fragment, and goes back over the nodes that it has seen.
pub proof fn law_refusal_names_the_reason<S>(
    drone: DroneView<S>,
    packet: PacketView,
    fragment: Fragment,
    roll: Single,
    actions: Seq<ActionView>,
    reason: NackType,
)
    requires
        packet.pack_type == PacketTypeView::MsgFragment(fragment),
        drone.answers_packet(packet, roll, actions),
        0 <= packet.routing_header.hop_index,
        ({
            let hops = packet.routing_header.hops;
            let place = packet.routing_header.hop_index;
            let here = place < hops.len() && hops[place] == drone.id;
            ||| drone.crashing && reason == NackType::ErrorInRouting(drone.id)
            ||| !drone.crashing && !here && reason == NackType::UnexpectedRecipient(drone.id)
            ||| !drone.crashing && here && place + 1 == hops.len() && reason
                == NackType::DestinationIsDrone
            ||| !drone.crashing && here && place + 1 < hops.len()
                && !drone.neighbors.contains_key(hops[place + 1]) && reason
                == NackType::ErrorInRouting(hops[place + 1])
        }),
    ensures
        actions.len() == 1,
        ({
            let hops = packet.routing_header.hops;
            let place = packet.routing_header.hop_index;
            let seen = if place < hops.len() {
                place + 1
            } else {
                hops.len() as int
            };
            let back = Seq::new(seen as nat, |j: int| hops[seen - 1 - j]);
            let sent = match actions[0] {
                ActionView::Transmit { packet, .. } => packet,
                ActionView::Notify(EventView::ControllerShortcut(packet)) => packet,
                _ => arbitrary(),
            };
            let connected = seen > 1 && drone.neighbors.contains_key(hops[seen - 2]);
            &&& connected ==> (actions[0] matches ActionView::Transmit { to, fallback, .. } && to
                == hops[seen - 2] && fallback is Controller)
            &&& !connected ==> (actions[0] matches ActionView::Notify(
                EventView::ControllerShortcut(_),
            ))
            &&& sent.session_id == packet.session_id
            &&& sent.pack_type == PacketTypeView::Nack(
                Nack { fragment_index: fragment.fragment_index, nack_type: reason },
            )
            &&& sent.routing_header.hop_index == 1
            &&& sent.routing_header.hops == back
        }),
{
    law_answer_names_the_reason(
        drone,
        reason,
        fragment.fragment_index,
        packet.routing_header,
        packet.session_id,
    );
}

/// Each kind of packet is dealt with in its own way: fragments by their route and draw, flood
/// requests as part of a flood, and the rest is only handed on. Only flood requests change the
/// drone.
pub proof fn law_each_kind_in_its_way<S>(
    drone: DroneView<S>,
    packet: PacketView,
    roll: Single,
    actions: Seq<ActionView>,
)
    ensures
        packet.pack_type matches PacketTypeView::MsgFragment(fragment) ==> {
            &&& drone.received(packet) == drone
            &&& drone.answers_packet(packet, roll, actions) <==> actions
                == drone.fragment_actions(
                fragment,
                packet.routing_header,
                packet.session_id,
                roll,
            )
        },
        packet.pack_type matches PacketTypeView::FloodRequest(request) ==> {
            &&& drone.received(packet) == drone.flooded(request)
            &&& drone.answers_packet(packet, roll, actions) <==> drone.answers_flood(
                request,
                packet.session_id,
                actions,
            )
        },
        packet.pack_type is Ack || packet.pack_type is Nack || packet.pack_type is FloodResponse
            ==> {
            &&& drone.received(packet) == drone
            &&& drone.answers_packet(packet, roll, actions) <==> actions == drone.next_hop_actions(
                packet,
            )
        },
{
}

/// One turn of the main loop does what its input asks for: a command is followed and answered by
/// nothing, a packet is dealt with, and a closed channel changes nothing.
pub proof fn law_one_turn<S>(
    drone: DroneView<S>,
    command: DroneCommand<S>,
    packet: PacketView,
    roll: Single,
    actions: Seq<ActionView>,
)
    ensures
        drone.stepped(InputView::Command(command)) == drone.commanded(command),
        drone.answers_input(InputView::Command(command), roll, actions) <==> actions.len() == 0,
        drone.stepped(InputView::Packet(packet)) == drone.received(packet),
        drone.answers_input(InputView::Packet(packet), roll, actions) <==> drone.answers_packet(
            packet,
            roll,
            actions,
        ),
        drone.stepped(InputView::Closed) == drone,
        drone.answers_input(InputView::Closed, roll, actions) <==> actions.len() == 0,
{
    assert(actions.len() == 0 ==> actions =~= Seq::<ActionView>::empty());
}

/// The order to crash makes any drone crash, whatever its state, and changes nothing else. From
/// then on the main loop ends as soon as no packet waits, a fragment is answered with the drone as
/// the break of its route, and a flood is neither noted nor answered.
pub proof fn law_crash_order_is_followed<S>(
    drone: DroneView<S>,
    packet: PacketView,
    roll: Single,
    actions: Seq<ActionView>,
)
    requires
        0 <= packet.routing_header.hop_index,
        drone.stepped(InputView::Command(DroneCommand::Crash)).answers_packet(
            packet,
            roll,
            actions,
        ),
    ensures
        ({
            let after = drone.stepped(InputView::Command(DroneCommand::Crash));
            &&& after.crashing
            &&& after.id == drone.id
            &&& after.neighbors == drone.neighbors
            &&& after.pdr == drone.pdr
            &&& after.floods == drone.floods
            &&& after.finished(true)
            &&& !after.finished(false)
            &&& after.received(packet) == after
        }),
        packet.pack_type is FloodRequest ==> actions.len() == 0,
        packet.pack_type matches PacketTypeView::MsgFragment(fragment) ==> actions.len() == 1
            && match actions[0] {
            ActionView::Transmit { packet: sent, .. } => sent.pack_type == PacketTypeView::Nack(
                Nack {
                    fragment_index: fragment.fragment_index,
                    nack_type: NackType::ErrorInRouting(drone.id),
                },
            ),
            ActionView::Notify(EventView::ControllerShortcut(sent)) => sent.pack_type
                == PacketTypeView::Nack(
                Nack {
                    fragment_index: fragment.fragment_index,
                    nack_type: NackType::ErrorInRouting(drone.id),
                },
            ),
            _ => false,
        },
{
    let after = drone.stepped(InputView::Command(DroneCommand::Crash));
    if let PacketTypeView::MsgFragment(fragment) = packet.pack_type {
        law_refusal_names_the_reason(
            after,
            packet,
            fragment,
            roll,
            actions,
            NackType::ErrorInRouting(drone.id),
        );
    }
}

/// The drone's loop is over exactly where it crashes and nothing waits.
pub proof fn law_when_the_loop_ends<S>(drone: DroneView<S>, queue_empty: bool)
    ensures
        drone.finished(queue_empty) <==> drone.crashing && queue_empty,
{
}

/// The drop rate is the one that was ordered last, whatever it is and whatever it was, and the
/// order changes nothing else. A fragment on a good route is then lost exactly where the draw is
/// less than that rate.
pub proof fn law_rate_order_is_followed<S>(
    drone: DroneView<S>,
    rate: Single,
    packet: PacketView,
    roll: Single,
    actions: Seq<ActionView>,
)
    requires
        drone.stepped(InputView::Command(DroneCommand::SetPacketDropRate(rate))).answers_packet(
            packet,
            roll,
            actions,
        ),
    ensures
        ({
            let after = drone.stepped(InputView::Command(DroneCommand::SetPacketDropRate(rate)));
            &&& after.pdr == rate
            &&& after.id == drone.id
            &&& after.neighbors == drone.neighbors
            &&& after.floods == drone.floods
            &&& after.crashing == drone.crashing
        }),
        ({
            let hops = packet.routing_header.hops;
            let place = packet.routing_header.hop_index;
            packet.pack_type is MsgFragment && !drone.crashing && 0 <= place && place + 1
                < hops.len() && hops[place] == drone.id && drone.neighbors.contains_key(
                hops[place + 1],
            ) ==> (if roll.lt(rate) {
                actions.len() == 2 && actions[0] matches ActionView::Notify(
                    EventView::PacketDropped(_),
                )
            } else {
                actions.len() == 1 && (actions[0] matches ActionView::Transmit { to, .. } && to
                    == hops[place + 1])
            })
        }),
{
}

/// A neighbour that is added is connected by the sender given for it, and by no other; one that is
/// taken away is not connected. Nobody else is touched, and nothing else changes.
pub proof fn law_neighbor_orders_are_followed<S>(
    drone: DroneView<S>,
    id: NodeId,
    sender: S,
    other: NodeId,
)
    ensures
        ({
            let after = drone.stepped(InputView::Command(DroneCommand::AddSender(id, sender)));
            &&& after.neighbors.contains_key(id)
            &&& after.neighbors[id] == sender
            &&& other != id ==> {
                &&& after.neighbors.contains_key(other) <==> drone.neighbors.contains_key(other)
                &&& drone.neighbors.contains_key(other) ==> after.neighbors[other]
                    == drone.neighbors[other]
            }
            &&& after.id == drone.id
            &&& after.pdr == drone.pdr
            &&& after.floods == drone.floods
            &&& after.crashing == drone.crashing
        }),
        ({
            let after = drone.stepped(InputView::Command(DroneCommand::RemoveSender(id)));
            &&& !after.neighbors.contains_key(id)
            &&& other != id ==> {
                &&& after.neighbors.contains_key(other) <==> drone.neighbors.contains_key(other)
                &&& drone.neighbors.contains_key(other) ==> after.neighbors[other]
                    == drone.neighbors[other]
            }
            &&& after.id == drone.id
            &&& after.pdr == drone.pdr
            &&& after.floods == drone.floods
            &&& after.crashing == drone.crashing
        }),
{
}

/// A flood is noted by a drone that is not crashing, under its initiator and its number, and
/// no other flood is; nothing else changes.
pub proof fn law_flood_is_noted<S>(
    drone: DroneView<S>,
    request: FloodRequestView,
    key: (NodeId, u64),
)
    ensures
        drone.flooded(request).floods.contains(key) <==> drone.floods.contains(key) || (
        !drone.crashing && key.0 == request.initiator_id && key.1 == request.flood_id),
        drone.flooded(request).id == drone.id,
        drone.flooded(request).neighbors == drone.neighbors,
        drone.flooded(request).pdr == drone.pdr,
        drone.flooded(request).crashing == drone.crashing,
{
}

/// A flood seen before, or one that came from the only neighbour, is answered, and nothing else is
/// done: the response is asked for with the whole trace and the drone at its end.
pub proof fn law_flood_is_answered<S>(
    drone: DroneView<S>,
    request: FloodRequestView,
    session_id: u64,
    actions: Seq<ActionView>,
)
    requires
        !drone.crashing,
        drone.floods.contains((request.initiator_id, request.flood_id)) || (
        request.path_trace.len() > 0 && forall|id: NodeId| #[trigger]
            drone.neighbors.contains_key(id) ==> id == request.path_trace.last().0),
        drone.answers_flood(request, session_id, actions),
    ensures
        actions.len() == 1,
        actions[0] matches ActionView::Respond { request: traced, session_id: session } && {
            &&& session == session_id
            &&& traced.flood_id == request.flood_id
            &&& traced.initiator_id == request.initiator_id
            &&& traced.path_trace == request.path_trace.push((drone.id, NodeType::Drone))
        },
{
    if !drone.floods.contains((request.initiator_id, request.flood_id)) {
        assert(drone.neighbors_except(request.path_trace.last().0) =~= Set::<NodeId>::empty());
        assert(crate::model::prev_node(drone.traced(request).path_trace) == Some(
            request.path_trace.last().0,
        ));
    }
}

/// A flood that is new to a drone which is not crashing, and that came from somebody, is passed on
/// where there is another neighbour. What is sent is the request as it came but for the drone at
/// the end of its trace, in the same session, without a route, and not by way of the controller. It
/// goes to neighbours only, never to the one that it came from, to nobody twice, and no other
/// neighbour is left out.
pub proof fn law_flood_is_passed_on_as_it_came<S>(
    drone: DroneView<S>,
    request: FloodRequestView,
    session_id: u64,
    actions: Seq<ActionView>,
    node: NodeId,
)
    requires
        !drone.crashing,
        !drone.floods.contains((request.initiator_id, request.flood_id)),
        request.path_trace.len() > 0,
        drone.neighbors.contains_key(node),
        node != request.path_trace.last().0,
        drone.answers_flood(request, session_id, actions),
    ensures
        forall|i: int|
            0 <= i < actions.len() ==> (#[trigger] actions[i] matches ActionView::Transmit {
                to,
                packet,
                fallback,
            } && {
                &&& drone.neighbors.contains_key(to)
                &&& to != request.path_trace.last().0
                &&& fallback is Nothing
                &&& packet.session_id == session_id
                &&& packet.routing_header.hop_index == 0
                &&& packet.routing_header.hops.len() == 0
                &&& packet.pack_type matches PacketTypeView::FloodRequest(sent)
                &&& sent.flood_id == request.flood_id
                &&& sent.initiator_id == request.initiator_id
                &&& sent.path_trace == request.path_trace.push((drone.id, NodeType::Drone))
            }),
        forall|i: int, j: int|
            0 <= i < j < actions.len() ==> (#[trigger] actions[i])->to != (
            #[trigger] actions[j])->to,
        exists|i: int|
            0 <= i < actions.len() && (#[trigger] actions[i] matches ActionView::Transmit { to, .. }
                && to == node),
{
    let traced = drone.traced(request);
    let sender = request.path_trace.last().0;
    assert(crate::model::prev_node(traced.path_trace) == Some(sender));
    let targets = drone.neighbors_except(sender);
    let copy = PacketView::flood_request(RouteView::empty(), session_id, traced);
    assert(targets.contains(node));
    let order = choose|order: Seq<NodeId>| #[trigger]
        crate::model::enumerates(order, targets) && actions == crate::model::transmissions(
            order,
            copy,
        );
    assert forall|i: int| 0 <= i < order.len() implies targets.contains(#[trigger] order[i]) by {
        assert(order.to_set().contains(order[i]));
    }
    assert(order.to_set().contains(node));
    let i = order.index_of(node);
    assert(actions[i]->to == node);
}

/// A flood request without a trace, or one for a crashing drone, is answered by nothing.
pub proof fn law_flood_from_nowhere<S>(
    drone: DroneView<S>,
    request: FloodRequestView,
    session_id: u64,
    actions: Seq<ActionView>,
)
    requires
        drone.crashing || (request.path_trace.len() == 0 && !drone.floods.contains(
            (request.initiator_id, request.flood_id),
        )),
        drone.answers_flood(request, session_id, actions),
    ensures
        actions.len() == 0,
{
}

/// The special drop rates: the pattern of 0.777 becomes that of 0.0, the pattern of 0.666 that of
/// 1.0, every other rate stays. Nothing else changes. The pattern of 0.36036036 asks for the
/// backflip, and only that one does.
pub proof fn law_special_rates<S>(drone: DroneView<S>)
    ensures
        drone.pdr.bits == 0x3f46_e979u32 ==> drone.egged().pdr.bits == 0u32,
        drone.pdr.bits == 0x3f2a_7efau32 ==> drone.egged().pdr.bits == 0x3f80_0000u32,
        drone.pdr.bits != 0x3f46_e979u32 && drone.pdr.bits != 0x3f2a_7efau32
            ==> drone.egged().pdr.bits == drone.pdr.bits,
        drone.pdr.same(Single { bits: BACKFLIP_BITS }) <==> drone.pdr.bits == 0x3eb8_8127u32,
        drone.egged().id == drone.id,
        drone.egged().neighbors == drone.neighbors,
        drone.egged().floods == drone.floods,
        drone.egged().crashing == drone.crashing,
        crate::model::backflip_line()
            == "You really thought that I can do a backflip? Bruuuh, you got scammed"@,
{
}

} // verus!
