//! What a single drone decides.
use std::collections::HashMap;

use krusty_crap_drone::action::{delivery_event, Action, Fallback};
use krusty_crap_drone::controller::{DroneCommand, DroneEvent};
use krusty_crap_drone::drone::KrustyCrapDrone;
use krusty_crap_drone::input::Input;
use krusty_crap_drone::network::{NodeId, NodeType, SourceRoutingHeader};
use krusty_crap_drone::packet::{
    Ack, FloodRequest, Fragment, Nack, NackType, Packet, PacketType,
};
use krusty_crap_drone::single::Single;

fn single(number: f32) -> Single {
    Single::from_bits(number.to_bits())
}

/// A drone whose neighbours are reached by the letters given.
fn drone(id: NodeId, neighbors: &[(NodeId, char)], pdr: f32) -> KrustyCrapDrone<char> {
    let packet_send: HashMap<NodeId, char> = neighbors.iter().copied().collect();
    KrustyCrapDrone::new(id, packet_send, single(pdr))
}

fn route(hop_index: usize, hops: &[NodeId]) -> SourceRoutingHeader {
    SourceRoutingHeader { hop_index, hops: hops.to_vec() }
}

fn fragment(fragment_index: u64) -> Fragment {
    Fragment { fragment_index, total_n_fragments: 9, length: 3, data: [7; 128] }
}

fn nack(header: SourceRoutingHeader, nack_type: NackType) -> Packet {
    Packet::new_nack(header, 40, Nack { fragment_index: 2, nack_type })
}

fn request(path_trace: &[(NodeId, NodeType)]) -> FloodRequest {
    FloodRequest { flood_id: 6, initiator_id: 1, path_trace: path_trace.to_vec() }
}

fn targets(actions: &[Action]) -> Vec<NodeId> {
    let mut targets: Vec<NodeId> = actions
        .iter()
        .map(|action| match action {
            Action::Transmit { to, .. } => *to,
            _ => panic!("not a transmission"),
        })
        .collect();
    targets.sort();
    targets
}

#[test]
fn a_crashing_drone_names_itself() {
    let mut d = drone(11, &[(1, 'c'), (12, 'd')], 0.0);
    d.handle_command(DroneCommand::Crash);
    let actions = d.handle_fragment(fragment(2), route(1, &[1, 11, 12]), 40, single(0.5));
    assert_eq!(
        actions,
        vec![Action::Transmit {
            to: 1,
            packet: nack(route(1, &[11, 1]), NackType::ErrorInRouting(11)),
            fallback: Fallback::Controller,
        }]
    );
}

#[test]
fn an_index_off_the_route_is_an_unexpected_recipient() {
    let d = drone(11, &[(1, 'c'), (12, 'd')], 0.0);
    let actions = d.handle_fragment(fragment(2), route(3, &[11, 1, 12]), 40, single(0.5));
    assert_eq!(
        actions,
        vec![Action::Transmit {
            to: 1,
            packet: nack(route(1, &[12, 1, 11]), NackType::UnexpectedRecipient(11)),
            fallback: Fallback::Controller,
        }]
    );
}

#[test]
fn a_fragment_for_somebody_else_is_an_unexpected_recipient() {
    let d = drone(11, &[(1, 'c'), (12, 'd')], 0.0);
    let actions = d.handle_fragment(fragment(2), route(1, &[1, 13, 12]), 40, single(0.5));
    assert_eq!(
        actions,
        vec![Action::Transmit {
            to: 1,
            packet: nack(route(1, &[13, 1]), NackType::UnexpectedRecipient(11)),
            fallback: Fallback::Controller,
        }]
    );
}

#[test]
fn a_route_must_not_end_at_a_drone() {
    let d = drone(11, &[(1, 'c')], 0.0);
    let actions = d.handle_fragment(fragment(2), route(1, &[1, 11]), 40, single(0.5));
    assert_eq!(
        actions,
        vec![Action::Transmit {
            to: 1,
            packet: nack(route(1, &[11, 1]), NackType::DestinationIsDrone),
            fallback: Fallback::Controller,
        }]
    );
}

#[test]
fn an_unknown_next_hop_is_named() {
    let d = drone(11, &[(1, 'c')], 0.0);
    let actions = d.handle_fragment(fragment(2), route(2, &[5, 1, 11, 12, 13]), 40, single(0.5));
    assert_eq!(
        actions,
        vec![Action::Transmit {
            to: 1,
            packet: nack(route(1, &[11, 1, 5]), NackType::ErrorInRouting(12)),
            fallback: Fallback::Controller,
        }]
    );
}

#[test]
fn an_answer_without_a_way_back_goes_to_the_controller() {
    let d = drone(11, &[(12, 'd')], 0.0);
    let actions = d.handle_fragment(fragment(2), route(0, &[11]), 40, single(0.5));
    assert_eq!(
        actions,
        vec![Action::Notify(DroneEvent::ControllerShortcut(nack(
            route(1, &[11]),
            NackType::DestinationIsDrone
        )))]
    );
}

#[test]
fn only_a_draw_below_the_rate_loses_the_fragment() {
    let d = drone(11, &[(1, 'c'), (12, 'd')], 0.25);
    let header = route(1, &[1, 11, 12]);
    let lost = d.handle_fragment(fragment(2), header.clone(), 40, single(0.24999999));
    assert_eq!(
        lost,
        vec![
            Action::Notify(DroneEvent::PacketDropped(Packet::new_fragment(
                header.clone(),
                40,
                fragment(2)
            ))),
            Action::Transmit {
                to: 1,
                packet: nack(route(1, &[11, 1]), NackType::Dropped),
                fallback: Fallback::Controller,
            },
        ]
    );
    for roll in [0.25, 0.250001] {
        let kept = d.handle_fragment(fragment(2), header.clone(), 40, single(roll));
        assert_eq!(
            kept,
            vec![Action::Transmit {
                to: 12,
                packet: Packet::new_fragment(route(2, &[1, 11, 12]), 40, fragment(2)),
                fallback: Fallback::Nothing,
            }]
        );
    }
}

#[test]
fn the_rate_zero_loses_nothing() {
    let d = drone(11, &[(1, 'c'), (12, 'd')], 0.0);
    let header = route(1, &[1, 11, 12]);
    for roll in [0.0, f32::MIN_POSITIVE, 0.1, 0.999] {
        assert_eq!(
            d.handle_fragment(fragment(2), header.clone(), 40, single(roll)),
            vec![Action::Transmit {
                to: 12,
                packet: Packet::new_fragment(route(2, &[1, 11, 12]), 40, fragment(2)),
                fallback: Fallback::Nothing,
            }]
        );
    }
}

#[test]
fn the_rate_one_loses_everything_and_a_higher_rate_saves_nothing() {
    let header = route(1, &[1, 11, 12]);
    let mut d = drone(11, &[(1, 'c'), (12, 'd')], 0.5);
    for rate in [0.5, 0.75, 1.0] {
        d.handle_command(DroneCommand::SetPacketDropRate(single(rate)));
        assert_eq!(d.handle_fragment(fragment(2), header.clone(), 40, single(0.3)).len(), 2);
    }
    for roll in [0.0, 0.5, 0.99999994] {
        assert_eq!(d.handle_fragment(fragment(2), header.clone(), 40, single(roll)).len(), 2);
    }
    d.handle_command(DroneCommand::SetPacketDropRate(single(f32::NAN)));
    assert_eq!(d.handle_fragment(fragment(2), header, 40, single(0.0)).len(), 1);
}

#[test]
fn packets_are_told_apart() {
    let mut d = drone(11, &[(1, 'c'), (12, 'd')], 0.0);
    for pack_type in [
        PacketType::Ack(Ack { fragment_index: 8 }),
        PacketType::Nack(Nack { fragment_index: 8, nack_type: NackType::DestinationIsDrone }),
    ] {
        let packet = Packet { routing_header: route(1, &[12, 11, 1]), session_id: 2, pack_type };
        let mut moved = packet.clone();
        moved.routing_header.hop_index = 2;
        assert_eq!(
            d.handle_packet(packet, single(0.0)),
            vec![Action::Transmit { to: 1, packet: moved, fallback: Fallback::Controller }]
        );
    }
    let flood = Packet::new_flood_request(
        SourceRoutingHeader::empty_route(),
        2,
        request(&[(1, NodeType::Client)]),
    );
    assert_eq!(targets(&d.handle_packet(flood, single(0.0))), vec![12]);
    let piece = Packet::new_fragment(route(1, &[1, 11, 12]), 2, fragment(0));
    assert_eq!(targets(&d.handle_packet(piece, single(0.5))), vec![12]);
}

#[test]
fn a_packet_without_a_next_hop_takes_the_shortcut() {
    let d = drone(11, &[(12, 'd')], 0.0);
    for hops in [vec![12, 11], vec![12, 11, 3]] {
        let mut packet = Packet {
            routing_header: SourceRoutingHeader { hop_index: 1, hops },
            session_id: 2,
            pack_type: PacketType::Ack(Ack { fragment_index: 8 }),
        };
        let actions = d.handle_ack(packet.clone());
        packet.routing_header.hop_index = 2;
        assert_eq!(actions, vec![Action::Notify(DroneEvent::ControllerShortcut(packet))]);
    }
}

#[test]
fn a_flood_goes_to_the_others_once() {
    let mut d = drone(11, &[(1, 'c'), (12, 'd'), (13, 'e'), (14, 'f')], 0.0);
    let trace = [(1, NodeType::Client), (13, NodeType::Drone)];
    let actions = d.handle_flood_request(request(&trace), 4);
    assert_eq!(targets(&actions), vec![1, 12, 14]);
    let traced = request(&[trace[0], trace[1], (11, NodeType::Drone)]);
    for action in actions {
        match action {
            Action::Transmit { packet, fallback, .. } => {
                let copy = Packet::new_flood_request(
                    SourceRoutingHeader::empty_route(),
                    4,
                    traced.clone(),
                );
                assert_eq!(packet, copy);
                assert_eq!(fallback, Fallback::Nothing);
            }
            _ => panic!("not a transmission"),
        }
    }
    let again = d.handle_flood_request(request(&[(1, NodeType::Client)]), 9);
    let traced = request(&[(1, NodeType::Client), (11, NodeType::Drone)]);
    assert_eq!(again, vec![Action::Respond { request: traced, session_id: 9 }]);
}

#[test]
fn floods_are_told_apart_by_initiator_and_number() {
    let mut d = drone(11, &[(1, 'c'), (12, 'd')], 0.0);
    let trace = vec![(1, NodeType::Client)];
    for (initiator_id, flood_id) in [(1, 6), (2, 6), (1, 7)] {
        let flood = FloodRequest { flood_id, initiator_id, path_trace: trace.clone() };
        assert_eq!(targets(&d.handle_flood_request(flood, 0)), vec![12]);
    }
    let seen = FloodRequest { flood_id: 6, initiator_id: 2, path_trace: trace };
    assert!(matches!(d.handle_flood_request(seen, 0)[0], Action::Respond { .. }));
}

#[test]
fn a_flood_at_a_dead_end_is_answered() {
    let mut d = drone(11, &[(1, 'c')], 0.0);
    let actions = d.handle_flood_request(request(&[(1, NodeType::Client)]), 4);
    let traced = request(&[(1, NodeType::Client), (11, NodeType::Drone)]);
    assert_eq!(actions, vec![Action::Respond { request: traced, session_id: 4 }]);
}

#[test]
fn a_flood_from_nowhere_is_noted_but_not_answered() {
    let mut d = drone(11, &[(1, 'c'), (12, 'd')], 0.0);
    assert!(d.handle_flood_request(request(&[]), 4).is_empty());
    let actions = d.handle_flood_request(request(&[]), 4);
    let traced = request(&[(11, NodeType::Drone)]);
    assert_eq!(actions, vec![Action::Respond { request: traced, session_id: 4 }]);
}

#[test]
fn a_crashing_drone_ignores_floods_and_hands_answers_on() {
    let mut d = drone(11, &[(1, 'c'), (12, 'd')], 0.0);
    d.handle_command(DroneCommand::Crash);
    assert!(d.handle_flood_request(request(&[(1, NodeType::Client)]), 4).is_empty());
    let packet = Packet {
        routing_header: route(1, &[12, 11, 1]),
        session_id: 2,
        pack_type: PacketType::Ack(Ack { fragment_index: 8 }),
    };
    assert_eq!(targets(&d.handle_packet(packet, single(0.0))), vec![1]);
}

#[test]
fn neighbors_come_and_go() {
    let mut d = drone(11, &[(1, 'c')], 0.0);
    assert_eq!(d.sender_of(12), None);
    d.handle_command(DroneCommand::AddSender(12, 'd'));
    assert_eq!(d.sender_of(12), Some(&'d'));
    d.handle_command(DroneCommand::AddSender(12, 'e'));
    assert_eq!(d.sender_of(12), Some(&'e'));
    assert_eq!(d.get_sender_of_next(&route(0, &[11, 12])), Some(&'e'));
    assert_eq!(d.get_sender_of_next(&route(1, &[11, 12])), None);
    assert_eq!(d.get_neighbors_except(1), vec![12]);
    d.handle_command(DroneCommand::RemoveSender(12));
    assert_eq!(d.sender_of(12), None);
    assert_eq!(d.get_sender_of_next(&route(0, &[11, 12])), None);
    assert_eq!(d.get_neighbors_except(12), vec![1]);
    let refused = d.handle_fragment(fragment(2), route(1, &[1, 11, 12]), 40, single(0.5));
    assert_eq!(
        refused,
        vec![Action::Transmit {
            to: 1,
            packet: nack(route(1, &[11, 1]), NackType::ErrorInRouting(12)),
            fallback: Fallback::Controller,
        }]
    );
}

#[test]
fn the_previous_node_is_the_last_but_one() {
    let d = drone(11, &[], 0.0);
    let trace = vec![(1, NodeType::Client), (4, NodeType::Server), (11, NodeType::Drone)];
    assert_eq!(d.get_prev_node_id(&trace), Some(4));
    assert_eq!(d.get_prev_node_id(&vec![(11, NodeType::Drone)]), None);
    assert_eq!(d.get_prev_node_id(&vec![]), None);
}

#[test]
fn the_way_back_and_back_again() {
    let mut header = route(2, &[5, 1, 11, 12, 13]);
    header.turn_back();
    assert_eq!(header, route(0, &[11, 1, 5]));
    header.hop_index = 2;
    header.turn_back();
    assert_eq!(header, route(0, &[5, 1, 11]));
    header.increase_hop_index();
    assert_eq!(header.current_hop(), Some(1));
    assert_eq!(header.next_hop(), Some(11));
}

#[test]
fn what_the_controller_hears() {
    let packet = nack(route(0, &[11]), NackType::Dropped);
    assert_eq!(
        delivery_event(packet.clone(), Fallback::Nothing, true),
        Some(DroneEvent::PacketSent(packet.clone()))
    );
    assert_eq!(
        delivery_event(packet.clone(), Fallback::Controller, true),
        Some(DroneEvent::PacketSent(packet.clone()))
    );
    assert_eq!(
        delivery_event(packet.clone(), Fallback::Controller, false),
        Some(DroneEvent::ControllerShortcut(packet.clone()))
    );
    assert_eq!(delivery_event(packet, Fallback::Nothing, false), None);
}

#[test]
fn a_closed_input_changes_nothing() {
    let mut d = drone(11, &[(1, 'c')], 0.0);
    assert!(d.run_step(Input::Closed, single(0.0)).is_empty());
    assert_eq!(d.sender_of(1), Some(&'c'));
    assert!(!d.is_finished(true));
    d.run_step(Input::Command(DroneCommand::Crash), single(0.0));
    assert!(d.is_finished(true));
    assert!(!d.is_finished(false));
}

/// Whether a drone that starts with `pdr` loses a fragment for which `roll` is drawn.
fn starts_and_loses(pdr: f32, roll: f32) -> bool {
    let mut d = drone(11, &[(1, 'c'), (12, 'd')], pdr);
    d.ester_egg();
    d.handle_fragment(fragment(2), route(1, &[1, 11, 12]), 40, single(roll)).len() == 2
}

#[test]
fn special_rates_are_seen_at_the_start() {
    assert!(!starts_and_loses(0.777, 0.0));
    assert!(!starts_and_loses(0.777, 0.001));
    assert!(starts_and_loses(0.666, 0.999));
    assert!(starts_and_loses(0.778, 0.5));
    assert!(!starts_and_loses(0.665, 0.9));
    assert!(starts_and_loses(0.360_360_36, 0.36));
    assert!(!starts_and_loses(0.360_360_36, 0.37));
    let line = "You really thought that I can do a backflip? Bruuuh, you got scammed";
    assert_eq!(drone(11, &[], 0.360_360_36).ester_egg(), Some(line));
    assert_eq!(drone(11, &[], 0.777).ester_egg(), None);
    assert_eq!(drone(11, &[], 0.5).ester_egg(), None);
}

#[test]
fn a_second_look_at_the_rate_changes_nothing() {
    for (pdr, roll, lost) in [(0.777, 0.1, false), (0.666, 0.9, true), (0.5, 0.4, true)] {
        let mut d = drone(11, &[(1, 'c'), (12, 'd')], pdr);
        for _ in 0..2 {
            assert_eq!(d.ester_egg(), None);
            let actions =
                d.handle_fragment(fragment(2), route(1, &[1, 11, 12]), 40, single(roll));
            assert_eq!(actions.len() == 2, lost);
        }
    }
}

#[test]
fn no_later_order_undoes_a_crash() {
    let mut d = drone(11, &[(1, 'c')], 0.0);
    let mut orders = vec![
        DroneCommand::Crash,
        DroneCommand::SetPacketDropRate(single(0.5)),
        DroneCommand::AddSender(12, 'd'),
        DroneCommand::RemoveSender(1),
    ];
    assert!(!d.is_finished(true));
    for order in orders.drain(..) {
        assert!(d.run_step(Input::Command(order), single(0.0)).is_empty());
        assert!(d.is_finished(true));
    }
}
