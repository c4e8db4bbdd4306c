//! Drones that are joined by real channels.
use std::collections::HashMap;

use crossbeam_channel::{unbounded, Receiver, Sender};
use krusty_crap_drone::action::{delivery_event, Action};
use krusty_crap_drone::controller::{DroneCommand, DroneEvent};
use krusty_crap_drone::drone::KrustyCrapDrone;
use krusty_crap_drone::input::Input;
use krusty_crap_drone::network::{NodeId, NodeType, SourceRoutingHeader};
use krusty_crap_drone::packet::{
    Ack, FloodRequest, FloodResponse, Fragment, Nack, NackType, Packet, PacketType,
};
use krusty_crap_drone::single::Single;

/// A drone with the ends of the channels that it uses.
struct Station {
    drone: KrustyCrapDrone<Sender<Packet>>,
    packets: Receiver<Packet>,
    controller: Sender<DroneEvent>,
}

impl Station {
    fn new(
        id: NodeId,
        packets: &Receiver<Packet>,
        neighbors: &[(NodeId, &Sender<Packet>)],
        pdr: f32,
        controller: &Sender<DroneEvent>,
    ) -> Station {
        let packet_send: HashMap<NodeId, Sender<Packet>> =
            neighbors.iter().map(|(id, sender)| (*id, (*sender).clone())).collect();
        Station {
            drone: KrustyCrapDrone::new(id, packet_send, Single::from_bits(pdr.to_bits())),
            packets: packets.clone(),
            controller: controller.clone(),
        }
    }

    fn perform(&self, actions: Vec<Action>) {
        for action in actions {
            match action {
                Action::Notify(event) => {
                    let _ = self.controller.send(event);
                }
                Action::Transmit { to, packet, fallback } => {
                    let delivered = match self.drone.sender_of(to) {
                        Some(sender) => sender.send(packet.clone()).is_ok(),
                        None => panic!("not a neighbour"),
                    };
                    if let Some(event) = delivery_event(packet, fallback, delivered) {
                        let _ = self.controller.send(event);
                    }
                }
                Action::Respond { request, session_id } => {
                    self.perform(self.drone.send_to_next_hop(response_to(&request, session_id)));
                }
            }
        }
    }

    /// Takes one packet from the channel and deals with it.
    fn turn(&mut self, roll: f32) {
        let packet = self.packets.try_recv().unwrap();
        let roll = Single::from_bits(roll.to_bits());
        let actions = self.drone.run_step(Input::Packet(packet), roll);
        self.perform(actions);
    }
}

/// The response goes back along the trace.
fn response_to(request: &FloodRequest, session_id: u64) -> Packet {
    Packet {
        routing_header: SourceRoutingHeader {
            hop_index: 0,
            hops: request.path_trace.iter().rev().map(|(id, _)| *id).collect(),
        },
        session_id,
        pack_type: PacketType::FloodResponse(FloodResponse {
            flood_id: request.flood_id,
            path_trace: request.path_trace.clone(),
        }),
    }
}

fn sample_packet() -> Packet {
    Packet::new_fragment(
        SourceRoutingHeader { hop_index: 1, hops: vec![1, 11, 12, 21] },
        1,
        Fragment { fragment_index: 1, total_n_fragments: 1, length: 128, data: [1; 128] },
    )
}

fn dropped(hop_index: usize, hops: Vec<NodeId>) -> Packet {
    Packet::new_nack(
        SourceRoutingHeader { hop_index, hops },
        1,
        Nack { fragment_index: 1, nack_type: NackType::Dropped },
    )
}

#[test]
fn test_generic_fragment_forward() {
    let (d_send, d_recv) = unbounded();
    let (d2_send, d2_recv) = unbounded();
    let (event_send, event_recv) = unbounded();
    let mut drone = Station::new(11, &d_recv, &[(12, &d2_send)], 0.0, &event_send);

    for roll in [0.0, 0.5] {
        let mut msg = sample_packet();
        d_send.send(msg.clone()).unwrap();
        drone.turn(roll);
        msg.routing_header.hop_index = 2;

        assert_eq!(d2_recv.try_recv().unwrap(), msg);
        assert_eq!(event_recv.try_recv().unwrap(), DroneEvent::PacketSent(msg));
        assert!(event_recv.is_empty());
    }
}

#[test]
fn test_generic_fragment_drop() {
    let (c_send, c_recv) = unbounded();
    let (d_send, d_recv) = unbounded();
    let (event_send, event_recv) = unbounded();
    let neighbors = [(12, &d_send), (1, &c_send)];
    let mut drone = Station::new(11, &d_recv, &neighbors, 1.0, &event_send);

    let msg = sample_packet();
    d_send.send(msg.clone()).unwrap();
    drone.turn(0.999);

    let nack = dropped(1, vec![11, 1]);
    assert_eq!(c_recv.try_recv().unwrap(), nack);
    assert_eq!(event_recv.try_recv().unwrap(), DroneEvent::PacketDropped(msg));
    assert_eq!(event_recv.try_recv().unwrap(), DroneEvent::PacketSent(nack));
    assert!(event_recv.is_empty());
}

#[test]
fn test_generic_chain_fragment_drop() {
    let (c_send, c_recv) = unbounded();
    let (s_send, s_recv) = unbounded();
    let (d_send, d_recv) = unbounded();
    let (d12_send, d12_recv) = unbounded();
    let (event_send, event_recv) = unbounded();
    let mut first =
        Station::new(11, &d_recv, &[(12, &d12_send), (1, &c_send)], 0.0, &event_send);
    let mut second =
        Station::new(12, &d12_recv, &[(11, &d_send), (21, &s_send)], 1.0, &event_send);

    let msg = sample_packet();
    d_send.send(msg.clone()).unwrap();
    first.turn(0.25);
    second.turn(0.25);
    first.turn(0.25);

    assert_eq!(c_recv.try_recv().unwrap(), dropped(2, vec![12, 11, 1]));
    assert!(s_recv.is_empty());
    let mut moved = msg;
    moved.routing_header.hop_index = 2;
    assert_eq!(event_recv.try_recv().unwrap(), DroneEvent::PacketSent(moved.clone()));
    assert_eq!(event_recv.try_recv().unwrap(), DroneEvent::PacketDropped(moved));
    let back = dropped(1, vec![12, 11, 1]);
    assert_eq!(event_recv.try_recv().unwrap(), DroneEvent::PacketSent(back));
    let back = dropped(2, vec![12, 11, 1]);
    assert_eq!(event_recv.try_recv().unwrap(), DroneEvent::PacketSent(back));
}

#[test]
fn test_generic_chain_fragment_ack() {
    let (c_send, c_recv) = unbounded();
    let (s_send, s_recv) = unbounded();
    let (d_send, d_recv) = unbounded();
    let (d12_send, d12_recv) = unbounded();
    let (event_send, _event_recv) = unbounded();
    let mut first =
        Station::new(11, &d_recv, &[(12, &d12_send), (1, &c_send)], 0.0, &event_send);
    let mut second =
        Station::new(12, &d12_recv, &[(11, &d_send), (21, &s_send)], 0.0, &event_send);

    let mut msg = sample_packet();
    d_send.send(msg.clone()).unwrap();
    first.turn(0.75);
    second.turn(0.75);
    msg.routing_header.hop_index = 3;
    assert_eq!(s_recv.try_recv().unwrap(), msg);

    let mut ack = Packet {
        routing_header: SourceRoutingHeader { hop_index: 1, hops: vec![21, 12, 11, 1] },
        session_id: 1,
        pack_type: PacketType::Ack(Ack { fragment_index: 1 }),
    };
    d12_send.send(ack.clone()).unwrap();
    second.turn(0.0);
    first.turn(0.0);
    ack.routing_header.hop_index = 3;
    assert_eq!(c_recv.try_recv().unwrap(), ack);
}

#[test]
fn test_generic_flood_request_forward() {
    let (c_send, c_recv) = unbounded();
    let (d_send, d_recv) = unbounded();
    let (d12_send, d12_recv) = unbounded();
    let (d13_send, d13_recv) = unbounded();
    let (event_send, event_recv) = unbounded();
    let neighbors = [(1, &c_send), (12, &d12_send), (13, &d13_send)];
    let mut drone = Station::new(11, &d_recv, &neighbors, 0.0, &event_send);

    let request = FloodRequest {
        flood_id: 7,
        initiator_id: 1,
        path_trace: vec![(1, NodeType::Client)],
    };
    let packet = Packet::new_flood_request(SourceRoutingHeader::empty_route(), 5, request);
    d_send.send(packet.clone()).unwrap();
    drone.turn(0.5);

    let trace = vec![(1, NodeType::Client), (11, NodeType::Drone)];
    let traced = Packet::new_flood_request(
        SourceRoutingHeader::empty_route(),
        5,
        FloodRequest { flood_id: 7, initiator_id: 1, path_trace: trace.clone() },
    );
    assert_eq!(d12_recv.try_recv().unwrap(), traced);
    assert_eq!(d13_recv.try_recv().unwrap(), traced);
    assert!(c_recv.is_empty());
    assert_eq!(event_recv.try_recv().unwrap(), DroneEvent::PacketSent(traced.clone()));
    assert_eq!(event_recv.try_recv().unwrap(), DroneEvent::PacketSent(traced));
    assert!(event_recv.is_empty());

    // The same flood again is answered, not passed on.
    d_send.send(packet).unwrap();
    drone.turn(0.5);
    assert!(d12_recv.is_empty());
    assert!(d13_recv.is_empty());
    let response = Packet {
        routing_header: SourceRoutingHeader { hop_index: 1, hops: vec![11, 1] },
        session_id: 5,
        pack_type: PacketType::FloodResponse(FloodResponse { flood_id: 7, path_trace: trace }),
    };
    assert_eq!(c_recv.try_recv().unwrap(), response);
    assert_eq!(event_recv.try_recv().unwrap(), DroneEvent::PacketSent(response));
}

#[test]
fn a_closed_channel_sends_answers_to_the_controller_and_fragments_nowhere() {
    let (d_send, d_recv) = unbounded();
    let (next_send, next_recv) = unbounded();
    let (event_send, event_recv) = unbounded();
    let mut drone = Station::new(11, &d_recv, &[(12, &next_send)], 0.0, &event_send);
    drop(next_recv);

    let mut ack = Packet {
        routing_header: SourceRoutingHeader { hop_index: 1, hops: vec![1, 11, 12] },
        session_id: 3,
        pack_type: PacketType::Ack(Ack { fragment_index: 4 }),
    };
    d_send.send(ack.clone()).unwrap();
    drone.turn(0.5);
    ack.routing_header.hop_index = 2;
    assert_eq!(event_recv.try_recv().unwrap(), DroneEvent::ControllerShortcut(ack));

    d_send.send(sample_packet()).unwrap();
    drone.turn(0.5);
    assert!(event_recv.is_empty());
}

#[test]
fn a_drone_told_to_crash_answers_what_waits_and_ends() {
    let (c_send, c_recv) = unbounded();
    let (d_send, d_recv) = unbounded();
    let (event_send, _event_recv) = unbounded();
    let neighbors = [(1, &c_send), (12, &d_send)];
    let mut drone = Station::new(11, &d_recv, &neighbors, 0.0, &event_send);

    d_send.send(sample_packet()).unwrap();
    assert!(!drone.drone.is_finished(drone.packets.is_empty()));
    let roll = Single::from_bits(0);
    let command = Input::Command(DroneCommand::Crash);
    assert!(drone.drone.run_step(command, roll).is_empty());
    assert!(!drone.drone.is_finished(drone.packets.is_empty()));
    drone.turn(0.5);
    assert!(drone.drone.is_finished(drone.packets.is_empty()));

    let nack = Packet::new_nack(
        SourceRoutingHeader { hop_index: 1, hops: vec![11, 1] },
        1,
        Nack { fragment_index: 1, nack_type: NackType::ErrorInRouting(11) },
    );
    assert_eq!(c_recv.try_recv().unwrap(), nack);
}
