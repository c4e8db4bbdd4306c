//! What a drone and its controller say to each other.
use vstd::prelude::*;

use crate::network::NodeId;
use crate::packet::{Packet, PacketView};
use crate::single::Single;

verus! {

/// An order from the controller. `S` is whatever sends packets to a neighbour.
#[derive(Debug)]
pub enum DroneCommand<S> {
    /// Connects the drone to a neighbour.
    AddSender(NodeId, S),
    /// Cuts the drone off from a neighbour.
    RemoveSender(NodeId),
    /// Sets the share of fragments that are lost on purpose.
    SetPacketDropRate(Single),
    /// Tells the drone to stop once its packets are dealt with.
    Crash,
}

/// A report to the controller.
#[derive(Debug, PartialEq, Eq)]
pub enum DroneEvent {
    /// The packet was handed to a neighbour.
    PacketSent(Packet),
    /// The packet was lost on purpose.
    PacketDropped(Packet),
    /// The packet could not be handed on: the controller is to deliver it.
    ControllerShortcut(Packet),
}

/// A report as a mathematical value.
#[verifier::ext_equal]
pub enum EventView {
    PacketSent(PacketView),
    PacketDropped(PacketView),
    ControllerShortcut(PacketView),
}

impl View for DroneEvent {
    type V = EventView;

    open spec fn view(&self) -> EventView {
        match *self {
            DroneEvent::PacketSent(packet) => EventView::PacketSent(packet@),
            DroneEvent::PacketDropped(packet) => EventView::PacketDropped(packet@),
            DroneEvent::ControllerShortcut(packet) => EventView::ControllerShortcut(packet@),
        }
    }
}

} // verus!
