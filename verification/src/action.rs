//! What a drone asks its surroundings to do.
use vstd::prelude::*;

use crate::controller::{DroneEvent, EventView};
use crate::network::NodeId;
use crate::packet::{FloodRequest, FloodRequestView, Packet, PacketView};

verus! {

/// What becomes of a packet that the neighbour's channel does not take.
#[derive(Clone, Copy, Debug, PartialEq, Eq, Structural)]
pub enum Fallback {
    /// The controller gets it.
    Controller,
    /// It is lost without a word.
    Nothing,
}

/// One thing to do for the drone. The actions of one call are to be done in their order.
#[derive(Debug, PartialEq, Eq)]
pub enum Action {
    /// Send the event to the controller. Nothing follows if the controller is gone.
    Notify(DroneEvent),
    /// Send the packet to the neighbour `to`, and report as [`delivery_event`] says.
    Transmit { to: NodeId, packet: Packet, fallback: Fallback },
    /// Make the response to the traced request, and hand it to the drone's `send_to_next_hop`.
    Respond { request: FloodRequest, session_id: u64 },
}

/// An action as a mathematical value.
#[verifier::ext_equal]
pub enum ActionView {
    Notify(EventView),
    Transmit { to: NodeId, packet: PacketView, fallback: Fallback },
    Respond { request: FloodRequestView, session_id: u64 },
}

impl View for Action {
    type V = ActionView;

    open spec fn view(&self) -> ActionView {
        match *self {
            Action::Notify(event) => ActionView::Notify(event@),
            Action::Transmit { to, packet, fallback } => ActionView::Transmit {
                to,
                packet: packet@,
                fallback,
            },
            Action::Respond { request, session_id } => ActionView::Respond {
                request: request@,
                session_id,
            },
        }
    }
}

impl Action {
    /// A list of actions as mathematical values.
    pub open spec fn views(actions: Seq<Action>) -> Seq<ActionView> {
        actions.map_values(|action: Action| action@)
    }
}

/// What the controller hears of a packet after an attempt to send it.
pub open spec fn delivery_report(
    packet: PacketView,
    fallback: Fallback,
    delivered: bool,
) -> Option<EventView> {
    if delivered {
        Some(EventView::PacketSent(packet))
    } else if fallback is Controller {
        Some(EventView::ControllerShortcut(packet))
    } else {
        None
    }
}

/// The event to send to the controller after an attempt to send `packet` to a neighbour, if any.
pub fn delivery_event(packet: Packet, fallback: Fallback, delivered: bool) -> (event: Option<
    DroneEvent,
>)
    ensures
        event is Some <==> delivery_report(packet@, fallback, delivered) is Some,
        event matches Some(event) ==> Some(event@) == delivery_report(packet@, fallback, delivered),
        delivered ==> event == Some(DroneEvent::PacketSent(packet)),
        !delivered && fallback is Controller ==> event == Some(
            DroneEvent::ControllerShortcut(packet),
        ),
        !delivered && fallback is Nothing ==> event is None,
{
    if delivered {
        Some(DroneEvent::PacketSent(packet))
    } else {
        match fallback {
            Fallback::Controller => Some(DroneEvent::ControllerShortcut(packet)),
            Fallback::Nothing => None,
        }
    }
}

} // verus!
