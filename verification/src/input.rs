//! What reaches a drone from outside.
use vstd::prelude::*;

use crate::controller::DroneCommand;
use crate::packet::{Packet, PacketView};

verus! {

/// What one turn of the drone's main loop brings.
#[derive(Debug)]
pub enum Input<S> {
    /// An order came from the controller.
    Command(DroneCommand<S>),
    /// A packet came from a neighbour.
    Packet(Packet),
    /// A channel had nothing to give: its other end is closed.
    Closed,
}

/// An input as a mathematical value.
pub enum InputView<S> {
    Command(DroneCommand<S>),
    Packet(PacketView),
    Closed,
}

impl<S> View for Input<S> {
    type V = InputView<S>;

    open spec fn view(&self) -> InputView<S> {
        match *self {
            Input::Command(command) => InputView::Command(command),
            Input::Packet(packet) => InputView::Packet(packet@),
            Input::Closed => InputView::Closed,
        }
    }
}

impl<S> InputView<S> {
    /// Whether the hop index of a packet that came, if any, can be counted up where it has to be.
    pub open spec fn can_move_on(self) -> bool {
        self matches InputView::Packet(packet) ==> packet.can_move_on()
    }
}

} // verus!
