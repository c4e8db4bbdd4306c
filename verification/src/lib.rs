//! The decision logic of a drone in a source-routed packet network.
//!
//! A drone receives packets from its neighbours and commands from a controller. For each of them
//! it decides what to hand on, to whom, and what to report. This crate holds those decisions, each
//! with a proved contract; moving the packets through channels is left to the caller, who performs
//! the actions that the drone asks for.
pub mod action;
pub mod controller;
pub mod drone;
pub mod input;
pub mod laws;
pub mod model;
pub mod network;
pub mod packet;
pub mod single;
