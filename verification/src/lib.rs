//! The render loop of a windowed GPU program, as a state machine.
//!
//! `controller` holds the controller and its transitions: what each event of
//! the window system does to the window size, the surface configuration and
//! the clear colour, and what the program is to do in answer. `event` is the
//! vocabulary of events and actions, `surface` the surface's configuration
//! and its negotiation at startup, `frame` what one frame draws and how it
//! can end. `laws` proves what holds of every state and event.
//!
//! Nothing here opens a window or talks to a GPU: the program that does
//! pumps events in and carries actions out.

pub mod controller;
pub mod event;
pub mod frame;
pub mod laws;
pub mod surface;
