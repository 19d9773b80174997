//! A minimal countdown/elapsed-time widget library.
//!
//! The crate holds the state and the decision logic of a small timer
//! application: a shared offset counter ([`timer::Timer`]) and the
//! handlers that react to periodic ticks, a reset control and a done
//! control ([`controller`]). All window and widget work is left to the
//! surrounding program; the functions here go from plain values to
//! plain values and are verified.

pub mod controller;
pub mod timer;
