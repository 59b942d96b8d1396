//! A Pomodoro timer library with a verified core.
//!
//! The timer state machine ([`timer`]), the session lifecycle and its
//! tick-driven coupling to the timer ([`app_core`]), the data model
//! ([`models`]) and the name validation rules ([`validation`]) are all
//! pure state transitions with proved contracts. Reading clocks,
//! persistence and the terminal live outside; callers pass clock
//! readings in as plain values and take finished session records out.

pub mod app_core;
pub mod clock;
pub mod models;
pub mod text;
pub mod timer;
pub mod validation;
