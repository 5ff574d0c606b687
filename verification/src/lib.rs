//! Minute-aligned wake-ups for a terminal clock.
//!
//! The crate holds the decisions of a clock display that redraws once per
//! minute: when a timer must fire next, what a read from the timer's
//! descriptor means, which steps a wait performs and in which order, how the
//! main loop reacts to a wake-up or to a quit request, what the key listener
//! forwards, and what the display shows. The caller performs the system
//! calls and hands their results in as plain values.

pub mod bridge;
pub mod coordinator;
pub mod display;
pub mod listener;
pub mod schedule;
pub mod trace;
