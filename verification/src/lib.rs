//! A rate-paced benchmark publisher, as a library of verified decisions.
//!
//! The library builds the fixed payload, derives the sleep period from the
//! configured rate, and drives one publishing run as a state machine: the
//! caller performs each action (open, sleep, read the clock, send, print)
//! and feeds the outcome back as an event.

pub mod payload;
pub mod pacing;
pub mod config;
pub mod publisher;
pub mod run;
pub mod report;
