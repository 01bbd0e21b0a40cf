//! Control core of a desktop panel for a background network-proxy agent.
//!
//! The library owns the agent's lifecycle state machine, the bounded event
//! history (status line, throughput snapshot, log ring, throughput series),
//! and the normalization of agent events into the shape the panel consumes.
//! The agent process itself, the window toolkit and all I/O live outside and
//! talk to this core through plain values.

pub mod bridge;
pub mod command;
pub mod config;
pub mod error;
pub mod input;
pub mod lifecycle;
pub mod model;
pub mod ring;
pub mod text;
pub mod vo;
