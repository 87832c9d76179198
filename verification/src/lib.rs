//! Retrieval and rendering of trip telemetry from a cycling-computer docking
//! station: the command/response protocol as a state machine, the decoding of
//! its fixed-length replies, and the text shown to the operator.

pub mod config;
pub mod cradle;
pub mod engine;
pub mod identify;
pub mod notice;
pub mod sequencing;
pub mod telemetry;
pub mod text;
pub mod units;
