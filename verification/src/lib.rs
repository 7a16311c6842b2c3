//! Rope, chair and zone bookkeeping for a detachable chairlift: an encoder on
//! the haul rope counts pulses, chairs are attached to the rope at departure,
//! and each chair's place on the loop follows from the pulses counted since.

pub mod api;
pub mod chair;
pub mod config;
pub mod machine;
pub mod position;
