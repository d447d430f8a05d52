//! Core of a METAR-driven LED map: deterministic classification of parsed
//! weather observations into flight-rules categories, and the framed serial
//! protocol that pushes per-LED color assignments to a microcontroller.

pub mod classify;
pub mod color;
pub mod frame;
pub mod observation;
pub mod report;
pub mod roster;
pub mod rules;
pub mod tick;
