//! Core of an interactive sketching tool: a classifier that turns raw
//! pointer and key events into intents, an accumulator that grows a
//! stroke of points in response to those intents, and a renderer that
//! builds a cached polyline path from the stroke.

pub mod geometry;
pub mod input;
pub mod laws;
pub mod state;
