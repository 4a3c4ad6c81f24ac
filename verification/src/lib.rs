//! Note-synthesis core for a button-and-motion musical instrument.
//!
//! Discrete button edges step through a diatonic scale, a motion sensor bends
//! the pitch continuously, and a periodic timer tick recomputes the sounding
//! pitch. This crate holds the event-driven state machine: debounced step
//! tracking, scale quantization, pitch-bend blending, and the per-tick pitch
//! computation. Pitch is represented exactly, as an equal-tempered semitone
//! index plus a raw bend sample; turning that into a frequency in hertz is a
//! single exponentiation that the embedding program performs.

pub mod bend;
pub mod engine;
pub mod scale;
pub mod synth;
pub mod tracker;
