//! Voice allocation and timing core of a polyphonic synthesizer.
//!
//! The engine keeps at most one voice per note number, applies note events to
//! the voice pool, tells for every voice how many frames it has been held or
//! has been fading, and drops the voices that have finished. All of it works
//! on the integer sample clock; the signal arithmetic lives with the caller.

pub mod engine;
pub mod laws;
pub mod midi;
pub mod voice;
