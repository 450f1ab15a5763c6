//! An in-process request counter: a shared tally that is incremented once per
//! request and read back under exclusive access, together with the rendering
//! of the textual responses built from it.

pub mod counter;
pub mod message;
