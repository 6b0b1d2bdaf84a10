//! The session logic of a binding to the HTS speech synthesis engine.
//!
//! The engine itself is native code that turns full-context labels into a
//! waveform. This crate holds what a binding decides around it, with every
//! decision proved against its contract:
//!
//! * [`cstring`]: which strings can cross to the engine, and in what bytes;
//! * [`session`]: the life of one engine instance, from creation through
//!   loading and synthesis to teardown;
//! * [`waveform`]: the samples of an utterance, taken out of the engine;
//! * [`error`]: the failures a caller can see.
//!
//! Nothing here touches the engine. A binding calls a function of this crate
//! before and after each engine call and does what the answer says.

pub mod cstring;
pub mod error;
pub mod session;
pub mod waveform;

pub use error::{HTSEngineError, StreamIndexError};
pub use session::{HTSEngine, State};

use vstd::prelude::*;

verus! {

/// The place of `i`, for a caller that hands it to the engine.
///
/// The engine reads its instance through an address even where it changes
/// nothing, so a reading call starts from a shared borrow. This is that
/// borrow, unchanged; the binding makes the address of it.
#[inline]
pub fn to_pointer<T>(i: &T) -> (place: &T)
    ensures
        place == i,
{
    i
}

} // verus!
