//! The failures a synthesis session reports to its caller.

use vstd::prelude::*;

verus! {

/// Why an operation on a session was refused.
///
/// Every failure of the engine behind a session reaches the caller as exactly
/// one of these kinds.
#[derive(Clone, Copy, Debug, PartialEq, Eq, Structural)]
pub enum HTSEngineError {
    /// The engine rejected the model data.
    LoadError,
    /// The model was read, but it declares another label format than the
    /// one this library speaks.
    ModelTypeError,
    /// A string holds a zero byte and so cannot be handed to the engine.
    CStringError,
    /// The engine produced no waveform; this includes asking a session
    /// that holds no model.
    SynthesisError,
}

impl HTSEngineError {
    /// The text of [`HTSEngineError::message`], as a sequence of characters.
    pub open spec fn message_text(self) -> Seq<char> {
        match self {
            HTSEngineError::LoadError => "model loading failed"@,
            HTSEngineError::ModelTypeError => "model type is not HTS_TTS_JPN"@,
            HTSEngineError::CStringError => "the string contains \\0"@,
            HTSEngineError::SynthesisError => "synthesis failed"@,
        }
    }

    /// A short description of the failure, for people.
    pub fn message(&self) -> (text: String)
        ensures
            text@ == self.message_text(),
    {
        match self {
            HTSEngineError::LoadError => "model loading failed".to_owned(),
            HTSEngineError::ModelTypeError => "model type is not HTS_TTS_JPN".to_owned(),
            HTSEngineError::CStringError => "the string contains \\0".to_owned(),
            HTSEngineError::SynthesisError => "synthesis failed".to_owned(),
        }
    }
}

/// A stream index that the loaded model does not have.
///
/// Per-stream settings are addressed by a zero-based index; one at or past
/// the number of streams is refused before it reaches the engine.
#[derive(Clone, Copy, Debug, PartialEq, Eq, Structural)]
pub struct StreamIndexError {
    /// The index that was asked for.
    pub index: usize,
    /// The number of streams of the loaded model; zero when none is loaded.
    pub streams: usize,
}

impl StreamIndexError {
    /// The text of [`StreamIndexError::message`], as a sequence of characters.
    pub open spec fn message_text(self) -> Seq<char> {
        "stream index out of range"@
    }

    /// A short description of the failure, for people.
    pub fn message(&self) -> (text: String)
        ensures
            text@ == self.message_text(),
    {
        "stream index out of range".to_owned()
    }
}

} // verus!
