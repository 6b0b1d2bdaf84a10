//! The life of one engine instance.
//!
//! An instance is created empty, takes a model by loading, synthesizes any
//! number of utterances from it, and is torn down. The engine does the
//! loading and the synthesis; [`HTSEngine`] keeps count of where the instance
//! stands and decides, before and after each engine call, what the caller
//! gets:
//!
//! * [`HTSEngine::load`] and [`HTSEngine::synthesize`] say whether the engine
//!   is to be called at all, and with which bytes;
//! * [`HTSEngine::loaded`] and [`HTSEngine::synthesized`] take what the
//!   engine answered and say what the operation returns;
//! * [`HTSEngine::check_stream`] guards the per-stream settings;
//! * [`HTSEngine::clear`] says whether the engine's resources are to be
//!   released.
//!
//! Every transition is a function of [`State`]; the methods of
//! [`HTSEngine`] compute exactly those functions.

use crate::cstring::{
    all_representable, c_strings, lemma_representable_iff_no_nul_char, to_c_strings,
};
use crate::error::{HTSEngineError, StreamIndexError};
use vstd::prelude::*;
use vstd::string::*;
use vstd::utf8::is_ascii_chars_encode_utf8;

verus! {

/// The label format that a model must declare to be accepted.
pub const REQUIRED_FORMAT: &'static str = "HTS_TTS_JPN";

/// The status with which the engine reports success.
pub const STATUS_OK: i32 = 1;

/// The bytes of [`REQUIRED_FORMAT`].
pub open spec fn required_format() -> Seq<u8> {
    "HTS_TTS_JPN".spec_bytes()
}

/// Whether the engine reported success.
///
/// Only then does a model stand behind the load, with a label format and a
/// number of streams to ask the engine for.
pub fn succeeded(status: i32) -> (ok: bool)
    ensures
        ok == (status == STATUS_OK),
{
    status == STATUS_OK
}

/// Where an engine instance stands.
#[derive(Clone, Copy, Debug, PartialEq, Eq, Structural)]
pub enum State {
    /// Created, and holding no model.
    Uninitialized,
    /// Holding a model of `streams` streams, and ready to synthesize.
    Loaded { streams: usize },
    /// Holding a model of `streams` streams, with the engine at work on an
    /// utterance.
    Synthesizing { streams: usize },
    /// Torn down. No operation leaves this state.
    Cleared,
}

impl State {
    /// True when the instance holds a model.
    pub open spec fn holds_model(self) -> bool {
        self is Loaded || self is Synthesizing
    }

    /// The number of streams of the model held; zero when none is held.
    pub open spec fn stream_count(self) -> usize {
        match self {
            State::Loaded { streams } => streams,
            State::Synthesizing { streams } => streams,
            _ => 0,
        }
    }

    /// True when a model may be loaded: the instance is alive and the
    /// engine is not at work.
    pub open spec fn accepts_load(self) -> bool {
        self is Uninitialized || self is Loaded
    }

    /// What [`HTSEngine::load`] returns for the model paths `paths`.
    pub open spec fn load_request(self, paths: Seq<Seq<char>>) -> Result<
        Seq<Seq<u8>>,
        HTSEngineError,
    > {
        if !all_representable(paths) {
            Err(HTSEngineError::CStringError)
        } else if !self.accepts_load() {
            Err(HTSEngineError::LoadError)
        } else {
            Ok(c_strings(paths))
        }
    }

    /// What [`HTSEngine::loaded`] returns when the engine reported `status`
    /// and the model declares the label format `format`.
    pub open spec fn load_verdict(self, status: i32, format: Seq<u8>) -> Result<
        (),
        HTSEngineError,
    > {
        if !self.accepts_load() || status != STATUS_OK {
            Err(HTSEngineError::LoadError)
        } else if format != required_format() {
            Err(HTSEngineError::ModelTypeError)
        } else {
            Ok(())
        }
    }

    /// The state after [`HTSEngine::loaded`].
    ///
    /// A load that succeeds replaces whatever was held. One that fails
    /// leaves nothing held, whatever was held before.
    pub open spec fn after_load(self, status: i32, format: Seq<u8>, streams: usize) -> State {
        if !self.accepts_load() {
            self
        } else if self.load_verdict(status, format) is Ok {
            State::Loaded { streams }
        } else {
            State::Uninitialized
        }
    }

    /// What [`HTSEngine::synthesize`] returns for the labels `labels`.
    pub open spec fn synthesis_request(self, labels: Seq<Seq<char>>) -> Result<
        Seq<Seq<u8>>,
        HTSEngineError,
    > {
        if !all_representable(labels) {
            Err(HTSEngineError::CStringError)
        } else if !(self is Loaded) {
            Err(HTSEngineError::SynthesisError)
        } else {
            Ok(c_strings(labels))
        }
    }

    /// The state after [`HTSEngine::synthesize`].
    pub open spec fn after_synthesis_request(self, labels: Seq<Seq<char>>) -> State {
        if self.synthesis_request(labels) is Ok {
            State::Synthesizing { streams: self.stream_count() }
        } else {
            self
        }
    }

    /// What [`HTSEngine::synthesized`] returns when the engine reported
    /// `status`.
    pub open spec fn synthesis_verdict(self, status: i32) -> Result<(), HTSEngineError> {
        if self is Synthesizing && status == STATUS_OK {
            Ok(())
        } else {
            Err(HTSEngineError::SynthesisError)
        }
    }

    /// The state after [`HTSEngine::synthesized`]: the model stays, and the
    /// instance is ready for the next utterance.
    pub open spec fn after_synthesis(self) -> State {
        if self is Synthesizing {
            State::Loaded { streams: self.stream_count() }
        } else {
            self
        }
    }

    /// What [`HTSEngine::check_stream`] returns for `index`.
    pub open spec fn stream_check(self, index: usize) -> Result<(), StreamIndexError> {
        if index < self.stream_count() {
            Ok(())
        } else {
            Err(StreamIndexError { index, streams: self.stream_count() })
        }
    }

    /// True when [`HTSEngine::clear`] in this state has the engine release
    /// its resources.
    pub open spec fn releases(self) -> bool {
        !(self is Cleared)
    }
}

/// One engine instance, as far as this library keeps track of it.
#[derive(Debug)]
pub struct HTSEngine {
    state: State,
}

impl View for HTSEngine {
    type V = State;

    closed spec fn view(&self) -> State {
        self.state
    }
}

/// Compares two byte strings.
fn same_bytes(left: &[u8], right: &[u8]) -> (same: bool)
    ensures
        same == (left@ == right@),
{
    if left.len() != right.len() {
        return false;
    }
    let mut at: usize = 0;
    while at < left.len()
        invariant
            left@.len() == right@.len(),
            at <= left@.len(),
            forall|j: int| 0 <= j < at ==> left@[j] == right@[j],
        decreases left@.len() - at,
    {
        if left[at] != right[at] {
            return false;
        }
        at += 1;
    }
    assert(left@ =~= right@);
    true
}

impl HTSEngine {
    /// A fresh instance: alive, and holding no model.
    pub fn new() -> (engine: HTSEngine)
        ensures
            engine@ == State::Uninitialized,
    {
        HTSEngine { state: State::Uninitialized }
    }

    /// Where the instance stands.
    pub fn state(&self) -> (state: State)
        ensures
            state == self@,
    {
        self.state
    }

    /// Whether the instance holds a model.
    pub fn is_loaded(&self) -> (loaded: bool)
        ensures
            loaded == self@.holds_model(),
    {
        match self.state {
            State::Loaded { .. } => true,
            State::Synthesizing { .. } => true,
            _ => false,
        }
    }

    /// The number of streams of the model held; zero when none is held.
    pub fn stream_count(&self) -> (streams: usize)
        ensures
            streams == self@.stream_count(),
    {
        match self.state {
            State::Loaded { streams } => streams,
            State::Synthesizing { streams } => streams,
            _ => 0,
        }
    }

    /// Whether a model may be loaded in this state.
    ///
    /// A load from buffers in memory has no path to encode: it is opened by
    /// asking this, and closed by [`HTSEngine::loaded`].
    pub fn accepts_load(&self) -> (accepted: bool)
        ensures
            accepted == self@.accepts_load(),
    {
        match self.state {
            State::Uninitialized => true,
            State::Loaded { .. } => true,
            _ => false,
        }
    }

    /// Opens a load of the model files at `model_paths`.
    ///
    /// Returns the paths as the engine takes them, each encoded and
    /// terminated, when the engine is to be called. Fails with
    /// [`HTSEngineError::CStringError`] when a path cannot be encoded, else
    /// with [`HTSEngineError::LoadError`] when the instance takes no model
    /// in its state. The state changes only in [`HTSEngine::loaded`].
    pub fn load(&self, model_paths: Vec<String>) -> (request: Result<
        Vec<Vec<u8>>,
        HTSEngineError,
    >)
        ensures
            match request {
                Ok(paths) => self@.load_request(model_paths.deep_view()) == Ok::<
                    Seq<Seq<u8>>,
                    HTSEngineError,
                >(paths.deep_view()),
                Err(error) => self@.load_request(model_paths.deep_view()) == Err::<
                    Seq<Seq<u8>>,
                    HTSEngineError,
                >(error),
            },
    {
        let paths = to_c_strings(&model_paths)?;
        if self.accepts_load() {
            Ok(paths)
        } else {
            Err(HTSEngineError::LoadError)
        }
    }

    /// Closes a load: the engine reported `status`, and the model it read
    /// declares the label format `format` and has `streams` streams.
    ///
    /// Succeeds exactly when the instance takes a model in its state, the
    /// engine reported success and the format is [`REQUIRED_FORMAT`]. The
    /// instance then holds the model. After a failure it holds none, and
    /// the engine is to drop whatever it read: with
    /// [`HTSEngineError::LoadError`] it read nothing it could use, with
    /// [`HTSEngineError::ModelTypeError`] a model for other labels.
    pub fn loaded(&mut self, status: i32, format: &[u8], streams: usize) -> (verdict: Result<
        (),
        HTSEngineError,
    >)
        ensures
            verdict == old(self)@.load_verdict(status, format@),
            final(self)@ == old(self)@.after_load(status, format@, streams),
    {
        if !self.accepts_load() {
            return Err(HTSEngineError::LoadError);
        }
        if !succeeded(status) {
            self.state = State::Uninitialized;
            return Err(HTSEngineError::LoadError);
        }
        if !same_bytes(format, REQUIRED_FORMAT.as_bytes()) {
            self.state = State::Uninitialized;
            return Err(HTSEngineError::ModelTypeError);
        }
        self.state = State::Loaded { streams };
        Ok(())
    }

    /// Opens the synthesis of one utterance from `fullcontext_labels`.
    ///
    /// Returns the labels as the engine takes them, each encoded and
    /// terminated, when the engine is to be called; the instance is then at
    /// work until [`HTSEngine::synthesized`]. Fails with
    /// [`HTSEngineError::CStringError`] when a label cannot be encoded, else
    /// with [`HTSEngineError::SynthesisError`] when the instance is not
    /// loaded and at rest. A failure leaves the state as it was.
    pub fn synthesize(&mut self, fullcontext_labels: Vec<String>) -> (request: Result<
        Vec<Vec<u8>>,
        HTSEngineError,
    >)
        ensures
            match request {
                Ok(labels) => old(self)@.synthesis_request(fullcontext_labels.deep_view()) == Ok::<
                    Seq<Seq<u8>>,
                    HTSEngineError,
                >(labels.deep_view()),
                Err(error) => old(self)@.synthesis_request(fullcontext_labels.deep_view()) == Err::<
                    Seq<Seq<u8>>,
                    HTSEngineError,
                >(error),
            },
            final(self)@ == old(self)@.after_synthesis_request(fullcontext_labels.deep_view()),
    {
        let labels = to_c_strings(&fullcontext_labels)?;
        match self.state {
            State::Loaded { streams } => {
                self.state = State::Synthesizing { streams };
                Ok(labels)
            },
            _ => Err(HTSEngineError::SynthesisError),
        }
    }

    /// Closes a synthesis: the engine reported `status`.
    ///
    /// Succeeds exactly when a synthesis was open and the engine reported
    /// success; the caller then owns the samples the engine generated.
    /// Either way the instance keeps its model and is at rest again.
    pub fn synthesized(&mut self, status: i32) -> (verdict: Result<(), HTSEngineError>)
        ensures
            verdict == old(self)@.synthesis_verdict(status),
            final(self)@ == old(self)@.after_synthesis(),
    {
        match self.state {
            State::Synthesizing { streams } => {
                self.state = State::Loaded { streams };
                if succeeded(status) {
                    Ok(())
                } else {
                    Err(HTSEngineError::SynthesisError)
                }
            },
            _ => Err(HTSEngineError::SynthesisError),
        }
    }

    /// Checks a stream index before a per-stream setting is read or
    /// written.
    ///
    /// Succeeds exactly when `index` is below the number of streams of the
    /// model held. With no model held every index is refused.
    pub fn check_stream(&self, index: usize) -> (checked: Result<(), StreamIndexError>)
        ensures
            checked == self@.stream_check(index),
    {
        let streams = self.stream_count();
        if index < streams {
            Ok(())
        } else {
            Err(StreamIndexError { index, streams })
        }
    }

    /// Tears the instance down, from any state.
    ///
    /// Returns whether the engine is to release its resources now: true the
    /// first time, false ever after.
    pub fn clear(&mut self) -> (release: bool)
        ensures
            release == old(self)@.releases(),
            final(self)@ == State::Cleared,
    {
        let release = match self.state {
            State::Cleared => false,
            _ => true,
        };
        self.state = State::Cleared;
        release
    }
}

/// The bytes of the required label format are the ASCII codes of
/// `HTS_TTS_JPN`.
pub proof fn lemma_required_format_bytes()
    ensures
        required_format() == seq![72u8, 84u8, 83u8, 95u8, 84u8, 84u8, 83u8, 95u8, 74u8, 80u8, 78u8],
{
    reveal_strlit("HTS_TTS_JPN");
    is_ascii_chars_encode_utf8("HTS_TTS_JPN"@);
    assert(required_format() =~= seq![
        72u8,
        84u8,
        83u8,
        95u8,
        84u8,
        84u8,
        83u8,
        95u8,
        74u8,
        80u8,
        78u8,
    ]);
}

/// An instance that is not loaded and at rest synthesizes nothing: labels
/// that can be encoded are refused with `SynthesisError`, the engine is not
/// called, and the state stays as it was.
pub proof fn lemma_synthesis_needs_model(state: State, labels: Seq<Seq<char>>)
    requires
        !(state is Loaded),
        all_representable(labels),
    ensures
        state.synthesis_request(labels) == Err::<Seq<Seq<u8>>, HTSEngineError>(
            HTSEngineError::SynthesisError,
        ),
        state.after_synthesis_request(labels) == state,
{
}

/// A label that holds U+0000 stops a synthesis before it starts: in every
/// state the request fails with `CStringError`, the engine is not called,
/// and the state stays as it was.
pub proof fn lemma_terminator_stops_synthesis(state: State, labels: Seq<Seq<char>>, at: int)
    requires
        0 <= at < labels.len(),
        labels[at].contains('\0'),
    ensures
        state.synthesis_request(labels) == Err::<Seq<Seq<u8>>, HTSEngineError>(
            HTSEngineError::CStringError,
        ),
        state.after_synthesis_request(labels) == state,
{
    lemma_representable_iff_no_nul_char(labels[at]);
}

/// A path that holds U+0000 stops a load before it starts, in every state.
pub proof fn lemma_terminator_stops_load(state: State, paths: Seq<Seq<char>>, at: int)
    requires
        0 <= at < paths.len(),
        paths[at].contains('\0'),
    ensures
        state.load_request(paths) == Err::<Seq<Seq<u8>>, HTSEngineError>(
            HTSEngineError::CStringError,
        ),
{
    lemma_representable_iff_no_nul_char(paths[at]);
}

/// A load is all or nothing: afterwards the instance holds the model just
/// read, exactly when the load succeeded, and no model otherwise.
pub proof fn lemma_load_is_all_or_nothing(
    state: State,
    status: i32,
    format: Seq<u8>,
    streams: usize,
)
    requires
        state.accepts_load(),
    ensures
        state.load_verdict(status, format) is Ok ==> state.after_load(status, format, streams)
            == (State::Loaded { streams }),
        state.load_verdict(status, format) is Err ==> state.after_load(status, format, streams)
            == State::Uninitialized,
        state.load_verdict(status, format) is Ok <==> status == STATUS_OK && format
            == required_format(),
{
}

/// Model data that the engine rejects gives `LoadError` and leaves the
/// instance without a model; a later load of data that the engine reads, in
/// the required format, still succeeds.
pub proof fn lemma_rejected_load_can_be_retried(
    state: State,
    status: i32,
    format: Seq<u8>,
    streams: usize,
    retry_streams: usize,
)
    requires
        state.accepts_load(),
        status != STATUS_OK,
    ensures
        state.load_verdict(status, format) == Err::<(), HTSEngineError>(HTSEngineError::LoadError),
        !state.after_load(status, format, streams).holds_model(),
        state.after_load(status, format, streams).load_verdict(STATUS_OK, required_format())
            == Ok::<(), HTSEngineError>(()),
        state.after_load(status, format, streams).after_load(
            STATUS_OK,
            required_format(),
            retry_streams,
        ) == (State::Loaded { streams: retry_streams }),
{
}

/// A model that the engine reads but that declares another label format
/// gives `ModelTypeError` and leaves the instance without a model.
pub proof fn lemma_foreign_model_is_not_kept(state: State, format: Seq<u8>, streams: usize)
    requires
        state.accepts_load(),
        format != required_format(),
    ensures
        state.load_verdict(STATUS_OK, format) == Err::<(), HTSEngineError>(
            HTSEngineError::ModelTypeError,
        ),
        !state.after_load(STATUS_OK, format, streams).holds_model(),
        state.after_load(STATUS_OK, format, streams).accepts_load(),
{
}

/// A synthesis, however the engine ends it, leaves a loaded instance as it
/// was: the same labels then make the same request again.
pub proof fn lemma_synthesis_restores_state(state: State, labels: Seq<Seq<char>>, status: i32)
    requires
        state is Loaded,
        all_representable(labels),
    ensures
        state.synthesis_request(labels) == Ok::<Seq<Seq<u8>>, HTSEngineError>(c_strings(labels)),
        state.after_synthesis_request(labels).synthesis_verdict(status) is Ok <==> status
            == STATUS_OK,
        state.after_synthesis_request(labels).after_synthesis() == state,
{
}

/// While the engine is at work on an utterance the instance opens no
/// second one and takes no other model.
pub proof fn lemma_one_synthesis_at_a_time(
    state: State,
    labels: Seq<Seq<char>>,
    paths: Seq<Seq<char>>,
)
    requires
        state is Synthesizing,
    ensures
        state.synthesis_request(labels) is Err,
        state.after_synthesis_request(labels) == state,
        state.load_request(paths) is Err,
{
}

/// A stream index at or past the number of streams is refused, and the
/// refusal names the index and the number; with no model held, every index
/// is refused.
pub proof fn lemma_stream_index_is_bounded(state: State, index: usize)
    ensures
        state.stream_check(index) is Ok <==> state.holds_model() && index < state.stream_count(),
        state.stream_check(index) is Err ==> state.stream_check(index) == Err::<
            (),
            StreamIndexError,
        >(StreamIndexError { index, streams: state.stream_count() }),
        !state.holds_model() ==> state.stream_count() == 0,
{
}

/// Teardown is final: once cleared, an instance refuses every load and
/// every synthesis, has no stream, stays cleared whatever is asked of it,
/// and has nothing left to release.
pub proof fn lemma_cleared_is_final(
    texts: Seq<Seq<char>>,
    status: i32,
    format: Seq<u8>,
    streams: usize,
    index: usize,
)
    ensures
        State::Cleared.load_request(texts) is Err,
        State::Cleared.load_verdict(status, format) is Err,
        State::Cleared.after_load(status, format, streams) == State::Cleared,
        State::Cleared.synthesis_request(texts) is Err,
        State::Cleared.after_synthesis_request(texts) == State::Cleared,
        State::Cleared.synthesis_verdict(status) is Err,
        State::Cleared.after_synthesis() == State::Cleared,
        State::Cleared.stream_check(index) is Err,
        !State::Cleared.releases(),
{
}

} // verus!
