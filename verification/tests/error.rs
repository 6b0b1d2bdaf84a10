use htsengine::{HTSEngineError, StreamIndexError};

#[test]
fn load_error_message() {
    assert_eq!(HTSEngineError::LoadError.message(), "model loading failed");
}

#[test]
fn model_type_error_message() {
    assert_eq!(HTSEngineError::ModelTypeError.message(), "model type is not HTS_TTS_JPN");
}

#[test]
fn c_string_error_message() {
    assert_eq!(HTSEngineError::CStringError.message(), "the string contains \\0");
    assert_eq!(HTSEngineError::CStringError.message().len(), 22);
}

#[test]
fn synthesis_error_message() {
    assert_eq!(HTSEngineError::SynthesisError.message(), "synthesis failed");
}

#[test]
fn error_kinds_differ() {
    let kinds = [
        HTSEngineError::LoadError,
        HTSEngineError::ModelTypeError,
        HTSEngineError::CStringError,
        HTSEngineError::SynthesisError,
    ];
    for (i, left) in kinds.iter().enumerate() {
        for (j, right) in kinds.iter().enumerate() {
            assert_eq!(left == right, i == j);
        }
    }
}

#[test]
fn stream_index_error_message() {
    let error = StreamIndexError { index: 5, streams: 2 };
    assert_eq!(error.message(), "stream index out of range");
    assert_eq!(error.index, 5);
    assert_eq!(error.streams, 2);
}
