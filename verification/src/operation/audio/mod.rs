//! Speech recognition and synthesis.

pub mod asr;
pub mod tts;
pub mod ws;

use crate::error::{DashScopeError, DashScopeErrorView};
use crate::operation::audio::tts::param::TextToSpeechParam;
use vstd::prelude::*;

verus! {

/// The path of speech synthesis.
pub const AUDIO_PATH: &'static str = "/services/aigc/multimodal-generation/generation";

/// What is said to a request for a stream that arrives at the call for one answer.
pub open spec fn use_stream_text() -> Seq<char> {
    "When stream is true, use Audio::call_stream"@
}

/// What is said to a request for one answer that arrives at the call for a stream.
pub open spec fn use_call_text() -> Seq<char> {
    "When stream is false, use Audio::call"@
}

/// Checks a request for speech in one piece: it must not ask for a stream.
pub fn check_tts(request: &TextToSpeechParam) -> (r: Result<(), DashScopeError>)
    ensures
        match r {
            Ok(_) => request.stream != Some(true),
            Err(e) => request.stream == Some(true) && e@ == DashScopeErrorView::InvalidArgument(
                use_stream_text(),
            ),
        },
{
    match request.stream {
        Some(true) => Err(
            DashScopeError::InvalidArgument("When stream is true, use Audio::call_stream".to_owned()),
        ),
        _ => Ok(()),
    }
}

/// Checks a request for speech as a stream: it must not ask for one piece.
pub fn check_tts_stream(request: &TextToSpeechParam) -> (r: Result<(), DashScopeError>)
    ensures
        match r {
            Ok(_) => request.stream != Some(false),
            Err(e) => request.stream == Some(false) && e@ == DashScopeErrorView::InvalidArgument(
                use_call_text(),
            ),
        },
{
    match request.stream {
        Some(false) => Err(
            DashScopeError::InvalidArgument("When stream is false, use Audio::call".to_owned()),
        ),
        _ => Ok(()),
    }
}

} // verus!
