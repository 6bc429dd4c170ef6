//! Multi-modal generation.

pub mod input;
pub mod output;

use crate::error::{DashScopeError, DashScopeErrorView};
use crate::operation::common::{Parameters, ParametersBuilder};
use crate::operation::multimodal_generation::input::MultiModalGenerationInput;
use vstd::prelude::*;

verus! {

/// The path of the service.
pub const MULTIMODAL_GENERATION_PATH: &'static str = "/multimodal-generation/generation";

/// What is said to a request for increments that arrives at the call for one answer.
pub open spec fn use_stream_text() -> Seq<char> {
    "When stream is true, use MultiModalGeneration::call_stream"@
}

/// What is said to a request that refuses increments and arrives at the call for a stream.
pub open spec fn use_call_text() -> Seq<char> {
    "When stream is false, use MultiModalGeneration::call"@
}

/// Whether a request says, one way or the other, if it wants increments.
pub open spec fn wants_increments(request: MultiModalGenerationInput) -> Option<bool> {
    match request.parameters {
        Some(p) => p.incremental_output,
        None => None,
    }
}

/// What a request says about increments.
fn increments(request: &MultiModalGenerationInput) -> (r: Option<bool>)
    ensures
        r == wants_increments(*request),
{
    match &request.parameters {
        Some(p) => p.incremental_output,
        None => None,
    }
}

/// Checks a request that is to be answered in one piece: it must not ask
/// for increments.
pub fn check_call(request: &MultiModalGenerationInput) -> (r: Result<(), DashScopeError>)
    ensures
        match r {
            Ok(_) => wants_increments(*request) != Some(true),
            Err(e) => wants_increments(*request) == Some(true) && e@
                == DashScopeErrorView::InvalidArgument(use_stream_text()),
        },
{
    match increments(request) {
        Some(true) => Err(
            DashScopeError::InvalidArgument(
                "When stream is true, use MultiModalGeneration::call_stream".to_owned(),
            ),
        ),
        _ => Ok(()),
    }
}

/// The parameters of a request that is answered as a stream: increments,
/// and nothing else.
pub open spec fn stream_parameters(p: Parameters) -> bool {
    &&& p.incremental_output == Some(true)
    &&& p.result_format is None
    &&& p.translation_options is None
    &&& p.tools is None
    &&& p.parallel_tool_calls is None
    &&& p.thinking_budget is None
    &&& p.enable_search is None
    &&& p.search_options is None
    &&& p.enable_thinking is None
    &&& p.response_format is None
    &&& p.repetition_penalty is None
    &&& p.presence_penalty is None
    &&& p.vl_high_resolution_images is None
    &&& p.vl_enable_image_hw_output is None
}

/// Checks a request that is to be answered as a stream, and makes it ask
/// for increments: it must not refuse them. The parameters of the request
/// are then replaced by ones that ask for increments and nothing else.
pub fn check_call_stream(request: &mut MultiModalGenerationInput) -> (r: Result<(), DashScopeError>)
    ensures
        match r {
            Ok(_) => wants_increments(*old(request)) != Some(false) && final(request).model == old(
                request,
            ).model && final(request).input == old(request).input && final(request).parameters
                is Some && stream_parameters(final(request).parameters->0),
            Err(e) => wants_increments(*old(request)) == Some(false) && e@
                == DashScopeErrorView::InvalidArgument(use_call_text()) && *final(request) == *old(
                request,
            ),
        },
{
    match increments(request) {
        Some(false) => {
            return Err(
                DashScopeError::InvalidArgument(
                    "When stream is false, use MultiModalGeneration::call".to_owned(),
                ),
            );
        },
        _ => {},
    }
    match ParametersBuilder::default().incremental_output(true).build() {
        Ok(p) => {
            request.parameters = Some(p);
            Ok(())
        },
        Err(_) => {
            proof {
                assert(false);
            }
            Ok(())
        },
    }
}

} // verus!
