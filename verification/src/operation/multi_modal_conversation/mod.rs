//! Conversations in text, images, audio and video.

pub mod output;
pub mod param;

use crate::error::{DashScopeError, DashScopeErrorView};
use crate::operation::multi_modal_conversation::param::MultiModalConversationParam;
use crate::operation::request::RequestTrait;
use crate::operation::validate::{first_refusal, rules_of, validate_request, ModelValidator};
use vstd::prelude::*;

verus! {

/// The path of the service.
pub const MULTIMODAL_CONVERSATION_PATH: &'static str =
    "/services/aigc/multimodal-generation/generation";

/// What is said to a request for a stream that arrives at the call for one answer.
pub open spec fn use_stream_text() -> Seq<char> {
    "When stream is true, use MultiModalConversation::call_stream"@
}

/// What is said to a request for one answer that arrives at the call for a stream.
pub open spec fn use_call_text() -> Seq<char> {
    "When stream is false, use MultiModalConversation::call"@
}

/// The error that the rules of the model raise against a request, if any.
pub open spec fn refused(request: MultiModalConversationParam) -> Option<DashScopeErrorView> {
    match first_refusal(rules_of(request.model_text()), request.shared_parameters()) {
        Some(rule) => Some(DashScopeErrorView::InvalidArgument(rule.refusal())),
        None => None,
    }
}

/// Checks a request that is to be answered in one piece: it must not ask
/// for a stream, and the rules of its model must have nothing against it.
/// What follows is the upload of its files, one by one.
pub fn check_call(request: &MultiModalConversationParam) -> (r: Result<(), DashScopeError>)
    ensures
        match r {
            Ok(_) => request.stream != Some(true) && refused(*request) is None,
            Err(e) => if request.stream == Some(true) {
                e@ == DashScopeErrorView::InvalidArgument(use_stream_text())
            } else {
                refused(*request) == Some(e@)
            },
        },
{
    match request.stream {
        Some(true) => {
            return Err(
                DashScopeError::InvalidArgument(
                    "When stream is true, use MultiModalConversation::call_stream".to_owned(),
                ),
            );
        },
        _ => {},
    }
    validate_request(request)
}

/// Checks a request that is to be answered as a stream, and makes it ask
/// for one. Nothing but the wish for a stream is changed.
pub fn check_call_stream(request: &mut MultiModalConversationParam) -> (r: Result<
    (),
    DashScopeError,
>)
    ensures
        match r {
            Ok(_) => old(request).stream != Some(false) && refused(*old(request)) is None,
            Err(e) => if old(request).stream == Some(false) {
                e@ == DashScopeErrorView::InvalidArgument(use_call_text())
            } else {
                refused(*old(request)) == Some(e@)
            },
        },
        old(request).stream == Some(false) ==> *final(request) == *old(request),
        old(request).stream != Some(false) ==> *final(request) == (MultiModalConversationParam {
            stream: Some(true),
            ..*old(request)
        }),
{
    match request.stream {
        Some(false) => {
            return Err(
                DashScopeError::InvalidArgument(
                    "When stream is false, use MultiModalConversation::call".to_owned(),
                ),
            );
        },
        _ => {},
    }
    request.stream = Some(true);
    validate_request(&*request)
}

} // verus!
