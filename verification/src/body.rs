//! The bodies of requests and answers as texts.

use crate::error::{DashScopeError, DashScopeErrorView};
use crate::json::{error_message, error_text, parsed};
use vstd::prelude::*;

verus! {

/// The message of the error for a document that has another shape than the
/// one expected.
pub open spec fn wrong_shape_text() -> Seq<char> {
    "document does not have the shape expected"@
}

/// The error for a body that cannot be read: the parser's message where the
/// text is no JSON document, else the message of the wrong shape; and the
/// text itself.
pub open spec fn unreadable(text: Seq<char>) -> DashScopeErrorView {
    DashScopeErrorView::JSONDeserialize {
        source: match parsed(text) {
            Err(message) => message,
            Ok(_) => wrong_shape_text(),
        },
        raw_response: text,
    }
}

/// The error for a text that is no JSON document.
pub fn not_json(e: &serde_json::Error, text: &str) -> (r: DashScopeError)
    requires
        parsed(text@) == Err::<crate::json::JsonValue, Seq<char>>(error_message(*e)),
    ensures
        r@ == unreadable(text@),
{
    DashScopeError::JSONDeserialize { source: error_text(e), raw_response: text.to_owned() }
}

/// The error for a document in another shape than the one expected.
pub fn wrong_shape(text: &str) -> (r: DashScopeError)
    requires
        parsed(text@) is Ok,
    ensures
        r@ == unreadable(text@),
{
    DashScopeError::JSONDeserialize {
        source: "document does not have the shape expected".to_owned(),
        raw_response: text.to_owned(),
    }
}

/// The error for a value that could not be written as text.
pub fn not_written(e: &serde_json::Error) -> (r: DashScopeError)
    ensures
        r@ == DashScopeErrorView::SerializationError(error_message(*e)),
{
    DashScopeError::SerializationError(error_text(e))
}

} // verus!
