//! The errors of the client, as plain values.

use crate::json::{JsonValue, value_model};
use crate::wire::{read_opt_text, read_req_text, text_view};
use vstd::prelude::*;
use vstd::string::*;

verus! {

/// An error object sent by the service in place of a response.
#[derive(Debug, Clone, PartialEq, Eq)]
pub struct ApiError {
    pub message: String,
    pub request_id: Option<String>,
    pub code: Option<String>,
}

/// The content of an [`ApiError`].
pub struct ApiErrorView {
    pub message: Seq<char>,
    pub request_id: Option<Seq<char>>,
    pub code: Option<Seq<char>>,
}

impl View for ApiError {
    type V = ApiErrorView;

    open spec fn view(&self) -> ApiErrorView {
        ApiErrorView {
            message: self.message@,
            request_id: text_view(self.request_id),
            code: text_view(self.code),
        }
    }
}

impl ApiErrorView {
    /// The line shown for this error: the code and the request id, each with
    /// its label, those that are present, separated by one space.
    pub open spec fn text(self) -> Seq<char> {
        let code = match self.code {
            Some(c) => "code: "@ + c,
            None => Seq::empty(),
        };
        let request = match self.request_id {
            Some(r) => "request_id: "@ + r,
            None => Seq::empty(),
        };
        if self.code is Some && self.request_id is Some {
            code + " "@ + request
        } else {
            code + request
        }
    }
}

impl ApiErrorView {
    /// The error object that a wire value holds, if it has the shape of one:
    /// a message, and perhaps a request id and a code.
    pub open spec fn from_json(j: JsonValue) -> Option<ApiErrorView> {
        let message = j.req_text("message"@);
        let request_id = j.opt_text("request_id"@);
        let code = j.opt_text("code"@);
        if message is Some && request_id is Some && code is Some {
            Some(ApiErrorView { message: message->0, request_id: request_id->0, code: code->0 })
        } else {
            None
        }
    }
}

impl ApiError {
    /// Reads an error object out of a wire value.
    pub fn from_value(v: &serde_json::Value) -> (r: Option<ApiError>)
        ensures
            match r {
                Some(e) => ApiErrorView::from_json(value_model(*v)) == Some(e@),
                None => ApiErrorView::from_json(value_model(*v)) is None,
            },
    {
        let message = match read_req_text(v, "message") {
            Some(x) => x,
            None => return None,
        };
        let request_id = match read_opt_text(v, "request_id") {
            Ok(x) => x,
            Err(_) => return None,
        };
        let code = match read_opt_text(v, "code") {
            Ok(x) => x,
            Err(_) => return None,
        };
        Some(ApiError { message, request_id, code })
    }

    /// The line shown for this error.
    pub fn to_string(&self) -> (r: String)
        ensures
            r@ == self@.text(),
    {
        let mut out = String::new();
        match &self.code {
            Some(c) => {
                out.append("code: ");
                out.append(c.as_str());
            },
            None => {},
        }
        if self.code.is_some() && self.request_id.is_some() {
            out.append(" ");
        }
        match &self.request_id {
            Some(r) => {
                out.append("request_id: ");
                out.append(r.as_str());
            },
            None => {},
        }
        proof {
            assert(out@ =~= self@.text());
        }
        out
    }
}

/// Everything that can go wrong in the client.
#[derive(Debug, Clone, PartialEq, Eq)]
pub enum DashScopeError {
    /// The HTTP exchange failed; the text is the transport's message.
    Reqwest(String),
    /// A body or frame was not the JSON that was expected.
    JSONDeserialize { source: String, raw_response: String },
    /// The service answered with an error object.
    ApiError(ApiError),
    /// A request was refused before it was sent.
    InvalidArgument(String),
    /// A server-sent event stream broke.
    StreamError(String),
    /// An inbound frame named an event kind that the protocol does not have.
    UnknownEventType { event_type: String },
    /// An outbound command could not be written as JSON.
    SerializationError(String),
    /// The socket failed while connecting, reading or writing.
    WebSocketError(String),
    /// A file could not be uploaded.
    UploadError(String),
    /// A task did not finish within the attempts allowed.
    TimeoutError(String),
    /// A content element had none of the known shapes.
    ElementError(String),
}

/// The content of a [`DashScopeError`].
pub enum DashScopeErrorView {
    Reqwest(Seq<char>),
    JSONDeserialize { source: Seq<char>, raw_response: Seq<char> },
    ApiError(ApiErrorView),
    InvalidArgument(Seq<char>),
    StreamError(Seq<char>),
    UnknownEventType { event_type: Seq<char> },
    SerializationError(Seq<char>),
    WebSocketError(Seq<char>),
    UploadError(Seq<char>),
    TimeoutError(Seq<char>),
    ElementError(Seq<char>),
}

impl View for DashScopeError {
    type V = DashScopeErrorView;

    open spec fn view(&self) -> DashScopeErrorView {
        match self {
            DashScopeError::Reqwest(s) => DashScopeErrorView::Reqwest(s@),
            DashScopeError::JSONDeserialize { source, raw_response } => {
                DashScopeErrorView::JSONDeserialize { source: source@, raw_response: raw_response@ }
            },
            DashScopeError::ApiError(e) => DashScopeErrorView::ApiError(e@),
            DashScopeError::InvalidArgument(s) => DashScopeErrorView::InvalidArgument(s@),
            DashScopeError::StreamError(s) => DashScopeErrorView::StreamError(s@),
            DashScopeError::UnknownEventType { event_type } => {
                DashScopeErrorView::UnknownEventType { event_type: event_type@ }
            },
            DashScopeError::SerializationError(s) => DashScopeErrorView::SerializationError(s@),
            DashScopeError::WebSocketError(s) => DashScopeErrorView::WebSocketError(s@),
            DashScopeError::UploadError(s) => DashScopeErrorView::UploadError(s@),
            DashScopeError::TimeoutError(s) => DashScopeErrorView::TimeoutError(s@),
            DashScopeError::ElementError(s) => DashScopeErrorView::ElementError(s@),
        }
    }
}

impl DashScopeErrorView {
    /// The message shown for this error: a fixed label, then the detail.
    pub open spec fn text(self) -> Seq<char> {
        match self {
            DashScopeErrorView::Reqwest(s) => "http error: "@ + s,
            DashScopeErrorView::JSONDeserialize { source, raw_response } => {
                "failed to deserialize api response: "@ + source
            },
            DashScopeErrorView::ApiError(e) => e.text(),
            DashScopeErrorView::InvalidArgument(s) => "invalid argument:"@ + s,
            DashScopeErrorView::StreamError(s) => "stream error:"@ + s,
            DashScopeErrorView::UnknownEventType { event_type } => {
                "unknown event type: "@ + event_type
            },
            DashScopeErrorView::SerializationError(s) => "serialization error: "@ + s,
            DashScopeErrorView::WebSocketError(s) => "websocket error: "@ + s,
            DashScopeErrorView::UploadError(s) => "upload error: "@ + s,
            DashScopeErrorView::TimeoutError(s) => "timeout error: "@ + s,
            DashScopeErrorView::ElementError(s) => "element error: "@ + s,
        }
    }
}

/// A label followed by a detail.
fn labelled(label: &str, detail: &str) -> (r: String)
    ensures
        r@ == label@ + detail@,
{
    let mut out = String::new();
    out.append(label);
    out.append(detail);
    proof {
        assert(out@ =~= label@ + detail@);
    }
    out
}

impl DashScopeError {
    /// The message shown for this error.
    pub fn to_string(&self) -> (r: String)
        ensures
            r@ == self@.text(),
    {
        match self {
            DashScopeError::Reqwest(s) => labelled("http error: ", s.as_str()),
            DashScopeError::JSONDeserialize { source, raw_response } => {
                labelled("failed to deserialize api response: ", source.as_str())
            },
            DashScopeError::ApiError(e) => e.to_string(),
            DashScopeError::InvalidArgument(s) => labelled("invalid argument:", s.as_str()),
            DashScopeError::StreamError(s) => labelled("stream error:", s.as_str()),
            DashScopeError::UnknownEventType { event_type } => {
                labelled("unknown event type: ", event_type.as_str())
            },
            DashScopeError::SerializationError(s) => labelled("serialization error: ", s.as_str()),
            DashScopeError::WebSocketError(s) => labelled("websocket error: ", s.as_str()),
            DashScopeError::UploadError(s) => labelled("upload error: ", s.as_str()),
            DashScopeError::TimeoutError(s) => labelled("timeout error: ", s.as_str()),
            DashScopeError::ElementError(s) => labelled("element error: ", s.as_str()),
        }
    }
}

/// Why a builder could not build.
#[derive(Debug, Clone, Copy, PartialEq, Eq)]
pub enum BuilderError {
    /// A member that must be set was not; the text is its name.
    UninitializedField(&'static str),
}

impl BuilderError {
    /// The name of the member that was not set.
    pub open spec fn field(self) -> Seq<char> {
        match self {
            BuilderError::UninitializedField(name) => name@,
        }
    }

    /// The message shown for this error.
    pub fn to_string(&self) -> (r: String)
        ensures
            r@ == "`"@ + self.field() + "` must be initialized"@,
    {
        match self {
            BuilderError::UninitializedField(name) => {
                let mut out = String::new();
                out.append("`");
                out.append(name);
                out.append("` must be initialized");
                proof {
                    assert(out@ =~= "`"@ + self.field() + "` must be initialized"@);
                }
                out
            },
        }
    }
}

} // verus!
