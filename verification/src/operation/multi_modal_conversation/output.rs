//! The answer of a multi-modal conversation.

use crate::body::{not_json, unreadable, wrong_shape};
use crate::error::DashScopeError;
use crate::json::{
    JsonValue, models, parse_value, parsed, value_as_array, value_get, value_is_object, value_model,
};
use crate::operation::common::{Usage, UsageView};
use crate::wire::{read_member, read_opt_text, read_req_text, text_view};
use vstd::prelude::*;

verus! {

/// One piece of an answer.
#[derive(Debug, Clone, PartialEq, Eq)]
pub struct Content {
    pub text: Option<String>,
}

/// The content of a [`Content`].
pub struct ContentView {
    pub text: Option<Seq<char>>,
}

impl View for Content {
    type V = ContentView;

    open spec fn view(&self) -> ContentView {
        ContentView {
            text: text_view(self.text),
        }
    }
}

impl ContentView {
    /// The piece that a wire value holds, if it has the shape of one.
    pub open spec fn from_json(j: JsonValue) -> Option<ContentView> {
        let text = j.opt_text("text"@);
        if j is Object
            && text is Some {
            Some(
                ContentView {
                    text: text->0,
                },
            )
        } else {
            None
        }
    }

    /// The run that a wire array holds, if every item has the shape of a piece.
    pub open spec fn seq_from_json(j: JsonValue) -> Option<Seq<ContentView>> {
        match j {
            JsonValue::Array(items) => if forall|i: int|
                0 <= i < items.len() ==> (#[trigger] ContentView::from_json(items[i])) is Some {
                Some(Seq::new(items.len(), |i: int| ContentView::from_json(items[i])->0))
            } else {
                None
            },
            _ => None,
        }
    }

    /// The required member `key`, read as a run.
    pub open spec fn required_seq(j: JsonValue, key: Seq<char>) -> Option<Seq<ContentView>> {
        match j.field(key) {
            Some(c) => ContentView::seq_from_json(c),
            None => None,
        }
    }

    /// The optional member `key`, read as a run; the outer `None` is a mismatch.
    pub open spec fn optional_seq(j: JsonValue, key: Seq<char>) -> Option<Option<Seq<ContentView>>> {
        match j.member(key) {
            None => Some(None),
            Some(c) => match ContentView::seq_from_json(c) {
                Some(x) => Some(Some(x)),
                None => None,
            },
        }
    }
}

impl Content {
    /// The contents of a run of these.
    pub open spec fn seq_view(ts: Seq<Content>) -> Seq<ContentView> {
        Seq::new(ts.len(), |i: int| ts[i]@)
    }

    /// Reads a piece out of a wire value.
    pub fn from_value(v: &serde_json::Value) -> (r: Option<Content>)
        ensures
            match r {
                Some(t) => ContentView::from_json(value_model(*v)) == Some(t@),
                None => ContentView::from_json(value_model(*v)) is None,
            },
    {
        if !value_is_object(v) {
            return None;
        }
        let text = match read_opt_text(v, "text") {
            Ok(x) => x,
            Err(_) => return None,
        };
        Some(Content { text })
    }

    /// Reads a run out of a wire array.
    pub fn read_seq(v: &serde_json::Value) -> (r: Option<Vec<Content>>)
        ensures
            match r {
                Some(ts) => ContentView::seq_from_json(value_model(*v)) == Some(Content::seq_view(ts@)),
                None => ContentView::seq_from_json(value_model(*v)) is None,
            },
    {
        let items = match value_as_array(v) {
            Some(a) => a,
            None => return None,
        };
        let ghost docs = models(items@);
        let mut out: Vec<Content> = Vec::new();
        let mut i: usize = 0;
        while i < items.len()
            invariant
                i <= items.len(),
                out@.len() == i,
                docs == models(items@),
                value_model(*v) == JsonValue::Array(docs),
                forall|k: int|
                    0 <= k < i ==> ContentView::from_json(docs[k]) == Some(#[trigger] out@[k]@),
            decreases items.len() - i,
        {
            match Content::from_value(&items[i]) {
                Some(t) => {
                    out.push(t);
                },
                None => {
                    proof {
                        assert(ContentView::from_json(docs[i as int]) is None);
                    }
                    return None;
                },
            }
            i += 1;
        }
        proof {
            assert forall|k: int| 0 <= k < docs.len() implies (#[trigger] ContentView::from_json(
                docs[k],
            )) == Some(out@[k]@) by {
                let _ = out@[k]@;
            }
            assert(ContentView::seq_from_json(value_model(*v))->0 =~= Content::seq_view(out@));
        }
        Some(out)
    }

    /// Reads the required member `key` as a run.
    pub fn read_required_seq(v: &serde_json::Value, key: &str) -> (r: Option<Vec<Content>>)
        ensures
            match r {
                Some(ts) => ContentView::required_seq(value_model(*v), key@) == Some(
                    Content::seq_view(ts@),
                ),
                None => ContentView::required_seq(value_model(*v), key@) is None,
            },
    {
        match value_get(v, key) {
            Some(c) => Content::read_seq(c),
            None => None,
        }
    }

    /// Reads the optional member `key` as a run; `Err` is a mismatch.
    pub fn read_optional_seq(v: &serde_json::Value, key: &str) -> (r: Result<
        Option<Vec<Content>>,
        (),
    >)
        ensures
            match r {
                Ok(o) => ContentView::optional_seq(value_model(*v), key@) == Some(
                    match o {
                        Some(ts) => Some(Content::seq_view(ts@)),
                        None => None,
                    },
                ),
                Err(_) => ContentView::optional_seq(value_model(*v), key@) is None,
            },
    {
        match read_member(v, key) {
            None => Ok(None),
            Some(c) => match Content::read_seq(c) {
                Some(ts) => Ok(Some(ts)),
                None => Err(()),
            },
        }
    }
}

/// What the model has answered.
#[derive(Debug, Clone, PartialEq, Eq)]
pub struct Message {
    pub content: Vec<Content>,
    pub role: String,
}

/// The content of a [`Message`].
pub struct MessageView {
    pub content: Seq<ContentView>,
    pub role: Seq<char>,
}

impl View for Message {
    type V = MessageView;

    open spec fn view(&self) -> MessageView {
        MessageView {
            content: Content::seq_view(self.content@),
            role: self.role@,
        }
    }
}

impl MessageView {
    /// The message that a wire value holds, if it has the shape of one.
    pub open spec fn from_json(j: JsonValue) -> Option<MessageView> {
        let content = ContentView::required_seq(j, "content"@);
        let role = j.req_text("role"@);
        if j is Object
            && content is Some
            && role is Some {
            Some(
                MessageView {
                    content: content->0,
                    role: role->0,
                },
            )
        } else {
            None
        }
    }

    /// The required member `key`, read as a message.
    pub open spec fn required(j: JsonValue, key: Seq<char>) -> Option<MessageView> {
        match j.field(key) {
            Some(c) => MessageView::from_json(c),
            None => None,
        }
    }

    /// The optional member `key`, read as a message; the outer `None` is a mismatch.
    pub open spec fn optional(j: JsonValue, key: Seq<char>) -> Option<Option<MessageView>> {
        match j.member(key) {
            None => Some(None),
            Some(c) => match MessageView::from_json(c) {
                Some(x) => Some(Some(x)),
                None => None,
            },
        }
    }
}

impl Message {
    /// Reads a message out of a wire value.
    pub fn from_value(v: &serde_json::Value) -> (r: Option<Message>)
        ensures
            match r {
                Some(t) => MessageView::from_json(value_model(*v)) == Some(t@),
                None => MessageView::from_json(value_model(*v)) is None,
            },
    {
        if !value_is_object(v) {
            return None;
        }
        let content = match Content::read_required_seq(v, "content") {
            Some(x) => x,
            None => return None,
        };
        let role = match read_req_text(v, "role") {
            Some(x) => x,
            None => return None,
        };
        Some(Message { content, role })
    }

    /// Reads the required member `key` as a message.
    pub fn read_required(v: &serde_json::Value, key: &str) -> (r: Option<Message>)
        ensures
            match r {
                Some(t) => MessageView::required(value_model(*v), key@) == Some(t@),
                None => MessageView::required(value_model(*v), key@) is None,
            },
    {
        match value_get(v, key) {
            Some(c) => Message::from_value(c),
            None => None,
        }
    }

    /// Reads the optional member `key` as a message; `Err` is a mismatch.
    pub fn read_optional(v: &serde_json::Value, key: &str) -> (r: Result<Option<Message>, ()>)
        ensures
            match r {
                Ok(o) => MessageView::optional(value_model(*v), key@) == Some(
                    match o {
                        Some(t) => Some(t@),
                        None => None,
                    },
                ),
                Err(_) => MessageView::optional(value_model(*v), key@) is None,
            },
    {
        match read_member(v, key) {
            None => Ok(None),
            Some(c) => match Message::from_value(c) {
                Some(t) => Ok(Some(t)),
                None => Err(()),
            },
        }
    }
}

/// One answer of the model.
#[derive(Debug, Clone, PartialEq, Eq)]
pub struct Choices {
    pub finish_reason: Option<String>,
    pub message: Message,
}

/// The content of a [`Choices`].
pub struct ChoicesView {
    pub finish_reason: Option<Seq<char>>,
    pub message: MessageView,
}

impl View for Choices {
    type V = ChoicesView;

    open spec fn view(&self) -> ChoicesView {
        ChoicesView {
            finish_reason: text_view(self.finish_reason),
            message: self.message@,
        }
    }
}

impl ChoicesView {
    /// The choice that a wire value holds, if it has the shape of one.
    pub open spec fn from_json(j: JsonValue) -> Option<ChoicesView> {
        let finish_reason = j.opt_text("finish_reason"@);
        let message = MessageView::required(j, "message"@);
        if j is Object
            && finish_reason is Some
            && message is Some {
            Some(
                ChoicesView {
                    finish_reason: finish_reason->0,
                    message: message->0,
                },
            )
        } else {
            None
        }
    }

    /// The run that a wire array holds, if every item has the shape of a choice.
    pub open spec fn seq_from_json(j: JsonValue) -> Option<Seq<ChoicesView>> {
        match j {
            JsonValue::Array(items) => if forall|i: int|
                0 <= i < items.len() ==> (#[trigger] ChoicesView::from_json(items[i])) is Some {
                Some(Seq::new(items.len(), |i: int| ChoicesView::from_json(items[i])->0))
            } else {
                None
            },
            _ => None,
        }
    }

    /// The required member `key`, read as a run.
    pub open spec fn required_seq(j: JsonValue, key: Seq<char>) -> Option<Seq<ChoicesView>> {
        match j.field(key) {
            Some(c) => ChoicesView::seq_from_json(c),
            None => None,
        }
    }

    /// The optional member `key`, read as a run; the outer `None` is a mismatch.
    pub open spec fn optional_seq(j: JsonValue, key: Seq<char>) -> Option<Option<Seq<ChoicesView>>> {
        match j.member(key) {
            None => Some(None),
            Some(c) => match ChoicesView::seq_from_json(c) {
                Some(x) => Some(Some(x)),
                None => None,
            },
        }
    }
}

impl Choices {
    /// The contents of a run of these.
    pub open spec fn seq_view(ts: Seq<Choices>) -> Seq<ChoicesView> {
        Seq::new(ts.len(), |i: int| ts[i]@)
    }

    /// Reads a choice out of a wire value.
    pub fn from_value(v: &serde_json::Value) -> (r: Option<Choices>)
        ensures
            match r {
                Some(t) => ChoicesView::from_json(value_model(*v)) == Some(t@),
                None => ChoicesView::from_json(value_model(*v)) is None,
            },
    {
        if !value_is_object(v) {
            return None;
        }
        let finish_reason = match read_opt_text(v, "finish_reason") {
            Ok(x) => x,
            Err(_) => return None,
        };
        let message = match Message::read_required(v, "message") {
            Some(x) => x,
            None => return None,
        };
        Some(Choices { finish_reason, message })
    }

    /// Reads a run out of a wire array.
    pub fn read_seq(v: &serde_json::Value) -> (r: Option<Vec<Choices>>)
        ensures
            match r {
                Some(ts) => ChoicesView::seq_from_json(value_model(*v)) == Some(Choices::seq_view(ts@)),
                None => ChoicesView::seq_from_json(value_model(*v)) is None,
            },
    {
        let items = match value_as_array(v) {
            Some(a) => a,
            None => return None,
        };
        let ghost docs = models(items@);
        let mut out: Vec<Choices> = Vec::new();
        let mut i: usize = 0;
        while i < items.len()
            invariant
                i <= items.len(),
                out@.len() == i,
                docs == models(items@),
                value_model(*v) == JsonValue::Array(docs),
                forall|k: int|
                    0 <= k < i ==> ChoicesView::from_json(docs[k]) == Some(#[trigger] out@[k]@),
            decreases items.len() - i,
        {
            match Choices::from_value(&items[i]) {
                Some(t) => {
                    out.push(t);
                },
                None => {
                    proof {
                        assert(ChoicesView::from_json(docs[i as int]) is None);
                    }
                    return None;
                },
            }
            i += 1;
        }
        proof {
            assert forall|k: int| 0 <= k < docs.len() implies (#[trigger] ChoicesView::from_json(
                docs[k],
            )) == Some(out@[k]@) by {
                let _ = out@[k]@;
            }
            assert(ChoicesView::seq_from_json(value_model(*v))->0 =~= Choices::seq_view(out@));
        }
        Some(out)
    }

    /// Reads the required member `key` as a run.
    pub fn read_required_seq(v: &serde_json::Value, key: &str) -> (r: Option<Vec<Choices>>)
        ensures
            match r {
                Some(ts) => ChoicesView::required_seq(value_model(*v), key@) == Some(
                    Choices::seq_view(ts@),
                ),
                None => ChoicesView::required_seq(value_model(*v), key@) is None,
            },
    {
        match value_get(v, key) {
            Some(c) => Choices::read_seq(c),
            None => None,
        }
    }

    /// Reads the optional member `key` as a run; `Err` is a mismatch.
    pub fn read_optional_seq(v: &serde_json::Value, key: &str) -> (r: Result<
        Option<Vec<Choices>>,
        (),
    >)
        ensures
            match r {
                Ok(o) => ChoicesView::optional_seq(value_model(*v), key@) == Some(
                    match o {
                        Some(ts) => Some(Choices::seq_view(ts@)),
                        None => None,
                    },
                ),
                Err(_) => ChoicesView::optional_seq(value_model(*v), key@) is None,
            },
    {
        match read_member(v, key) {
            None => Ok(None),
            Some(c) => match Choices::read_seq(c) {
                Some(ts) => Ok(Some(ts)),
                None => Err(()),
            },
        }
    }
}

/// The answers of the model.
#[derive(Debug, Clone, PartialEq, Eq)]
pub struct Output {
    pub choices: Vec<Choices>,
}

/// The content of an [`Output`].
pub struct OutputView {
    pub choices: Seq<ChoicesView>,
}

impl View for Output {
    type V = OutputView;

    open spec fn view(&self) -> OutputView {
        OutputView {
            choices: Choices::seq_view(self.choices@),
        }
    }
}

impl OutputView {
    /// The output that a wire value holds, if it has the shape of one.
    pub open spec fn from_json(j: JsonValue) -> Option<OutputView> {
        let choices = ChoicesView::required_seq(j, "choices"@);
        if j is Object
            && choices is Some {
            Some(
                OutputView {
                    choices: choices->0,
                },
            )
        } else {
            None
        }
    }

    /// The required member `key`, read as an output.
    pub open spec fn required(j: JsonValue, key: Seq<char>) -> Option<OutputView> {
        match j.field(key) {
            Some(c) => OutputView::from_json(c),
            None => None,
        }
    }

    /// The optional member `key`, read as an output; the outer `None` is a mismatch.
    pub open spec fn optional(j: JsonValue, key: Seq<char>) -> Option<Option<OutputView>> {
        match j.member(key) {
            None => Some(None),
            Some(c) => match OutputView::from_json(c) {
                Some(x) => Some(Some(x)),
                None => None,
            },
        }
    }
}

impl Output {
    /// Reads an output out of a wire value.
    pub fn from_value(v: &serde_json::Value) -> (r: Option<Output>)
        ensures
            match r {
                Some(t) => OutputView::from_json(value_model(*v)) == Some(t@),
                None => OutputView::from_json(value_model(*v)) is None,
            },
    {
        if !value_is_object(v) {
            return None;
        }
        let choices = match Choices::read_required_seq(v, "choices") {
            Some(x) => x,
            None => return None,
        };
        Some(Output { choices })
    }

    /// Reads the required member `key` as an output.
    pub fn read_required(v: &serde_json::Value, key: &str) -> (r: Option<Output>)
        ensures
            match r {
                Some(t) => OutputView::required(value_model(*v), key@) == Some(t@),
                None => OutputView::required(value_model(*v), key@) is None,
            },
    {
        match value_get(v, key) {
            Some(c) => Output::from_value(c),
            None => None,
        }
    }

    /// Reads the optional member `key` as an output; `Err` is a mismatch.
    pub fn read_optional(v: &serde_json::Value, key: &str) -> (r: Result<Option<Output>, ()>)
        ensures
            match r {
                Ok(o) => OutputView::optional(value_model(*v), key@) == Some(
                    match o {
                        Some(t) => Some(t@),
                        None => None,
                    },
                ),
                Err(_) => OutputView::optional(value_model(*v), key@) is None,
            },
    {
        match read_member(v, key) {
            None => Ok(None),
            Some(c) => match Output::from_value(c) {
                Some(t) => Ok(Some(t)),
                None => Err(()),
            },
        }
    }
}

/// The answer to a multi-modal conversation.
#[derive(Debug, Clone, PartialEq, Eq)]
pub struct MultiModalConversationOutput {
    pub output: Output,
    pub request_id: String,
    pub usage: Option<Usage>,
}

/// The content of a [`MultiModalConversationOutput`].
pub struct MultiModalConversationOutputView {
    pub output: OutputView,
    pub request_id: Seq<char>,
    pub usage: Option<UsageView>,
}

impl View for MultiModalConversationOutput {
    type V = MultiModalConversationOutputView;

    open spec fn view(&self) -> MultiModalConversationOutputView {
        MultiModalConversationOutputView {
            output: self.output@,
            request_id: self.request_id@,
            usage: match self.usage {
                Some(x) => Some(x@),
                None => None,
            },
        }
    }
}

impl MultiModalConversationOutputView {
    /// The answer that a wire value holds, if it has the shape of one.
    pub open spec fn from_json(j: JsonValue) -> Option<MultiModalConversationOutputView> {
        let output = OutputView::required(j, "output"@);
        let request_id = j.req_text("request_id"@);
        let usage = UsageView::optional(j, "usage"@);
        if j is Object
            && output is Some
            && request_id is Some
            && usage is Some {
            Some(
                MultiModalConversationOutputView {
                    output: output->0,
                    request_id: request_id->0,
                    usage: usage->0,
                },
            )
        } else {
            None
        }
    }
}

impl MultiModalConversationOutput {
    /// Reads an answer out of a wire value.
    pub fn from_value(v: &serde_json::Value) -> (r: Option<MultiModalConversationOutput>)
        ensures
            match r {
                Some(t) => MultiModalConversationOutputView::from_json(value_model(*v)) == Some(t@),
                None => MultiModalConversationOutputView::from_json(value_model(*v)) is None,
            },
    {
        if !value_is_object(v) {
            return None;
        }
        let output = match Output::read_required(v, "output") {
            Some(x) => x,
            None => return None,
        };
        let request_id = match read_req_text(v, "request_id") {
            Some(x) => x,
            None => return None,
        };
        let usage = match Usage::read_optional(v, "usage") {
            Ok(x) => x,
            Err(_) => return None,
        };
        Some(MultiModalConversationOutput { output, request_id, usage })
    }

    /// Reads an answer from the text of a body. A text that is no JSON
    /// document, or a document in another shape, is a deserialization error
    /// that keeps the text.
    pub fn decode(text: &str) -> (r: Result<MultiModalConversationOutput, DashScopeError>)
        ensures
            match r {
                Ok(t) => parsed(text@) is Ok && MultiModalConversationOutputView::from_json(parsed(text@)->Ok_0) == Some(
                    t@,
                ),
                Err(e) => (parsed(text@) is Err || MultiModalConversationOutputView::from_json(parsed(text@)->Ok_0) is None)
                    && e@ == unreadable(text@),
            },
    {
        match parse_value(text) {
            Ok(v) => match MultiModalConversationOutput::from_value(&v) {
                Some(t) => Ok(t),
                None => Err(wrong_shape(text)),
            },
            Err(e) => Err(not_json(&e, text)),
        }
    }
}

} // verus!
