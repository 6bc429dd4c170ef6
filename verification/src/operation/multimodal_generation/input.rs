//! The request of multi-modal generation.

use crate::body::not_written;
use crate::error::DashScopeError;
use crate::json::{
    JsonValue, models, render_value, rendered, value_array, value_model, value_object,
};
use crate::operation::common::{Parameters, ParametersView};
use crate::wire::{optional_model, put, put_opt, put_text};
use vstd::prelude::*;

verus! {

/// One turn of a conversation: who speaks, and what.
#[derive(Debug, Clone, PartialEq, Eq)]
pub struct Message {
    pub role: String,
    /// The pieces of the turn: a JSON array, as it is to stand on the wire.
    pub contents: serde_json::Value,
}

/// The content of a [`Message`].
pub struct MessageView {
    pub role: Seq<char>,
    pub contents: JsonValue,
}

impl View for Message {
    type V = MessageView;

    open spec fn view(&self) -> MessageView {
        MessageView {
            role: self.role@,
            contents: value_model(self.contents),
        }
    }
}

impl MessageView {
    /// The wire value of this message.
    pub open spec fn to_json(self) -> JsonValue {
        JsonValue::empty_object().with("role"@, JsonValue::Text(self.role)).with("content"@, self.contents)
    }

    /// The wire array of a run.
    pub open spec fn seq_to_json(ts: Seq<MessageView>) -> JsonValue {
        JsonValue::Array(Seq::new(ts.len(), |i: int| ts[i].to_json()))
    }

    /// The wire value of an optional run.
    pub open spec fn optional_seq_json(o: Option<Seq<MessageView>>) -> Option<JsonValue> {
        match o {
            Some(ts) => Some(MessageView::seq_to_json(ts)),
            None => None,
        }
    }
}

impl Message {
    /// The contents of a run of these.
    pub open spec fn seq_view(ts: Seq<Message>) -> Seq<MessageView> {
        Seq::new(ts.len(), |i: int| ts[i]@)
    }

    /// Writes this message as a wire value.
    pub fn to_value(&self) -> (r: serde_json::Value)
        ensures
            value_model(r) == self@.to_json(),
    {
        let mut obj = value_object();
        put_text(&mut obj, "role", self.role.as_str());
        put(&mut obj, "content", self.contents.clone());
        obj
    }

    /// Writes a run as a wire array.
    pub fn write_seq(ts: &Vec<Message>) -> (r: serde_json::Value)
        ensures
            value_model(r) == MessageView::seq_to_json(Message::seq_view(ts@)),
    {
        let mut items: Vec<serde_json::Value> = Vec::new();
        let mut i: usize = 0;
        while i < ts.len()
            invariant
                i <= ts.len(),
                items@.len() == i,
                forall|k: int|
                    0 <= k < i ==> value_model(#[trigger] items@[k]) == ts@[k]@.to_json(),
            decreases ts.len() - i,
        {
            items.push(ts[i].to_value());
            i += 1;
        }
        proof {
            assert(models(items@) =~= Seq::new(
                ts@.len(),
                |i: int| Message::seq_view(ts@)[i].to_json(),
            ));
        }
        value_array(items)
    }

    /// An optional run as an optional wire value.
    pub fn optional_seq_value(o: &Option<Vec<Message>>) -> (r: Option<serde_json::Value>)
        ensures
            optional_model(r) == MessageView::optional_seq_json(
                match o {
                    Some(ts) => Some(Message::seq_view(ts@)),
                    None => None,
                },
            ),
    {
        match o {
            Some(ts) => Some(Message::write_seq(ts)),
            None => None,
        }
    }
}

/// The messages of a conversation.
#[derive(Debug, Clone, PartialEq, Eq)]
pub struct Input {
    pub messages: Vec<Message>,
}

/// The content of an [`Input`].
pub struct InputView {
    pub messages: Seq<MessageView>,
}

impl View for Input {
    type V = InputView;

    open spec fn view(&self) -> InputView {
        InputView {
            messages: Message::seq_view(self.messages@),
        }
    }
}

impl InputView {
    /// The wire value of this input.
    pub open spec fn to_json(self) -> JsonValue {
        JsonValue::empty_object().with("messages"@, MessageView::seq_to_json(self.messages))
    }

    /// The wire value of an optional input.
    pub open spec fn optional_json(o: Option<InputView>) -> Option<JsonValue> {
        match o {
            Some(x) => Some(x.to_json()),
            None => None,
        }
    }
}

impl Input {
    /// Writes this input as a wire value.
    pub fn to_value(&self) -> (r: serde_json::Value)
        ensures
            value_model(r) == self@.to_json(),
    {
        let mut obj = value_object();
        put(&mut obj, "messages", Message::write_seq(&self.messages));
        obj
    }

    /// An optional input as an optional wire value.
    pub fn optional_value(o: &Option<Input>) -> (r: Option<serde_json::Value>)
        ensures
            optional_model(r) == InputView::optional_json(
                match o {
                    Some(t) => Some(t@),
                    None => None,
                },
            ),
    {
        match o {
            Some(t) => Some(t.to_value()),
            None => None,
        }
    }
}

/// A request for multi-modal generation.
#[derive(Debug, Clone, PartialEq)]
pub struct MultiModalGenerationInput {
    pub model: String,
    pub input: Input,
    pub parameters: Option<Parameters>,
}

/// The content of a [`MultiModalGenerationInput`].
pub struct MultiModalGenerationInputView {
    pub model: Seq<char>,
    pub input: InputView,
    pub parameters: Option<ParametersView>,
}

impl View for MultiModalGenerationInput {
    type V = MultiModalGenerationInputView;

    open spec fn view(&self) -> MultiModalGenerationInputView {
        MultiModalGenerationInputView {
            model: self.model@,
            input: self.input@,
            parameters: match self.parameters {
                Some(x) => Some(x@),
                None => None,
            },
        }
    }
}

impl MultiModalGenerationInputView {
    /// The wire value of this request.
    pub open spec fn to_json(self) -> JsonValue {
        JsonValue::empty_object().with("model"@, JsonValue::Text(self.model)).with("input"@, self.input.to_json()).with_opt("parameters"@, ParametersView::optional_json(self.parameters))
    }
}

impl MultiModalGenerationInput {
    /// Writes this request as a wire value.
    pub fn to_value(&self) -> (r: serde_json::Value)
        ensures
            value_model(r) == self@.to_json(),
    {
        let mut obj = value_object();
        put_text(&mut obj, "model", self.model.as_str());
        put(&mut obj, "input", self.input.to_value());
        put_opt(&mut obj, "parameters", Parameters::optional_value(&self.parameters));
        obj
    }

    /// Writes this request as the text of a body: the rendering of its wire
    /// value. Writing never fails.
    pub fn encode(&self) -> (r: Result<String, DashScopeError>)
        ensures
            r is Ok,
            r matches Ok(s) ==> s@ == rendered(self@.to_json()),
    {
        match render_value(&self.to_value()) {
            Ok(s) => Ok(s),
            Err(e) => Err(not_written(&e)),
        }
    }
}

} // verus!
