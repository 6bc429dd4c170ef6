//! The request of text generation, and the messages it is made of.

use vstd::string::*;
use crate::body::not_written;
use crate::error::DashScopeError;
use crate::json::{
    JsonValue, models, render_value, rendered, str_eq, value_array, value_model, value_null,
    value_object,
};
use crate::operation::common::{Parameters, ParametersView, StreamOptions, StreamOptionsView};
use crate::operation::request::RequestTrait;
use crate::wire::{
    boolean_json, boolean_value, int_json, optional_model, or_null, put, put_int, put_opt,
    put_or_null, put_text, text_json, text_value, text_view,
};
use vstd::prelude::*;

verus! {

/// What the model is to be or to do. It belongs at the head of the messages.
#[derive(Debug, Clone, PartialEq, Eq)]
pub struct SystemMessage {
    pub role: String,
    pub content: String,
}

/// The content of a [`SystemMessage`].
pub struct SystemMessageView {
    pub role: Seq<char>,
    pub content: Seq<char>,
}

impl View for SystemMessage {
    type V = SystemMessageView;

    open spec fn view(&self) -> SystemMessageView {
        SystemMessageView {
            role: self.role@,
            content: self.content@,
        }
    }
}

impl SystemMessageView {
    /// The wire value of this message.
    pub open spec fn to_json(self) -> JsonValue {
        JsonValue::empty_object().with("role"@, JsonValue::Text(self.role)).with("content"@, JsonValue::Text(self.content))
    }
}

impl SystemMessage {
    /// Writes this message as a wire value.
    pub fn to_value(&self) -> (r: serde_json::Value)
        ensures
            value_model(r) == self@.to_json(),
    {
        let mut obj = value_object();
        put_text(&mut obj, "role", self.role.as_str());
        put_text(&mut obj, "content", self.content.as_str());
        obj
    }
}

/// What the user says to the model.
#[derive(Debug, Clone, PartialEq, Eq)]
pub struct UserMessage {
    pub role: String,
    pub content: String,
}

/// The content of a [`UserMessage`].
pub struct UserMessageView {
    pub role: Seq<char>,
    pub content: Seq<char>,
}

impl View for UserMessage {
    type V = UserMessageView;

    open spec fn view(&self) -> UserMessageView {
        UserMessageView {
            role: self.role@,
            content: self.content@,
        }
    }
}

impl UserMessageView {
    /// The wire value of this message.
    pub open spec fn to_json(self) -> JsonValue {
        JsonValue::empty_object().with("role"@, JsonValue::Text(self.role)).with("content"@, JsonValue::Text(self.content))
    }
}

impl UserMessage {
    /// Writes this message as a wire value.
    pub fn to_value(&self) -> (r: serde_json::Value)
        ensures
            value_model(r) == self@.to_json(),
    {
        let mut obj = value_object();
        put_text(&mut obj, "role", self.role.as_str());
        put_text(&mut obj, "content", self.content.as_str());
        obj
    }
}

/// The function that a tool call names.
#[derive(Debug, Clone, PartialEq, Eq)]
pub struct Function {
    pub name: String,
    /// The arguments, as the text of a JSON object.
    pub arguments: String,
}

/// The content of a [`Function`].
pub struct FunctionView {
    pub name: Seq<char>,
    pub arguments: Seq<char>,
}

impl View for Function {
    type V = FunctionView;

    open spec fn view(&self) -> FunctionView {
        FunctionView {
            name: self.name@,
            arguments: self.arguments@,
        }
    }
}

impl FunctionView {
    /// The wire value of this function.
    pub open spec fn to_json(self) -> JsonValue {
        JsonValue::empty_object().with("name"@, JsonValue::Text(self.name)).with("arguments"@, JsonValue::Text(self.arguments))
    }

    /// The wire value of an optional function.
    pub open spec fn optional_json(o: Option<FunctionView>) -> Option<JsonValue> {
        match o {
            Some(x) => Some(x.to_json()),
            None => None,
        }
    }
}

impl Function {
    /// Writes this function as a wire value.
    pub fn to_value(&self) -> (r: serde_json::Value)
        ensures
            value_model(r) == self@.to_json(),
    {
        let mut obj = value_object();
        put_text(&mut obj, "name", self.name.as_str());
        put_text(&mut obj, "arguments", self.arguments.as_str());
        obj
    }

    /// An optional function as an optional wire value.
    pub fn optional_value(o: &Option<Function>) -> (r: Option<serde_json::Value>)
        ensures
            optional_model(r) == FunctionView::optional_json(
                match o {
                    Some(t) => Some(t@),
                    None => None,
                },
            ),
    {
        match o {
            Some(t) => Some(t.to_value()),
            None => None,
        }
    }
}

/// A call of a tool that the model asks for.
#[derive(Debug, Clone, PartialEq, Eq)]
pub struct ToolCall {
    pub id: String,
    /// The kind of tool; `function`.
    pub type_: String,
    pub function: Function,
    /// Where the call stands among the calls of one answer.
    pub index: i32,
}

/// The content of a [`ToolCall`].
pub struct ToolCallView {
    pub id: Seq<char>,
    pub type_: Seq<char>,
    pub function: FunctionView,
    pub index: i32,
}

impl View for ToolCall {
    type V = ToolCallView;

    open spec fn view(&self) -> ToolCallView {
        ToolCallView {
            id: self.id@,
            type_: self.type_@,
            function: self.function@,
            index: self.index,
        }
    }
}

impl ToolCallView {
    /// The wire value of this tool call.
    pub open spec fn to_json(self) -> JsonValue {
        JsonValue::empty_object().with("id"@, JsonValue::Text(self.id)).with("type"@, JsonValue::Text(self.type_)).with("function"@, self.function.to_json()).with("index"@, int_json(self.index as int))
    }

    /// The wire array of a run.
    pub open spec fn seq_to_json(ts: Seq<ToolCallView>) -> JsonValue {
        JsonValue::Array(Seq::new(ts.len(), |i: int| ts[i].to_json()))
    }

    /// The wire value of an optional run.
    pub open spec fn optional_seq_json(o: Option<Seq<ToolCallView>>) -> Option<JsonValue> {
        match o {
            Some(ts) => Some(ToolCallView::seq_to_json(ts)),
            None => None,
        }
    }
}

impl ToolCall {
    /// The contents of a run of these.
    pub open spec fn seq_view(ts: Seq<ToolCall>) -> Seq<ToolCallView> {
        Seq::new(ts.len(), |i: int| ts[i]@)
    }

    /// Writes this tool call as a wire value.
    pub fn to_value(&self) -> (r: serde_json::Value)
        ensures
            value_model(r) == self@.to_json(),
    {
        let mut obj = value_object();
        put_text(&mut obj, "id", self.id.as_str());
        put_text(&mut obj, "type", self.type_.as_str());
        put(&mut obj, "function", self.function.to_value());
        put_int(&mut obj, "index", self.index as i64);
        obj
    }

    /// Writes a run as a wire array.
    pub fn write_seq(ts: &Vec<ToolCall>) -> (r: serde_json::Value)
        ensures
            value_model(r) == ToolCallView::seq_to_json(ToolCall::seq_view(ts@)),
    {
        let mut items: Vec<serde_json::Value> = Vec::new();
        let mut i: usize = 0;
        while i < ts.len()
            invariant
                i <= ts.len(),
                items@.len() == i,
                forall|k: int|
                    0 <= k < i ==> value_model(#[trigger] items@[k]) == ts@[k]@.to_json(),
            decreases ts.len() - i,
        {
            items.push(ts[i].to_value());
            i += 1;
        }
        proof {
            assert(models(items@) =~= Seq::new(
                ts@.len(),
                |i: int| ToolCall::seq_view(ts@)[i].to_json(),
            ));
        }
        value_array(items)
    }

    /// An optional run as an optional wire value.
    pub fn optional_seq_value(o: &Option<Vec<ToolCall>>) -> (r: Option<serde_json::Value>)
        ensures
            optional_model(r) == ToolCallView::optional_seq_json(
                match o {
                    Some(ts) => Some(ToolCall::seq_view(ts@)),
                    None => None,
                },
            ),
    {
        match o {
            Some(ts) => Some(ToolCall::write_seq(ts)),
            None => None,
        }
    }
}

/// What the model has answered.
#[derive(Debug, Clone, PartialEq, Eq)]
pub struct AssistantMessage {
    pub role: String,
    pub content: String,
    /// Whether the model is to go on from this text.
    pub partial: Option<bool>,
    pub tool_calls: Option<Vec<ToolCall>>,
}

/// The content of an [`AssistantMessage`].
pub struct AssistantMessageView {
    pub role: Seq<char>,
    pub content: Seq<char>,
    pub partial: Option<bool>,
    pub tool_calls: Option<Seq<ToolCallView>>,
}

impl View for AssistantMessage {
    type V = AssistantMessageView;

    open spec fn view(&self) -> AssistantMessageView {
        AssistantMessageView {
            role: self.role@,
            content: self.content@,
            partial: self.partial,
            tool_calls: match self.tool_calls {
                Some(x) => Some(ToolCall::seq_view(x@)),
                None => None,
            },
        }
    }
}

impl AssistantMessageView {
    /// The wire value of this message.
    pub open spec fn to_json(self) -> JsonValue {
        JsonValue::empty_object().with("role"@, JsonValue::Text(self.role)).with("content"@, JsonValue::Text(self.content)).with("partial"@, or_null(boolean_json(self.partial))).with("tool_calls"@, or_null(ToolCallView::optional_seq_json(self.tool_calls)))
    }
}

impl AssistantMessage {
    /// Writes this message as a wire value.
    pub fn to_value(&self) -> (r: serde_json::Value)
        ensures
            value_model(r) == self@.to_json(),
    {
        let mut obj = value_object();
        put_text(&mut obj, "role", self.role.as_str());
        put_text(&mut obj, "content", self.content.as_str());
        put_or_null(&mut obj, "partial", boolean_value(self.partial));
        put_or_null(&mut obj, "tool_calls", ToolCall::optional_seq_value(&self.tool_calls));
        obj
    }
}

/// What a tool has answered.
#[derive(Debug, Clone, PartialEq, Eq)]
pub struct ToolMessage {
    pub role: String,
    pub content: String,
    pub tool_call_id: Option<String>,
}

/// The content of a [`ToolMessage`].
pub struct ToolMessageView {
    pub role: Seq<char>,
    pub content: Seq<char>,
    pub tool_call_id: Option<Seq<char>>,
}

impl View for ToolMessage {
    type V = ToolMessageView;

    open spec fn view(&self) -> ToolMessageView {
        ToolMessageView {
            role: self.role@,
            content: self.content@,
            tool_call_id: text_view(self.tool_call_id),
        }
    }
}

impl ToolMessageView {
    /// The wire value of this message.
    pub open spec fn to_json(self) -> JsonValue {
        JsonValue::empty_object().with("role"@, JsonValue::Text(self.role)).with("content"@, JsonValue::Text(self.content)).with("tool_call_id"@, or_null(text_json(self.tool_call_id)))
    }
}

impl ToolMessage {
    /// Writes this message as a wire value.
    pub fn to_value(&self) -> (r: serde_json::Value)
        ensures
            value_model(r) == self@.to_json(),
    {
        let mut obj = value_object();
        put_text(&mut obj, "role", self.role.as_str());
        put_text(&mut obj, "content", self.content.as_str());
        put_or_null(&mut obj, "tool_call_id", text_value(&self.tool_call_id));
        obj
    }
}

/// One message of a conversation. On the wire a message is the object of
/// its kind; a message of no kind is `null`.
#[derive(Debug, Clone, PartialEq, Eq)]
pub enum Message {
    /// No message.
    Empty,
    System(SystemMessage),
    User(UserMessage),
    Assistant(AssistantMessage),
    Tool(ToolMessage),
}

/// The content of a [`Message`].
pub enum MessageView {
    Empty,
    System(SystemMessageView),
    User(UserMessageView),
    Assistant(AssistantMessageView),
    Tool(ToolMessageView),
}

impl View for Message {
    type V = MessageView;

    open spec fn view(&self) -> MessageView {
        match self {
            Message::Empty => MessageView::Empty,
            Message::System(m) => MessageView::System(m@),
            Message::User(m) => MessageView::User(m@),
            Message::Assistant(m) => MessageView::Assistant(m@),
            Message::Tool(m) => MessageView::Tool(m@),
        }
    }
}

impl MessageView {
    /// The wire value of this message.
    pub open spec fn to_json(self) -> JsonValue {
        match self {
            MessageView::Empty => JsonValue::Null,
            MessageView::System(m) => m.to_json(),
            MessageView::User(m) => m.to_json(),
            MessageView::Assistant(m) => m.to_json(),
            MessageView::Tool(m) => m.to_json(),
        }
    }
}

impl Default for Message {
    fn default() -> (r: Message)
        ensures
            r@ == MessageView::Empty,
    {
        Message::Empty
    }
}

impl Message {
    /// Writes this message as a wire value.
    pub fn to_value(&self) -> (r: serde_json::Value)
        ensures
            value_model(r) == self@.to_json(),
    {
        match self {
            Message::Empty => value_null(),
            Message::System(m) => m.to_value(),
            Message::User(m) => m.to_value(),
            Message::Assistant(m) => m.to_value(),
            Message::Tool(m) => m.to_value(),
        }
    }
}

impl From<SystemMessage> for Message {
    fn from(value: SystemMessage) -> (r: Message) {
        Message::System(value)
    }
}

impl vstd::std_specs::convert::FromSpecImpl<SystemMessage> for Message {
    open spec fn obeys_from_spec() -> bool {
        true
    }

    open spec fn from_spec(value: SystemMessage) -> Message {
        Message::System(value)
    }
}

impl From<UserMessage> for Message {
    fn from(value: UserMessage) -> (r: Message) {
        Message::User(value)
    }
}

impl vstd::std_specs::convert::FromSpecImpl<UserMessage> for Message {
    open spec fn obeys_from_spec() -> bool {
        true
    }

    open spec fn from_spec(value: UserMessage) -> Message {
        Message::User(value)
    }
}

impl From<AssistantMessage> for Message {
    fn from(value: AssistantMessage) -> (r: Message) {
        Message::Assistant(value)
    }
}

impl vstd::std_specs::convert::FromSpecImpl<AssistantMessage> for Message {
    open spec fn obeys_from_spec() -> bool {
        true
    }

    open spec fn from_spec(value: AssistantMessage) -> Message {
        Message::Assistant(value)
    }
}

impl From<ToolMessage> for Message {
    fn from(value: ToolMessage) -> (r: Message) {
        Message::Tool(value)
    }
}

impl vstd::std_specs::convert::FromSpecImpl<ToolMessage> for Message {
    open spec fn obeys_from_spec() -> bool {
        true
    }

    open spec fn from_spec(value: ToolMessage) -> Message {
        Message::Tool(value)
    }
}

/// Why a message could not be built.
#[derive(Debug, Clone, Copy, PartialEq, Eq, Structural)]
pub enum MessageBuilderError {
    /// The role is none of `system`, `user`, `assistant` and `tool`.
    InvalidRole,
}

impl MessageBuilderError {
    /// The message shown for this error.
    pub fn to_string(&self) -> (r: String)
        ensures
            r@ == "Invalid role"@,
    {
        "Invalid role".to_owned()
    }
}

/// Collects what a message is made of; the role decides its kind.
#[derive(Debug, Clone, PartialEq, Eq)]
pub struct MessageBuilder {
    pub role: String,
    pub content: String,
    pub partial: Option<bool>,
    pub tool_calls: Option<Vec<ToolCall>>,
    pub tool_call_id: Option<String>,
}

/// The content of a [`MessageBuilder`].
pub struct MessageBuilderView {
    pub role: Seq<char>,
    pub content: Seq<char>,
    pub partial: Option<bool>,
    pub tool_calls: Option<Seq<ToolCallView>>,
    pub tool_call_id: Option<Seq<char>>,
}

impl View for MessageBuilder {
    type V = MessageBuilderView;

    open spec fn view(&self) -> MessageBuilderView {
        MessageBuilderView {
            role: self.role@,
            content: self.content@,
            partial: self.partial,
            tool_calls: match self.tool_calls {
                Some(x) => Some(ToolCall::seq_view(x@)),
                None => None,
            },
            tool_call_id: text_view(self.tool_call_id),
        }
    }
}

impl MessageBuilderView {
    /// The message that is built: of the kind that the role names, with the
    /// members that this kind has. Any other role builds nothing.
    pub open spec fn built(self) -> Option<MessageView> {
        if self.role == "system"@ {
            Some(MessageView::System(SystemMessageView { role: self.role, content: self.content }))
        } else if self.role == "user"@ {
            Some(MessageView::User(UserMessageView { role: self.role, content: self.content }))
        } else if self.role == "assistant"@ {
            Some(
                MessageView::Assistant(
                    AssistantMessageView {
                        role: self.role,
                        content: self.content,
                        partial: self.partial,
                        tool_calls: self.tool_calls,
                    },
                ),
            )
        } else if self.role == "tool"@ {
            Some(
                MessageView::Tool(
                    ToolMessageView {
                        role: self.role,
                        content: self.content,
                        tool_call_id: self.tool_call_id,
                    },
                ),
            )
        } else {
            None
        }
    }
}

impl Function {
    /// A copy of this function.
    pub fn duplicate(&self) -> (r: Function)
        ensures
            r@ == self@,
    {
        Function { name: self.name.clone(), arguments: self.arguments.clone() }
    }
}

impl ToolCall {
    /// A copy of this call.
    pub fn duplicate(&self) -> (r: ToolCall)
        ensures
            r@ == self@,
    {
        ToolCall {
            id: self.id.clone(),
            type_: self.type_.clone(),
            function: self.function.duplicate(),
            index: self.index,
        }
    }

    /// A copy of a run of calls.
    pub fn duplicate_all(calls: &Vec<ToolCall>) -> (r: Vec<ToolCall>)
        ensures
            ToolCall::seq_view(r@) == ToolCall::seq_view(calls@),
    {
        let mut out: Vec<ToolCall> = Vec::new();
        let mut i: usize = 0;
        while i < calls.len()
            invariant
                i <= calls.len(),
                out@.len() == i,
                forall|k: int| 0 <= k < i ==> (#[trigger] out@[k])@ == calls@[k]@,
            decreases calls.len() - i,
        {
            out.push(calls[i].duplicate());
            i += 1;
        }
        proof {
            assert(ToolCall::seq_view(out@) =~= ToolCall::seq_view(calls@));
        }
        out
    }
}

impl MessageBuilder {
    /// A builder for a message of the given role and content that is not a
    /// partial one.
    pub fn new(role: &str, content: &str) -> (r: MessageBuilder)
        ensures
            r@ == (MessageBuilderView {
                role: role@,
                content: content@,
                partial: Some(false),
                tool_calls: None,
                tool_call_id: None,
            }),
    {
        MessageBuilder {
            role: role.to_owned(),
            content: content.to_owned(),
            partial: Some(false),
            tool_calls: None,
            tool_call_id: None,
        }
    }

    /// Sets the role.
    pub fn role(self, value: &str) -> (r: MessageBuilder)
        ensures
            r@ == (MessageBuilderView { role: value@, ..self@ }),
    {
        MessageBuilder { role: value.to_owned(), ..self }
    }

    /// Sets the role `system`.
    pub fn system(self) -> (r: MessageBuilder)
        ensures
            r@ == (MessageBuilderView { role: "system"@, ..self@ }),
    {
        self.role("system")
    }

    /// Sets the role `user`.
    pub fn user(self) -> (r: MessageBuilder)
        ensures
            r@ == (MessageBuilderView { role: "user"@, ..self@ }),
    {
        self.role("user")
    }

    /// Sets the role `assistant`.
    pub fn assistant(self) -> (r: MessageBuilder)
        ensures
            r@ == (MessageBuilderView { role: "assistant"@, ..self@ }),
    {
        self.role("assistant")
    }

    /// Sets the role `tool`.
    pub fn tool(self) -> (r: MessageBuilder)
        ensures
            r@ == (MessageBuilderView { role: "tool"@, ..self@ }),
    {
        self.role("tool")
    }

    /// Sets the content.
    pub fn content(self, value: &str) -> (r: MessageBuilder)
        ensures
            r@ == (MessageBuilderView { content: value@, ..self@ }),
    {
        MessageBuilder { content: value.to_owned(), ..self }
    }

    /// Says whether the model is to go on from this text.
    pub fn partial(self, value: bool) -> (r: MessageBuilder)
        ensures
            r@ == (MessageBuilderView { partial: Some(value), ..self@ }),
    {
        MessageBuilder { partial: Some(value), ..self }
    }

    /// Sets the id of the tool call that the message answers.
    pub fn tool_call_id(self, value: &str) -> (r: MessageBuilder)
        ensures
            r@ == (MessageBuilderView { tool_call_id: Some(value@), ..self@ }),
    {
        MessageBuilder { tool_call_id: Some(value.to_owned()), ..self }
    }

    /// Sets the tool calls of an answer of the model.
    pub fn tool_calls(self, value: Vec<ToolCall>) -> (r: MessageBuilder)
        ensures
            r@ == (MessageBuilderView { tool_calls: Some(ToolCall::seq_view(value@)), ..self@ }),
    {
        MessageBuilder { tool_calls: Some(value), ..self }
    }

    /// Builds the message of the kind that the role names.
    pub fn build(&self) -> (r: Result<Message, MessageBuilderError>)
        ensures
            match r {
                Ok(m) => self@.built() == Some(m@),
                Err(_) => self@.built() is None,
            },
    {
        let role = self.role.as_str();
        if str_eq(role, "system") {
            Ok(Message::System(SystemMessage { role: self.role.clone(), content: self.content.clone() }))
        } else if str_eq(role, "user") {
            Ok(Message::User(UserMessage { role: self.role.clone(), content: self.content.clone() }))
        } else if str_eq(role, "assistant") {
            Ok(
                Message::Assistant(
                    AssistantMessage {
                        role: self.role.clone(),
                        content: self.content.clone(),
                        partial: self.partial,
                        tool_calls: match &self.tool_calls {
                            Some(calls) => Some(ToolCall::duplicate_all(calls)),
                            None => None,
                        },
                    },
                ),
            )
        } else if str_eq(role, "tool") {
            Ok(
                Message::Tool(
                    ToolMessage {
                        role: self.role.clone(),
                        content: self.content.clone(),
                        tool_call_id: self.tool_call_id.clone(),
                    },
                ),
            )
        } else {
            Err(MessageBuilderError::InvalidRole)
        }
    }
}


impl MessageView {
    /// The wire array of a run.
    pub open spec fn seq_to_json(ts: Seq<MessageView>) -> JsonValue {
        JsonValue::Array(Seq::new(ts.len(), |i: int| ts[i].to_json()))
    }

    /// The wire value of an optional run.
    pub open spec fn optional_seq_json(o: Option<Seq<MessageView>>) -> Option<JsonValue> {
        match o {
            Some(ts) => Some(MessageView::seq_to_json(ts)),
            None => None,
        }
    }
}

impl Message {
    /// The contents of a run of these.
    pub open spec fn seq_view(ts: Seq<Message>) -> Seq<MessageView> {
        Seq::new(ts.len(), |i: int| ts[i]@)
    }

    /// Writes a run as a wire array.
    pub fn write_seq(ts: &Vec<Message>) -> (r: serde_json::Value)
        ensures
            value_model(r) == MessageView::seq_to_json(Message::seq_view(ts@)),
    {
        let mut items: Vec<serde_json::Value> = Vec::new();
        let mut i: usize = 0;
        while i < ts.len()
            invariant
                i <= ts.len(),
                items@.len() == i,
                forall|k: int|
                    0 <= k < i ==> value_model(#[trigger] items@[k]) == ts@[k]@.to_json(),
            decreases ts.len() - i,
        {
            items.push(ts[i].to_value());
            i += 1;
        }
        proof {
            assert(models(items@) =~= Seq::new(
                ts@.len(),
                |i: int| Message::seq_view(ts@)[i].to_json(),
            ));
        }
        value_array(items)
    }

    /// An optional run as an optional wire value.
    pub fn optional_seq_value(o: &Option<Vec<Message>>) -> (r: Option<serde_json::Value>)
        ensures
            optional_model(r) == MessageView::optional_seq_json(
                match o {
                    Some(ts) => Some(Message::seq_view(ts@)),
                    None => None,
                },
            ),
    {
        match o {
            Some(ts) => Some(Message::write_seq(ts)),
            None => None,
        }
    }
}

/// The messages of a conversation.
#[derive(Debug, Clone, PartialEq, Eq)]
pub struct Input {
    pub messages: Vec<Message>,
}

/// The content of an [`Input`].
pub struct InputView {
    pub messages: Seq<MessageView>,
}

impl View for Input {
    type V = InputView;

    open spec fn view(&self) -> InputView {
        InputView {
            messages: Message::seq_view(self.messages@),
        }
    }
}

impl InputView {
    /// The wire value of this input.
    pub open spec fn to_json(self) -> JsonValue {
        JsonValue::empty_object().with("messages"@, MessageView::seq_to_json(self.messages))
    }

    /// The wire value of an optional input.
    pub open spec fn optional_json(o: Option<InputView>) -> Option<JsonValue> {
        match o {
            Some(x) => Some(x.to_json()),
            None => None,
        }
    }
}

impl Input {
    /// Writes this input as a wire value.
    pub fn to_value(&self) -> (r: serde_json::Value)
        ensures
            value_model(r) == self@.to_json(),
    {
        let mut obj = value_object();
        put(&mut obj, "messages", Message::write_seq(&self.messages));
        obj
    }

    /// An optional input as an optional wire value.
    pub fn optional_value(o: &Option<Input>) -> (r: Option<serde_json::Value>)
        ensures
            optional_model(r) == InputView::optional_json(
                match o {
                    Some(t) => Some(t@),
                    None => None,
                },
            ),
    {
        match o {
            Some(t) => Some(t.to_value()),
            None => None,
        }
    }
}

/// A request to generate text.
#[derive(Debug, Clone, PartialEq)]
pub struct GenerationParam {
    pub model: String,
    pub input: Input,
    pub parameters: Option<Parameters>,
    /// Whether the answer is to be streamed.
    pub stream: Option<bool>,
    pub stream_options: Option<StreamOptions>,
}

/// The content of a [`GenerationParam`].
pub struct GenerationParamView {
    pub model: Seq<char>,
    pub input: InputView,
    pub parameters: Option<ParametersView>,
    pub stream: Option<bool>,
    pub stream_options: Option<StreamOptionsView>,
}

impl View for GenerationParam {
    type V = GenerationParamView;

    open spec fn view(&self) -> GenerationParamView {
        GenerationParamView {
            model: self.model@,
            input: self.input@,
            parameters: match self.parameters {
                Some(x) => Some(x@),
                None => None,
            },
            stream: self.stream,
            stream_options: match self.stream_options {
                Some(x) => Some(x@),
                None => None,
            },
        }
    }
}

impl GenerationParamView {
    /// The wire value of this request.
    pub open spec fn to_json(self) -> JsonValue {
        JsonValue::empty_object().with("model"@, JsonValue::Text(self.model)).with("input"@, self.input.to_json()).with_opt("parameters"@, ParametersView::optional_json(self.parameters)).with("stream"@, or_null(boolean_json(self.stream))).with("stream_options"@, or_null(StreamOptionsView::optional_json(self.stream_options)))
    }
}

impl GenerationParam {
    /// Writes this request as a wire value.
    pub fn to_value(&self) -> (r: serde_json::Value)
        ensures
            value_model(r) == self@.to_json(),
    {
        let mut obj = value_object();
        put_text(&mut obj, "model", self.model.as_str());
        put(&mut obj, "input", self.input.to_value());
        put_opt(&mut obj, "parameters", Parameters::optional_value(&self.parameters));
        put_or_null(&mut obj, "stream", boolean_value(self.stream));
        put_or_null(&mut obj, "stream_options", StreamOptions::optional_value(&self.stream_options));
        obj
    }

    /// Writes this request as the text of a body: the rendering of its wire
    /// value. Writing never fails.
    pub fn encode(&self) -> (r: Result<String, DashScopeError>)
        ensures
            r is Ok,
            r matches Ok(s) ==> s@ == rendered(self@.to_json()),
    {
        match render_value(&self.to_value()) {
            Ok(s) => Ok(s),
            Err(e) => Err(not_written(&e)),
        }
    }
}

impl RequestTrait for GenerationParam {
    type P = Parameters;

    open spec fn model_text(&self) -> Seq<char> {
        self.model@
    }

    open spec fn shared_parameters(&self) -> Option<Parameters> {
        self.parameters
    }

    fn model(&self) -> (r: &str) {
        self.model.as_str()
    }

    fn parameters(&self) -> (r: Option<&Parameters>) {
        self.parameters.as_ref()
    }
}

} // verus!
