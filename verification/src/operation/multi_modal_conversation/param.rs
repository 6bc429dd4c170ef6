//! The request of a multi-modal conversation.

use crate::body::not_written;
use crate::error::{DashScopeError, DashScopeErrorView};
use crate::json::{
    JsonValue, models, render_value, rendered, value_array, value_model, value_object,
};
use crate::operation::common::{Parameters, ParametersView};
use crate::operation::request::RequestTrait;
use crate::oss_util::{is_valid_url, url_parses};
use crate::wire::{
    boolean_json, boolean_value, optional_model, or_null, put, put_opt, put_or_null, put_text,
    read_req_text,
};
use vstd::prelude::*;

verus! {

/// One piece of a message: an image, a video or an audio, each by its
/// address or the path of a file, or a text.
#[derive(Debug, Clone, PartialEq, Eq)]
pub enum Element {
    Image(String),
    Video(String),
    Audio(String),
    Text(String),
}

/// The content of an [`Element`].
pub enum ElementView {
    Image(Seq<char>),
    Video(Seq<char>),
    Audio(Seq<char>),
    Text(Seq<char>),
}

impl View for Element {
    type V = ElementView;

    open spec fn view(&self) -> ElementView {
        match self {
            Element::Image(s) => ElementView::Image(s@),
            Element::Video(s) => ElementView::Video(s@),
            Element::Audio(s) => ElementView::Audio(s@),
            Element::Text(s) => ElementView::Text(s@),
        }
    }
}

impl ElementView {
    /// The name of the kind of this element on the wire.
    pub open spec fn tag(self) -> Seq<char> {
        match self {
            ElementView::Image(_) => "image"@,
            ElementView::Video(_) => "video"@,
            ElementView::Audio(_) => "audio"@,
            ElementView::Text(_) => "text"@,
        }
    }

    /// What this element holds: an address, a path, or the text itself.
    pub open spec fn content(self) -> Seq<char> {
        match self {
            ElementView::Image(s) => s,
            ElementView::Video(s) => s,
            ElementView::Audio(s) => s,
            ElementView::Text(s) => s,
        }
    }

    /// The wire value of this element: an object with one member, named
    /// after the kind.
    pub open spec fn to_json(self) -> JsonValue {
        JsonValue::empty_object().with(self.tag(), JsonValue::Text(self.content()))
    }

    /// The element that a wire value holds. The members `image`, `video`,
    /// `audio` and `text` are tried in this order; the first that is there
    /// and is a text decides.
    pub open spec fn from_json(j: JsonValue) -> Option<ElementView> {
        if j.req_text("image"@) is Some {
            Some(ElementView::Image(j.req_text("image"@)->0))
        } else if j.req_text("video"@) is Some {
            Some(ElementView::Video(j.req_text("video"@)->0))
        } else if j.req_text("audio"@) is Some {
            Some(ElementView::Audio(j.req_text("audio"@)->0))
        } else if j.req_text("text"@) is Some {
            Some(ElementView::Text(j.req_text("text"@)->0))
        } else {
            None
        }
    }

    /// This element with an address in place of the path of its file; a
    /// text stays as it is.
    pub open spec fn with_address(self, address: Seq<char>) -> ElementView {
        match self {
            ElementView::Image(_) => ElementView::Image(address),
            ElementView::Video(_) => ElementView::Video(address),
            ElementView::Audio(_) => ElementView::Audio(address),
            ElementView::Text(s) => ElementView::Text(s),
        }
    }

    /// Whether this element names a file that has yet to be uploaded: it is
    /// an image, a video or an audio, and what it holds is no address.
    pub open spec fn pending(self) -> bool {
        !(self is Text) && !url_parses(self.content())
    }
}

impl Element {
    /// Writes this element as a wire value.
    pub fn to_value(&self) -> (r: serde_json::Value)
        ensures
            value_model(r) == self@.to_json(),
    {
        let mut obj = value_object();
        match self {
            Element::Image(s) => put_text(&mut obj, "image", s.as_str()),
            Element::Video(s) => put_text(&mut obj, "video", s.as_str()),
            Element::Audio(s) => put_text(&mut obj, "audio", s.as_str()),
            Element::Text(s) => put_text(&mut obj, "text", s.as_str()),
        }
        obj
    }

    /// Reads an element from a wire value; a value that holds none is an
    /// element error.
    pub fn try_from(value: serde_json::Value) -> (r: Result<Element, DashScopeError>)
        ensures
            match r {
                Ok(e) => ElementView::from_json(value_model(value)) == Some(e@),
                Err(e) => ElementView::from_json(value_model(value)) is None && e@
                    == DashScopeErrorView::ElementError("Invalid element type."@),
            },
    {
        if let Some(s) = read_req_text(&value, "image") {
            return Ok(Element::Image(s));
        }
        if let Some(s) = read_req_text(&value, "video") {
            return Ok(Element::Video(s));
        }
        if let Some(s) = read_req_text(&value, "audio") {
            return Ok(Element::Audio(s));
        }
        if let Some(s) = read_req_text(&value, "text") {
            return Ok(Element::Text(s));
        }
        Err(DashScopeError::ElementError("Invalid element type.".to_owned()))
    }

    /// Whether this element names a file that has yet to be uploaded.
    pub fn is_pending(&self) -> (r: bool)
        ensures
            r == self@.pending(),
    {
        match self {
            Element::Image(s) => !is_valid_url(s.as_str()),
            Element::Video(s) => !is_valid_url(s.as_str()),
            Element::Audio(s) => !is_valid_url(s.as_str()),
            Element::Text(_) => false,
        }
    }

    /// This element with the address of the uploaded file in place of the
    /// path; a text stays as it is.
    pub fn uploaded(&self, address: String) -> (r: Element)
        ensures
            r@ == self@.with_address(address@),
    {
        match self {
            Element::Image(_) => Element::Image(address),
            Element::Video(_) => Element::Video(address),
            Element::Audio(_) => Element::Audio(address),
            Element::Text(s) => Element::Text(s.clone()),
        }
    }

    /// A copy of this element.
    pub fn duplicate(&self) -> (r: Element)
        ensures
            r@ == self@,
    {
        match self {
            Element::Image(s) => Element::Image(s.clone()),
            Element::Video(s) => Element::Video(s.clone()),
            Element::Audio(s) => Element::Audio(s.clone()),
            Element::Text(s) => Element::Text(s.clone()),
        }
    }
}


impl ElementView {
    /// The wire array of a run.
    pub open spec fn seq_to_json(ts: Seq<ElementView>) -> JsonValue {
        JsonValue::Array(Seq::new(ts.len(), |i: int| ts[i].to_json()))
    }

    /// The wire value of an optional run.
    pub open spec fn optional_seq_json(o: Option<Seq<ElementView>>) -> Option<JsonValue> {
        match o {
            Some(ts) => Some(ElementView::seq_to_json(ts)),
            None => None,
        }
    }
}

impl Element {
    /// The contents of a run of these.
    pub open spec fn seq_view(ts: Seq<Element>) -> Seq<ElementView> {
        Seq::new(ts.len(), |i: int| ts[i]@)
    }

    /// Writes a run as a wire array.
    pub fn write_seq(ts: &Vec<Element>) -> (r: serde_json::Value)
        ensures
            value_model(r) == ElementView::seq_to_json(Element::seq_view(ts@)),
    {
        let mut items: Vec<serde_json::Value> = Vec::new();
        let mut i: usize = 0;
        while i < ts.len()
            invariant
                i <= ts.len(),
                items@.len() == i,
                forall|k: int|
                    0 <= k < i ==> value_model(#[trigger] items@[k]) == ts@[k]@.to_json(),
            decreases ts.len() - i,
        {
            items.push(ts[i].to_value());
            i += 1;
        }
        proof {
            assert(models(items@) =~= Seq::new(
                ts@.len(),
                |i: int| Element::seq_view(ts@)[i].to_json(),
            ));
        }
        value_array(items)
    }

    /// An optional run as an optional wire value.
    pub fn optional_seq_value(o: &Option<Vec<Element>>) -> (r: Option<serde_json::Value>)
        ensures
            optional_model(r) == ElementView::optional_seq_json(
                match o {
                    Some(ts) => Some(Element::seq_view(ts@)),
                    None => None,
                },
            ),
    {
        match o {
            Some(ts) => Some(Element::write_seq(ts)),
            None => None,
        }
    }
}

/// One turn of a conversation: who speaks, and what.
#[derive(Debug, Clone, PartialEq, Eq)]
pub struct Message {
    pub role: String,
    pub contents: Vec<Element>,
}

/// The content of a [`Message`].
pub struct MessageView {
    pub role: Seq<char>,
    pub contents: Seq<ElementView>,
}

impl View for Message {
    type V = MessageView;

    open spec fn view(&self) -> MessageView {
        MessageView {
            role: self.role@,
            contents: Element::seq_view(self.contents@),
        }
    }
}

impl MessageView {
    /// The wire value of this message.
    pub open spec fn to_json(self) -> JsonValue {
        JsonValue::empty_object().with("role"@, JsonValue::Text(self.role)).with("content"@, ElementView::seq_to_json(self.contents))
    }

    /// The wire array of a run.
    pub open spec fn seq_to_json(ts: Seq<MessageView>) -> JsonValue {
        JsonValue::Array(Seq::new(ts.len(), |i: int| ts[i].to_json()))
    }

    /// The wire value of an optional run.
    pub open spec fn optional_seq_json(o: Option<Seq<MessageView>>) -> Option<JsonValue> {
        match o {
            Some(ts) => Some(MessageView::seq_to_json(ts)),
            None => None,
        }
    }
}

impl Message {
    /// The contents of a run of these.
    pub open spec fn seq_view(ts: Seq<Message>) -> Seq<MessageView> {
        Seq::new(ts.len(), |i: int| ts[i]@)
    }

    /// Writes this message as a wire value.
    pub fn to_value(&self) -> (r: serde_json::Value)
        ensures
            value_model(r) == self@.to_json(),
    {
        let mut obj = value_object();
        put_text(&mut obj, "role", self.role.as_str());
        put(&mut obj, "content", Element::write_seq(&self.contents));
        obj
    }

    /// Writes a run as a wire array.
    pub fn write_seq(ts: &Vec<Message>) -> (r: serde_json::Value)
        ensures
            value_model(r) == MessageView::seq_to_json(Message::seq_view(ts@)),
    {
        let mut items: Vec<serde_json::Value> = Vec::new();
        let mut i: usize = 0;
        while i < ts.len()
            invariant
                i <= ts.len(),
                items@.len() == i,
                forall|k: int|
                    0 <= k < i ==> value_model(#[trigger] items@[k]) == ts@[k]@.to_json(),
            decreases ts.len() - i,
        {
            items.push(ts[i].to_value());
            i += 1;
        }
        proof {
            assert(models(items@) =~= Seq::new(
                ts@.len(),
                |i: int| Message::seq_view(ts@)[i].to_json(),
            ));
        }
        value_array(items)
    }

    /// An optional run as an optional wire value.
    pub fn optional_seq_value(o: &Option<Vec<Message>>) -> (r: Option<serde_json::Value>)
        ensures
            optional_model(r) == MessageView::optional_seq_json(
                match o {
                    Some(ts) => Some(Message::seq_view(ts@)),
                    None => None,
                },
            ),
    {
        match o {
            Some(ts) => Some(Message::write_seq(ts)),
            None => None,
        }
    }
}

/// The messages of a conversation.
#[derive(Debug, Clone, PartialEq, Eq)]
pub struct Input {
    pub messages: Vec<Message>,
}

/// The content of an [`Input`].
pub struct InputView {
    pub messages: Seq<MessageView>,
}

impl View for Input {
    type V = InputView;

    open spec fn view(&self) -> InputView {
        InputView {
            messages: Message::seq_view(self.messages@),
        }
    }
}

impl InputView {
    /// The wire value of this input.
    pub open spec fn to_json(self) -> JsonValue {
        JsonValue::empty_object().with("messages"@, MessageView::seq_to_json(self.messages))
    }

    /// The wire value of an optional input.
    pub open spec fn optional_json(o: Option<InputView>) -> Option<JsonValue> {
        match o {
            Some(x) => Some(x.to_json()),
            None => None,
        }
    }
}

impl Input {
    /// Writes this input as a wire value.
    pub fn to_value(&self) -> (r: serde_json::Value)
        ensures
            value_model(r) == self@.to_json(),
    {
        let mut obj = value_object();
        put(&mut obj, "messages", Message::write_seq(&self.messages));
        obj
    }

    /// An optional input as an optional wire value.
    pub fn optional_value(o: &Option<Input>) -> (r: Option<serde_json::Value>)
        ensures
            optional_model(r) == InputView::optional_json(
                match o {
                    Some(t) => Some(t@),
                    None => None,
                },
            ),
    {
        match o {
            Some(t) => Some(t.to_value()),
            None => None,
        }
    }
}

/// A request for an answer to a conversation in text, images, audio and video.
#[derive(Debug, Clone, PartialEq)]
pub struct MultiModalConversationParam {
    pub model: String,
    pub input: Input,
    /// Whether the answer is to be streamed.
    pub stream: Option<bool>,
    pub parameters: Option<Parameters>,
}

/// The content of a [`MultiModalConversationParam`].
pub struct MultiModalConversationParamView {
    pub model: Seq<char>,
    pub input: InputView,
    pub stream: Option<bool>,
    pub parameters: Option<ParametersView>,
}

impl View for MultiModalConversationParam {
    type V = MultiModalConversationParamView;

    open spec fn view(&self) -> MultiModalConversationParamView {
        MultiModalConversationParamView {
            model: self.model@,
            input: self.input@,
            stream: self.stream,
            parameters: match self.parameters {
                Some(x) => Some(x@),
                None => None,
            },
        }
    }
}

impl MultiModalConversationParamView {
    /// The wire value of this request.
    pub open spec fn to_json(self) -> JsonValue {
        JsonValue::empty_object().with("model"@, JsonValue::Text(self.model)).with("input"@, self.input.to_json()).with("stream"@, or_null(boolean_json(self.stream))).with_opt("parameters"@, ParametersView::optional_json(self.parameters))
    }
}

impl MultiModalConversationParam {
    /// Writes this request as a wire value.
    pub fn to_value(&self) -> (r: serde_json::Value)
        ensures
            value_model(r) == self@.to_json(),
    {
        let mut obj = value_object();
        put_text(&mut obj, "model", self.model.as_str());
        put(&mut obj, "input", self.input.to_value());
        put_or_null(&mut obj, "stream", boolean_value(self.stream));
        put_opt(&mut obj, "parameters", Parameters::optional_value(&self.parameters));
        obj
    }

    /// Writes this request as the text of a body: the rendering of its wire
    /// value. Writing never fails.
    pub fn encode(&self) -> (r: Result<String, DashScopeError>)
        ensures
            r is Ok,
            r matches Ok(s) ==> s@ == rendered(self@.to_json()),
    {
        match render_value(&self.to_value()) {
            Ok(s) => Ok(s),
            Err(e) => Err(not_written(&e)),
        }
    }
}

impl Message {
    /// A message of the given role with the given pieces.
    pub fn new(role: &str, contents: Vec<Element>) -> (r: Message)
        ensures
            r@ == (MessageView { role: role@, contents: Element::seq_view(contents@) }),
    {
        Message { role: role.to_owned(), contents }
    }

    /// Adds a piece at the end.
    pub fn push_content(&mut self, content: Element)
        ensures
            final(self)@ == (MessageView {
                role: old(self)@.role,
                contents: old(self)@.contents.push(content@),
            }),
    {
        self.contents.push(content);
        proof {
            assert(Element::seq_view(self.contents@) =~= Element::seq_view(
                old(self).contents@,
            ).push(content@));
        }
    }

    /// The place of the first piece of this message that names a file yet
    /// to be uploaded, if there is one.
    pub fn next_pending(&self) -> (r: Option<usize>)
        ensures
            match r {
                Some(j) => j < self@.contents.len() && self@.contents[j as int].pending()
                    && forall|k: int| 0 <= k < j ==> !(#[trigger] self@.contents[k]).pending(),
                None => forall|k: int|
                    0 <= k < self@.contents.len() ==> !(#[trigger] self@.contents[k]).pending(),
            },
    {
        let mut j: usize = 0;
        while j < self.contents.len()
            invariant
                j <= self.contents.len(),
                forall|k: int| 0 <= k < j ==> !(#[trigger] self@.contents[k]).pending(),
            decreases self.contents.len() - j,
        {
            if self.contents[j].is_pending() {
                return Some(j);
            }
            j += 1;
        }
        None
    }
}

impl RequestTrait for MultiModalConversationParam {
    type P = Parameters;

    open spec fn model_text(&self) -> Seq<char> {
        self.model@
    }

    open spec fn shared_parameters(&self) -> Option<Parameters> {
        self.parameters
    }

    fn model(&self) -> (r: &str) {
        self.model.as_str()
    }

    fn parameters(&self) -> (r: Option<&Parameters>) {
        self.parameters.as_ref()
    }
}

/// One file of a request that has yet to be uploaded.
#[derive(Debug, Clone, PartialEq, Eq)]
pub struct PendingUpload {
    /// Which message names the file.
    pub message: usize,
    /// Which piece of that message.
    pub content: usize,
    /// The path of the file.
    pub path: String,
}

impl MultiModalConversationParamView {
    /// Whether the piece at the given place names a file yet to be uploaded.
    pub open spec fn pending_at(self, i: int, j: int) -> bool {
        0 <= i < self.input.messages.len() && 0 <= j < self.input.messages[i].contents.len()
            && self.input.messages[i].contents[j].pending()
    }

    /// Whether the place `(i, j)` comes before `(m, c)`, reading message by
    /// message and piece by piece.
    pub open spec fn before(i: int, j: int, m: int, c: int) -> bool {
        i < m || (i == m && j < c)
    }

    /// This request with an address in the place of the path of one file.
    pub open spec fn with_uploaded(self, i: int, j: int, address: Seq<char>) -> Self {
        let message = self.input.messages[i];
        MultiModalConversationParamView {
            input: InputView {
                messages: self.input.messages.update(
                    i,
                    MessageView {
                        role: message.role,
                        contents: message.contents.update(
                            j,
                            message.contents[j].with_address(address),
                        ),
                    },
                ),
            },
            ..self
        }
    }

    /// Whether nothing is left to upload.
    pub open spec fn settled(self) -> bool {
        forall|i: int, j: int| !#[trigger] self.pending_at(i, j)
    }
}

impl MultiModalConversationParam {
    /// The first file that has yet to be uploaded, reading message by
    /// message and piece by piece; `None` when the request can be sent.
    pub fn next_upload(&self) -> (r: Option<PendingUpload>)
        ensures
            match r {
                Some(p) => self@.pending_at(p.message as int, p.content as int) && p.path@
                    == self@.input.messages[p.message as int].contents[p.content as int].content()
                    && forall|i: int, j: int|
                    MultiModalConversationParamView::before(
                        i,
                        j,
                        p.message as int,
                        p.content as int,
                    ) ==> !#[trigger] self@.pending_at(i, j),
                None => self@.settled(),
            },
    {
        let mut i: usize = 0;
        while i < self.input.messages.len()
            invariant
                i <= self.input.messages.len(),
                forall|a: int, b: int| a < i ==> !#[trigger] self@.pending_at(a, b),
            decreases self.input.messages.len() - i,
        {
            match self.input.messages[i].next_pending() {
                Some(j) => {
                    let path = match &self.input.messages[i].contents[j] {
                        Element::Image(s) => s.clone(),
                        Element::Video(s) => s.clone(),
                        Element::Audio(s) => s.clone(),
                        Element::Text(s) => s.clone(),
                    };
                    assert(self.input.messages@[i as int]@.contents[j as int]
                        == self.input.messages@[i as int].contents@[j as int]@);
                    proof {
                        assert(self@.input.messages[i as int] == self.input.messages@[i as int]@);
                        assert(self@.input.messages[i as int].contents[j as int]
                            == self.input.messages@[i as int].contents@[j as int]@);
                    }
                    return Some(PendingUpload { message: i, content: j, path });
                },
                None => {
                    proof {
                        assert(self@.input.messages[i as int] == self.input.messages@[i as int]@);
                    }
                },
            }
            i += 1;
        }
        None
    }

    /// Puts the address of an uploaded file in the place of its path.
    pub fn set_uploaded(&mut self, message: usize, content: usize, address: String)
        requires
            message < old(self)@.input.messages.len(),
            content < old(self)@.input.messages[message as int].contents.len(),
        ensures
            final(self)@ == old(self)@.with_uploaded(message as int, content as int, address@),
    {
        let ghost before = self@;
        proof {
            assert(before.input.messages[message as int] == self.input.messages@[message as int]@);
        }
        let n = self.input.messages[message].contents.len();
        let mut contents: Vec<Element> = Vec::new();
        let mut k: usize = 0;
        while k < n
            invariant
                k <= n,
                message < self.input.messages@.len(),
                n == self.input.messages@[message as int].contents@.len(),
                content < n,
                self@ == before,
                contents@.len() == k,
                forall|i: int|
                    0 <= i < k ==> (#[trigger] contents@[i])@ == (if i == content {
                        self.input.messages@[message as int].contents@[i]@.with_address(address@)
                    } else {
                        self.input.messages@[message as int].contents@[i]@
                    }),
            decreases n - k,
        {
            if k == content {
                contents.push(self.input.messages[message].contents[k].uploaded(address.clone()));
            } else {
                contents.push(self.input.messages[message].contents[k].duplicate());
            }
            k += 1;
        }
        let changed = Message { role: self.input.messages[message].role.clone(), contents };
        proof {
            let old_message = before.input.messages[message as int];
            assert(changed@.contents =~= old_message.contents.update(
                content as int,
                old_message.contents[content as int].with_address(address@),
            ));
        }
        self.input.messages.set(message, changed);
        proof {
            assert(self@.input.messages =~= before.with_uploaded(
                message as int,
                content as int,
                address@,
            ).input.messages);
        }
    }
}

} // verus!
