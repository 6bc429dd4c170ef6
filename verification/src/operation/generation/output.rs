//! The answer of text generation.

use crate::body::{not_json, unreadable, wrong_shape};
use crate::error::DashScopeError;
use crate::json::{
    JsonValue, models, parse_value, parsed, value_as_array, value_get, value_is_object, value_model,
};
use crate::operation::common::{Usage, UsageView};
use crate::wire::{read_member, read_opt_text, read_req_i32, read_req_text, text_view};
use vstd::prelude::*;

verus! {

/// What the model has answered.
#[derive(Debug, Clone, PartialEq, Eq)]
pub struct Message {
    pub content: String,
    pub role: String,
    /// What the model has thought.
    pub reasoning_content: Option<String>,
}

/// The content of a [`Message`].
pub struct MessageView {
    pub content: Seq<char>,
    pub role: Seq<char>,
    pub reasoning_content: Option<Seq<char>>,
}

impl View for Message {
    type V = MessageView;

    open spec fn view(&self) -> MessageView {
        MessageView {
            content: self.content@,
            role: self.role@,
            reasoning_content: text_view(self.reasoning_content),
        }
    }
}

impl MessageView {
    /// The message that a wire value holds, if it has the shape of one.
    pub open spec fn from_json(j: JsonValue) -> Option<MessageView> {
        let content = j.req_text("content"@);
        let role = j.req_text("role"@);
        let reasoning_content = j.opt_text("reasoning_content"@);
        if j is Object
            && content is Some
            && role is Some
            && reasoning_content is Some {
            Some(
                MessageView {
                    content: content->0,
                    role: role->0,
                    reasoning_content: reasoning_content->0,
                },
            )
        } else {
            None
        }
    }

    /// The required member `key`, read as a message.
    pub open spec fn required(j: JsonValue, key: Seq<char>) -> Option<MessageView> {
        match j.field(key) {
            Some(c) => MessageView::from_json(c),
            None => None,
        }
    }

    /// The optional member `key`, read as a message; the outer `None` is a mismatch.
    pub open spec fn optional(j: JsonValue, key: Seq<char>) -> Option<Option<MessageView>> {
        match j.member(key) {
            None => Some(None),
            Some(c) => match MessageView::from_json(c) {
                Some(x) => Some(Some(x)),
                None => None,
            },
        }
    }
}

impl Message {
    /// Reads a message out of a wire value.
    pub fn from_value(v: &serde_json::Value) -> (r: Option<Message>)
        ensures
            match r {
                Some(t) => MessageView::from_json(value_model(*v)) == Some(t@),
                None => MessageView::from_json(value_model(*v)) is None,
            },
    {
        if !value_is_object(v) {
            return None;
        }
        let content = match read_req_text(v, "content") {
            Some(x) => x,
            None => return None,
        };
        let role = match read_req_text(v, "role") {
            Some(x) => x,
            None => return None,
        };
        let reasoning_content = match read_opt_text(v, "reasoning_content") {
            Ok(x) => x,
            Err(_) => return None,
        };
        Some(Message { content, role, reasoning_content })
    }

    /// Reads the required member `key` as a message.
    pub fn read_required(v: &serde_json::Value, key: &str) -> (r: Option<Message>)
        ensures
            match r {
                Some(t) => MessageView::required(value_model(*v), key@) == Some(t@),
                None => MessageView::required(value_model(*v), key@) is None,
            },
    {
        match value_get(v, key) {
            Some(c) => Message::from_value(c),
            None => None,
        }
    }

    /// Reads the optional member `key` as a message; `Err` is a mismatch.
    pub fn read_optional(v: &serde_json::Value, key: &str) -> (r: Result<Option<Message>, ()>)
        ensures
            match r {
                Ok(o) => MessageView::optional(value_model(*v), key@) == Some(
                    match o {
                        Some(t) => Some(t@),
                        None => None,
                    },
                ),
                Err(_) => MessageView::optional(value_model(*v), key@) is None,
            },
    {
        match read_member(v, key) {
            None => Ok(None),
            Some(c) => match Message::from_value(c) {
                Some(t) => Ok(Some(t)),
                None => Err(()),
            },
        }
    }
}

/// One answer of the model.
#[derive(Debug, Clone, PartialEq, Eq)]
pub struct Choices {
    /// Absent while the answer goes on; `stop` at its end.
    pub finish_reason: Option<String>,
    pub message: Message,
}

/// The content of a [`Choices`].
pub struct ChoicesView {
    pub finish_reason: Option<Seq<char>>,
    pub message: MessageView,
}

impl View for Choices {
    type V = ChoicesView;

    open spec fn view(&self) -> ChoicesView {
        ChoicesView {
            finish_reason: text_view(self.finish_reason),
            message: self.message@,
        }
    }
}

impl ChoicesView {
    /// The choice that a wire value holds, if it has the shape of one.
    pub open spec fn from_json(j: JsonValue) -> Option<ChoicesView> {
        let finish_reason = j.opt_text("finish_reason"@);
        let message = MessageView::required(j, "message"@);
        if j is Object
            && finish_reason is Some
            && message is Some {
            Some(
                ChoicesView {
                    finish_reason: finish_reason->0,
                    message: message->0,
                },
            )
        } else {
            None
        }
    }

    /// The run that a wire array holds, if every item has the shape of a choice.
    pub open spec fn seq_from_json(j: JsonValue) -> Option<Seq<ChoicesView>> {
        match j {
            JsonValue::Array(items) => if forall|i: int|
                0 <= i < items.len() ==> (#[trigger] ChoicesView::from_json(items[i])) is Some {
                Some(Seq::new(items.len(), |i: int| ChoicesView::from_json(items[i])->0))
            } else {
                None
            },
            _ => None,
        }
    }

    /// The required member `key`, read as a run.
    pub open spec fn required_seq(j: JsonValue, key: Seq<char>) -> Option<Seq<ChoicesView>> {
        match j.field(key) {
            Some(c) => ChoicesView::seq_from_json(c),
            None => None,
        }
    }

    /// The optional member `key`, read as a run; the outer `None` is a mismatch.
    pub open spec fn optional_seq(j: JsonValue, key: Seq<char>) -> Option<Option<Seq<ChoicesView>>> {
        match j.member(key) {
            None => Some(None),
            Some(c) => match ChoicesView::seq_from_json(c) {
                Some(x) => Some(Some(x)),
                None => None,
            },
        }
    }
}

impl Choices {
    /// The contents of a run of these.
    pub open spec fn seq_view(ts: Seq<Choices>) -> Seq<ChoicesView> {
        Seq::new(ts.len(), |i: int| ts[i]@)
    }

    /// Reads a choice out of a wire value.
    pub fn from_value(v: &serde_json::Value) -> (r: Option<Choices>)
        ensures
            match r {
                Some(t) => ChoicesView::from_json(value_model(*v)) == Some(t@),
                None => ChoicesView::from_json(value_model(*v)) is None,
            },
    {
        if !value_is_object(v) {
            return None;
        }
        let finish_reason = match read_opt_text(v, "finish_reason") {
            Ok(x) => x,
            Err(_) => return None,
        };
        let message = match Message::read_required(v, "message") {
            Some(x) => x,
            None => return None,
        };
        Some(Choices { finish_reason, message })
    }

    /// Reads a run out of a wire array.
    pub fn read_seq(v: &serde_json::Value) -> (r: Option<Vec<Choices>>)
        ensures
            match r {
                Some(ts) => ChoicesView::seq_from_json(value_model(*v)) == Some(Choices::seq_view(ts@)),
                None => ChoicesView::seq_from_json(value_model(*v)) is None,
            },
    {
        let items = match value_as_array(v) {
            Some(a) => a,
            None => return None,
        };
        let ghost docs = models(items@);
        let mut out: Vec<Choices> = Vec::new();
        let mut i: usize = 0;
        while i < items.len()
            invariant
                i <= items.len(),
                out@.len() == i,
                docs == models(items@),
                value_model(*v) == JsonValue::Array(docs),
                forall|k: int|
                    0 <= k < i ==> ChoicesView::from_json(docs[k]) == Some(#[trigger] out@[k]@),
            decreases items.len() - i,
        {
            match Choices::from_value(&items[i]) {
                Some(t) => {
                    out.push(t);
                },
                None => {
                    proof {
                        assert(ChoicesView::from_json(docs[i as int]) is None);
                    }
                    return None;
                },
            }
            i += 1;
        }
        proof {
            assert forall|k: int| 0 <= k < docs.len() implies (#[trigger] ChoicesView::from_json(
                docs[k],
            )) == Some(out@[k]@) by {
                let _ = out@[k]@;
            }
            assert(ChoicesView::seq_from_json(value_model(*v))->0 =~= Choices::seq_view(out@));
        }
        Some(out)
    }

    /// Reads the required member `key` as a run.
    pub fn read_required_seq(v: &serde_json::Value, key: &str) -> (r: Option<Vec<Choices>>)
        ensures
            match r {
                Some(ts) => ChoicesView::required_seq(value_model(*v), key@) == Some(
                    Choices::seq_view(ts@),
                ),
                None => ChoicesView::required_seq(value_model(*v), key@) is None,
            },
    {
        match value_get(v, key) {
            Some(c) => Choices::read_seq(c),
            None => None,
        }
    }

    /// Reads the optional member `key` as a run; `Err` is a mismatch.
    pub fn read_optional_seq(v: &serde_json::Value, key: &str) -> (r: Result<
        Option<Vec<Choices>>,
        (),
    >)
        ensures
            match r {
                Ok(o) => ChoicesView::optional_seq(value_model(*v), key@) == Some(
                    match o {
                        Some(ts) => Some(Choices::seq_view(ts@)),
                        None => None,
                    },
                ),
                Err(_) => ChoicesView::optional_seq(value_model(*v), key@) is None,
            },
    {
        match read_member(v, key) {
            None => Ok(None),
            Some(c) => match Choices::read_seq(c) {
                Some(ts) => Ok(Some(ts)),
                None => Err(()),
            },
        }
    }
}

/// One page that a search has found.
#[derive(Debug, Clone, PartialEq, Eq)]
pub struct SearchResult {
    pub site_name: String,
    pub icon: Option<String>,
    pub index: i32,
    pub title: Option<String>,
    pub url: String,
}

/// The content of a [`SearchResult`].
pub struct SearchResultView {
    pub site_name: Seq<char>,
    pub icon: Option<Seq<char>>,
    pub index: i32,
    pub title: Option<Seq<char>>,
    pub url: Seq<char>,
}

impl View for SearchResult {
    type V = SearchResultView;

    open spec fn view(&self) -> SearchResultView {
        SearchResultView {
            site_name: self.site_name@,
            icon: text_view(self.icon),
            index: self.index,
            title: text_view(self.title),
            url: self.url@,
        }
    }
}

impl SearchResultView {
    /// The search result that a wire value holds, if it has the shape of one.
    pub open spec fn from_json(j: JsonValue) -> Option<SearchResultView> {
        let site_name = j.req_text("site_name"@);
        let icon = j.opt_text("icon"@);
        let index = j.req_i32("index"@);
        let title = j.opt_text("title"@);
        let url = j.req_text("url"@);
        if j is Object
            && site_name is Some
            && icon is Some
            && index is Some
            && title is Some
            && url is Some {
            Some(
                SearchResultView {
                    site_name: site_name->0,
                    icon: icon->0,
                    index: index->0,
                    title: title->0,
                    url: url->0,
                },
            )
        } else {
            None
        }
    }

    /// The run that a wire array holds, if every item has the shape of a search result.
    pub open spec fn seq_from_json(j: JsonValue) -> Option<Seq<SearchResultView>> {
        match j {
            JsonValue::Array(items) => if forall|i: int|
                0 <= i < items.len() ==> (#[trigger] SearchResultView::from_json(items[i])) is Some {
                Some(Seq::new(items.len(), |i: int| SearchResultView::from_json(items[i])->0))
            } else {
                None
            },
            _ => None,
        }
    }

    /// The required member `key`, read as a run.
    pub open spec fn required_seq(j: JsonValue, key: Seq<char>) -> Option<Seq<SearchResultView>> {
        match j.field(key) {
            Some(c) => SearchResultView::seq_from_json(c),
            None => None,
        }
    }

    /// The optional member `key`, read as a run; the outer `None` is a mismatch.
    pub open spec fn optional_seq(j: JsonValue, key: Seq<char>) -> Option<Option<Seq<SearchResultView>>> {
        match j.member(key) {
            None => Some(None),
            Some(c) => match SearchResultView::seq_from_json(c) {
                Some(x) => Some(Some(x)),
                None => None,
            },
        }
    }
}

impl SearchResult {
    /// The contents of a run of these.
    pub open spec fn seq_view(ts: Seq<SearchResult>) -> Seq<SearchResultView> {
        Seq::new(ts.len(), |i: int| ts[i]@)
    }

    /// Reads a search result out of a wire value.
    pub fn from_value(v: &serde_json::Value) -> (r: Option<SearchResult>)
        ensures
            match r {
                Some(t) => SearchResultView::from_json(value_model(*v)) == Some(t@),
                None => SearchResultView::from_json(value_model(*v)) is None,
            },
    {
        if !value_is_object(v) {
            return None;
        }
        let site_name = match read_req_text(v, "site_name") {
            Some(x) => x,
            None => return None,
        };
        let icon = match read_opt_text(v, "icon") {
            Ok(x) => x,
            Err(_) => return None,
        };
        let index = match read_req_i32(v, "index") {
            Some(x) => x,
            None => return None,
        };
        let title = match read_opt_text(v, "title") {
            Ok(x) => x,
            Err(_) => return None,
        };
        let url = match read_req_text(v, "url") {
            Some(x) => x,
            None => return None,
        };
        Some(SearchResult { site_name, icon, index, title, url })
    }

    /// Reads a run out of a wire array.
    pub fn read_seq(v: &serde_json::Value) -> (r: Option<Vec<SearchResult>>)
        ensures
            match r {
                Some(ts) => SearchResultView::seq_from_json(value_model(*v)) == Some(SearchResult::seq_view(ts@)),
                None => SearchResultView::seq_from_json(value_model(*v)) is None,
            },
    {
        let items = match value_as_array(v) {
            Some(a) => a,
            None => return None,
        };
        let ghost docs = models(items@);
        let mut out: Vec<SearchResult> = Vec::new();
        let mut i: usize = 0;
        while i < items.len()
            invariant
                i <= items.len(),
                out@.len() == i,
                docs == models(items@),
                value_model(*v) == JsonValue::Array(docs),
                forall|k: int|
                    0 <= k < i ==> SearchResultView::from_json(docs[k]) == Some(#[trigger] out@[k]@),
            decreases items.len() - i,
        {
            match SearchResult::from_value(&items[i]) {
                Some(t) => {
                    out.push(t);
                },
                None => {
                    proof {
                        assert(SearchResultView::from_json(docs[i as int]) is None);
                    }
                    return None;
                },
            }
            i += 1;
        }
        proof {
            assert forall|k: int| 0 <= k < docs.len() implies (#[trigger] SearchResultView::from_json(
                docs[k],
            )) == Some(out@[k]@) by {
                let _ = out@[k]@;
            }
            assert(SearchResultView::seq_from_json(value_model(*v))->0 =~= SearchResult::seq_view(out@));
        }
        Some(out)
    }

    /// Reads the required member `key` as a run.
    pub fn read_required_seq(v: &serde_json::Value, key: &str) -> (r: Option<Vec<SearchResult>>)
        ensures
            match r {
                Some(ts) => SearchResultView::required_seq(value_model(*v), key@) == Some(
                    SearchResult::seq_view(ts@),
                ),
                None => SearchResultView::required_seq(value_model(*v), key@) is None,
            },
    {
        match value_get(v, key) {
            Some(c) => SearchResult::read_seq(c),
            None => None,
        }
    }

    /// Reads the optional member `key` as a run; `Err` is a mismatch.
    pub fn read_optional_seq(v: &serde_json::Value, key: &str) -> (r: Result<
        Option<Vec<SearchResult>>,
        (),
    >)
        ensures
            match r {
                Ok(o) => SearchResultView::optional_seq(value_model(*v), key@) == Some(
                    match o {
                        Some(ts) => Some(SearchResult::seq_view(ts@)),
                        None => None,
                    },
                ),
                Err(_) => SearchResultView::optional_seq(value_model(*v), key@) is None,
            },
    {
        match read_member(v, key) {
            None => Ok(None),
            Some(c) => match SearchResult::read_seq(c) {
                Some(ts) => Ok(Some(ts)),
                None => Err(()),
            },
        }
    }
}

/// What a search has found.
#[derive(Debug, Clone, PartialEq, Eq)]
pub struct SearchInfo {
    pub search_results: Vec<SearchResult>,
}

/// The content of a [`SearchInfo`].
pub struct SearchInfoView {
    pub search_results: Seq<SearchResultView>,
}

impl View for SearchInfo {
    type V = SearchInfoView;

    open spec fn view(&self) -> SearchInfoView {
        SearchInfoView {
            search_results: SearchResult::seq_view(self.search_results@),
        }
    }
}

impl SearchInfoView {
    /// The search report that a wire value holds, if it has the shape of one.
    pub open spec fn from_json(j: JsonValue) -> Option<SearchInfoView> {
        let search_results = SearchResultView::required_seq(j, "search_results"@);
        if j is Object
            && search_results is Some {
            Some(
                SearchInfoView {
                    search_results: search_results->0,
                },
            )
        } else {
            None
        }
    }

    /// The required member `key`, read as a search report.
    pub open spec fn required(j: JsonValue, key: Seq<char>) -> Option<SearchInfoView> {
        match j.field(key) {
            Some(c) => SearchInfoView::from_json(c),
            None => None,
        }
    }

    /// The optional member `key`, read as a search report; the outer `None` is a mismatch.
    pub open spec fn optional(j: JsonValue, key: Seq<char>) -> Option<Option<SearchInfoView>> {
        match j.member(key) {
            None => Some(None),
            Some(c) => match SearchInfoView::from_json(c) {
                Some(x) => Some(Some(x)),
                None => None,
            },
        }
    }
}

impl SearchInfo {
    /// Reads a search report out of a wire value.
    pub fn from_value(v: &serde_json::Value) -> (r: Option<SearchInfo>)
        ensures
            match r {
                Some(t) => SearchInfoView::from_json(value_model(*v)) == Some(t@),
                None => SearchInfoView::from_json(value_model(*v)) is None,
            },
    {
        if !value_is_object(v) {
            return None;
        }
        let search_results = match SearchResult::read_required_seq(v, "search_results") {
            Some(x) => x,
            None => return None,
        };
        Some(SearchInfo { search_results })
    }

    /// Reads the required member `key` as a search report.
    pub fn read_required(v: &serde_json::Value, key: &str) -> (r: Option<SearchInfo>)
        ensures
            match r {
                Some(t) => SearchInfoView::required(value_model(*v), key@) == Some(t@),
                None => SearchInfoView::required(value_model(*v), key@) is None,
            },
    {
        match value_get(v, key) {
            Some(c) => SearchInfo::from_value(c),
            None => None,
        }
    }

    /// Reads the optional member `key` as a search report; `Err` is a mismatch.
    pub fn read_optional(v: &serde_json::Value, key: &str) -> (r: Result<Option<SearchInfo>, ()>)
        ensures
            match r {
                Ok(o) => SearchInfoView::optional(value_model(*v), key@) == Some(
                    match o {
                        Some(t) => Some(t@),
                        None => None,
                    },
                ),
                Err(_) => SearchInfoView::optional(value_model(*v), key@) is None,
            },
    {
        match read_member(v, key) {
            None => Ok(None),
            Some(c) => match SearchInfo::from_value(c) {
                Some(t) => Ok(Some(t)),
                None => Err(()),
            },
        }
    }
}

/// The answers of the model.
#[derive(Debug, Clone, PartialEq, Eq)]
pub struct Output {
    pub choices: Vec<Choices>,
    pub text: Option<String>,
    pub finish_reason: Option<String>,
    pub search_info: Option<SearchInfo>,
}

/// The content of an [`Output`].
pub struct OutputView {
    pub choices: Seq<ChoicesView>,
    pub text: Option<Seq<char>>,
    pub finish_reason: Option<Seq<char>>,
    pub search_info: Option<SearchInfoView>,
}

impl View for Output {
    type V = OutputView;

    open spec fn view(&self) -> OutputView {
        OutputView {
            choices: Choices::seq_view(self.choices@),
            text: text_view(self.text),
            finish_reason: text_view(self.finish_reason),
            search_info: match self.search_info {
                Some(x) => Some(x@),
                None => None,
            },
        }
    }
}

impl OutputView {
    /// The output that a wire value holds, if it has the shape of one.
    pub open spec fn from_json(j: JsonValue) -> Option<OutputView> {
        let choices = ChoicesView::required_seq(j, "choices"@);
        let text = j.opt_text("text"@);
        let finish_reason = j.opt_text("finish_reason"@);
        let search_info = SearchInfoView::optional(j, "search_info"@);
        if j is Object
            && choices is Some
            && text is Some
            && finish_reason is Some
            && search_info is Some {
            Some(
                OutputView {
                    choices: choices->0,
                    text: text->0,
                    finish_reason: finish_reason->0,
                    search_info: search_info->0,
                },
            )
        } else {
            None
        }
    }

    /// The required member `key`, read as an output.
    pub open spec fn required(j: JsonValue, key: Seq<char>) -> Option<OutputView> {
        match j.field(key) {
            Some(c) => OutputView::from_json(c),
            None => None,
        }
    }

    /// The optional member `key`, read as an output; the outer `None` is a mismatch.
    pub open spec fn optional(j: JsonValue, key: Seq<char>) -> Option<Option<OutputView>> {
        match j.member(key) {
            None => Some(None),
            Some(c) => match OutputView::from_json(c) {
                Some(x) => Some(Some(x)),
                None => None,
            },
        }
    }
}

impl Output {
    /// Reads an output out of a wire value.
    pub fn from_value(v: &serde_json::Value) -> (r: Option<Output>)
        ensures
            match r {
                Some(t) => OutputView::from_json(value_model(*v)) == Some(t@),
                None => OutputView::from_json(value_model(*v)) is None,
            },
    {
        if !value_is_object(v) {
            return None;
        }
        let choices = match Choices::read_required_seq(v, "choices") {
            Some(x) => x,
            None => return None,
        };
        let text = match read_opt_text(v, "text") {
            Ok(x) => x,
            Err(_) => return None,
        };
        let finish_reason = match read_opt_text(v, "finish_reason") {
            Ok(x) => x,
            Err(_) => return None,
        };
        let search_info = match SearchInfo::read_optional(v, "search_info") {
            Ok(x) => x,
            Err(_) => return None,
        };
        Some(Output { choices, text, finish_reason, search_info })
    }

    /// Reads the required member `key` as an output.
    pub fn read_required(v: &serde_json::Value, key: &str) -> (r: Option<Output>)
        ensures
            match r {
                Some(t) => OutputView::required(value_model(*v), key@) == Some(t@),
                None => OutputView::required(value_model(*v), key@) is None,
            },
    {
        match value_get(v, key) {
            Some(c) => Output::from_value(c),
            None => None,
        }
    }

    /// Reads the optional member `key` as an output; `Err` is a mismatch.
    pub fn read_optional(v: &serde_json::Value, key: &str) -> (r: Result<Option<Output>, ()>)
        ensures
            match r {
                Ok(o) => OutputView::optional(value_model(*v), key@) == Some(
                    match o {
                        Some(t) => Some(t@),
                        None => None,
                    },
                ),
                Err(_) => OutputView::optional(value_model(*v), key@) is None,
            },
    {
        match read_member(v, key) {
            None => Ok(None),
            Some(c) => match Output::from_value(c) {
                Some(t) => Ok(Some(t)),
                None => Err(()),
            },
        }
    }
}

/// The answer to a request to generate text.
#[derive(Debug, Clone, PartialEq, Eq)]
pub struct GenerationOutput {
    pub output: Output,
    pub request_id: Option<String>,
    pub usage: Option<Usage>,
}

/// The content of a [`GenerationOutput`].
pub struct GenerationOutputView {
    pub output: OutputView,
    pub request_id: Option<Seq<char>>,
    pub usage: Option<UsageView>,
}

impl View for GenerationOutput {
    type V = GenerationOutputView;

    open spec fn view(&self) -> GenerationOutputView {
        GenerationOutputView {
            output: self.output@,
            request_id: text_view(self.request_id),
            usage: match self.usage {
                Some(x) => Some(x@),
                None => None,
            },
        }
    }
}

impl GenerationOutputView {
    /// The answer that a wire value holds, if it has the shape of one.
    pub open spec fn from_json(j: JsonValue) -> Option<GenerationOutputView> {
        let output = OutputView::required(j, "output"@);
        let request_id = j.opt_text("request_id"@);
        let usage = UsageView::optional(j, "usage"@);
        if j is Object
            && output is Some
            && request_id is Some
            && usage is Some {
            Some(
                GenerationOutputView {
                    output: output->0,
                    request_id: request_id->0,
                    usage: usage->0,
                },
            )
        } else {
            None
        }
    }
}

impl GenerationOutput {
    /// Reads an answer out of a wire value.
    pub fn from_value(v: &serde_json::Value) -> (r: Option<GenerationOutput>)
        ensures
            match r {
                Some(t) => GenerationOutputView::from_json(value_model(*v)) == Some(t@),
                None => GenerationOutputView::from_json(value_model(*v)) is None,
            },
    {
        if !value_is_object(v) {
            return None;
        }
        let output = match Output::read_required(v, "output") {
            Some(x) => x,
            None => return None,
        };
        let request_id = match read_opt_text(v, "request_id") {
            Ok(x) => x,
            Err(_) => return None,
        };
        let usage = match Usage::read_optional(v, "usage") {
            Ok(x) => x,
            Err(_) => return None,
        };
        Some(GenerationOutput { output, request_id, usage })
    }

    /// Reads an answer from the text of a body. A text that is no JSON
    /// document, or a document in another shape, is a deserialization error
    /// that keeps the text.
    pub fn decode(text: &str) -> (r: Result<GenerationOutput, DashScopeError>)
        ensures
            match r {
                Ok(t) => parsed(text@) is Ok && GenerationOutputView::from_json(parsed(text@)->Ok_0) == Some(
                    t@,
                ),
                Err(e) => (parsed(text@) is Err || GenerationOutputView::from_json(parsed(text@)->Ok_0) is None)
                    && e@ == unreadable(text@),
            },
    {
        match parse_value(text) {
            Ok(v) => match GenerationOutput::from_value(&v) {
                Some(t) => Ok(t),
                None => Err(wrong_shape(text)),
            },
            Err(e) => Err(not_json(&e, text)),
        }
    }
}

} // verus!
