//! Outbound commands: the three shapes that a client sends, how they are
//! built, and how they are written to the wire.

use crate::body::{not_json, not_written, unreadable, wrong_shape};
use crate::error::{BuilderError, DashScopeError};
use crate::json::{
    JsonValue, parse_value, parsed, render_value, rendered, str_eq, value_as_str, value_get,
    value_is_object, value_model, value_object, value_set, value_text,
};
use crate::wire::{
    boolean_json, boolean_value, copy_value, opt_texts_view, optional_model, or_null, put, put_opt,
    put_or_null, put_text, read_member, read_opt_boolean, read_opt_number, read_opt_text,
    read_opt_texts, read_opt_u32, read_opt_u8, read_req_object, read_req_text, read_text, text_json,
    text_value, text_view, texts_json, texts_value, u32_json, u32_value, u8_json, u8_value,
};
use vstd::prelude::*;
use vstd::string::*;

verus! {

/// The length of a task id that the client makes up itself.
pub const TASK_ID_LEN: usize = 36;

/// Whether a character is a hexadecimal digit in lower case.
pub open spec fn is_lower_hex(c: char) -> bool {
    ('0' <= c && c <= '9') || ('a' <= c && c <= 'f')
}

/// Whether a text has the form of a task id that the client makes up
/// itself: 36 characters, hyphens at the places 8, 13, 18 and 23, and
/// hexadecimal digits in lower case everywhere else.
pub open spec fn is_task_id(s: Seq<char>) -> bool {
    &&& s.len() == TASK_ID_LEN
    &&& forall|i: int|
        0 <= i < s.len() ==> if i == 8 || i == 13 || i == 18 || i == 23 {
            #[trigger] s[i] == '-'
        } else {
            is_lower_hex(s[i])
        }
}

/// `Uuid::new_v4` written with `to_string`: a fresh random id in the
/// hyphenated form, in lower case. Which id comes back is open; two calls
/// may differ.
#[verifier::external_body]
pub(crate) fn new_task_id() -> (r: String)
    ensures
        is_task_id(r@),
{
    uuid::Uuid::new_v4().to_string()
}

/// The streaming mode of every command of this protocol.
pub fn default_streaming() -> (r: String)
    ensures
        r@ == "duplex"@,
{
    "duplex".to_owned()
}

/// The standard volume of synthesised speech, on the scale from 0 to 100.
pub fn default_volume() -> (r: Option<u8>)
    ensures
        r == Some(50u8),
{
    Some(50)
}


/// What a command asks the service to do.
#[derive(Debug, Clone, Copy, PartialEq, Eq, Structural)]
pub enum TaskAction {
    /// Start a task.
    RunTask,
    /// No more input follows: drain and close.
    FinishTask,
    /// More input for a task that is running.
    ContinueTask,
}

impl TaskAction {
    /// The name of this action on the wire.
    pub open spec fn text(self) -> Seq<char> {
        match self {
            TaskAction::RunTask => "run-task"@,
            TaskAction::FinishTask => "finish-task"@,
            TaskAction::ContinueTask => "continue-task"@,
        }
    }

    /// The action that a wire name stands for, if it stands for one.
    pub open spec fn named(name: Seq<char>) -> Option<TaskAction> {
        if name == "run-task"@ {
            Some(TaskAction::RunTask)
        } else if name == "finish-task"@ {
            Some(TaskAction::FinishTask)
        } else if name == "continue-task"@ {
            Some(TaskAction::ContinueTask)
        } else {
            None
        }
    }

    /// The required member `key`, read as an action.
    pub open spec fn required(j: JsonValue, key: Seq<char>) -> Option<TaskAction> {
        match j.req_text(key) {
            Some(name) => TaskAction::named(name),
            None => None,
        }
    }

    /// The optional member `key`, read as an action; the outer `None` is a mismatch.
    pub open spec fn optional(j: JsonValue, key: Seq<char>) -> Option<Option<TaskAction>> {
        match j.opt_text(key) {
            Some(Some(name)) => match TaskAction::named(name) {
                Some(t) => Some(Some(t)),
                None => None,
            },
            Some(None) => Some(None),
            None => None,
        }
    }

    /// The wire value of an optional action.
    pub open spec fn optional_json(o: Option<TaskAction>) -> Option<JsonValue> {
        match o {
            Some(t) => Some(JsonValue::Text(t.text())),
            None => None,
        }
    }

    /// The name of this action on the wire.
    pub fn as_str(&self) -> (r: &'static str)
        ensures
            r@ == self.text(),
    {
        match self {
            TaskAction::RunTask => "run-task",
            TaskAction::FinishTask => "finish-task",
            TaskAction::ContinueTask => "continue-task",
        }
    }

    /// Reads a wire name; `None` for a name that stands for no action.
    pub fn from_str(name: &str) -> (r: Option<TaskAction>)
        ensures
            r == TaskAction::named(name@),
    {
        if str_eq(name, "run-task") {
            Some(TaskAction::RunTask)
        } else if str_eq(name, "finish-task") {
            Some(TaskAction::FinishTask)
        } else if str_eq(name, "continue-task") {
            Some(TaskAction::ContinueTask)
        } else {
            None
        }
    }

    /// Reads the required member `key` as an action.
    pub fn read_required(v: &serde_json::Value, key: &str) -> (r: Option<TaskAction>)
        ensures
            r == TaskAction::required(value_model(*v), key@),
    {
        match value_get(v, key) {
            Some(c) => match value_as_str(c) {
                Some(s) => TaskAction::from_str(s),
                None => None,
            },
            None => None,
        }
    }

    /// Reads the optional member `key` as an action; `Err` is a mismatch.
    pub fn read_optional(v: &serde_json::Value, key: &str) -> (r: Result<Option<TaskAction>, ()>)
        ensures
            match r {
                Ok(o) => TaskAction::optional(value_model(*v), key@) == Some(o),
                Err(_) => TaskAction::optional(value_model(*v), key@) is None,
            },
    {
        match read_member(v, key) {
            None => Ok(None),
            Some(c) => match value_as_str(c) {
                Some(s) => match TaskAction::from_str(s) {
                    Some(t) => Ok(Some(t)),
                    None => Err(()),
                },
                None => Err(()),
            },
        }
    }

    /// An optional action as an optional wire value.
    pub fn optional_value(o: Option<TaskAction>) -> (r: Option<serde_json::Value>)
        ensures
            optional_model(r) == TaskAction::optional_json(o),
    {
        match o {
            Some(t) => Some(value_text(t.as_str())),
            None => None,
        }
    }
}

/// The family of a task.
#[derive(Debug, Clone, Copy, PartialEq, Eq, Structural)]
pub enum RunTaskType {
    /// Speech recognition.
    Asr,
    /// Speech synthesis.
    Tts,
}

impl RunTaskType {
    /// The name of this family on the wire.
    pub open spec fn text(self) -> Seq<char> {
        match self {
            RunTaskType::Asr => "asr"@,
            RunTaskType::Tts => "tts"@,
        }
    }

    /// The family that a wire name stands for, if it stands for one.
    pub open spec fn named(name: Seq<char>) -> Option<RunTaskType> {
        if name == "asr"@ {
            Some(RunTaskType::Asr)
        } else if name == "tts"@ {
            Some(RunTaskType::Tts)
        } else {
            None
        }
    }

    /// The required member `key`, read as a family.
    pub open spec fn required(j: JsonValue, key: Seq<char>) -> Option<RunTaskType> {
        match j.req_text(key) {
            Some(name) => RunTaskType::named(name),
            None => None,
        }
    }

    /// The optional member `key`, read as a family; the outer `None` is a mismatch.
    pub open spec fn optional(j: JsonValue, key: Seq<char>) -> Option<Option<RunTaskType>> {
        match j.opt_text(key) {
            Some(Some(name)) => match RunTaskType::named(name) {
                Some(t) => Some(Some(t)),
                None => None,
            },
            Some(None) => Some(None),
            None => None,
        }
    }

    /// The wire value of an optional family.
    pub open spec fn optional_json(o: Option<RunTaskType>) -> Option<JsonValue> {
        match o {
            Some(t) => Some(JsonValue::Text(t.text())),
            None => None,
        }
    }

    /// The name of this family on the wire.
    pub fn as_str(&self) -> (r: &'static str)
        ensures
            r@ == self.text(),
    {
        match self {
            RunTaskType::Asr => "asr",
            RunTaskType::Tts => "tts",
        }
    }

    /// Reads a wire name; `None` for a name that stands for no family.
    pub fn from_str(name: &str) -> (r: Option<RunTaskType>)
        ensures
            r == RunTaskType::named(name@),
    {
        if str_eq(name, "asr") {
            Some(RunTaskType::Asr)
        } else if str_eq(name, "tts") {
            Some(RunTaskType::Tts)
        } else {
            None
        }
    }

    /// Reads the required member `key` as a family.
    pub fn read_required(v: &serde_json::Value, key: &str) -> (r: Option<RunTaskType>)
        ensures
            r == RunTaskType::required(value_model(*v), key@),
    {
        match value_get(v, key) {
            Some(c) => match value_as_str(c) {
                Some(s) => RunTaskType::from_str(s),
                None => None,
            },
            None => None,
        }
    }

    /// Reads the optional member `key` as a family; `Err` is a mismatch.
    pub fn read_optional(v: &serde_json::Value, key: &str) -> (r: Result<Option<RunTaskType>, ()>)
        ensures
            match r {
                Ok(o) => RunTaskType::optional(value_model(*v), key@) == Some(o),
                Err(_) => RunTaskType::optional(value_model(*v), key@) is None,
            },
    {
        match read_member(v, key) {
            None => Ok(None),
            Some(c) => match value_as_str(c) {
                Some(s) => match RunTaskType::from_str(s) {
                    Some(t) => Ok(Some(t)),
                    None => Err(()),
                },
                None => Err(()),
            },
        }
    }

    /// An optional family as an optional wire value.
    pub fn optional_value(o: Option<RunTaskType>) -> (r: Option<serde_json::Value>)
        ensures
            optional_model(r) == RunTaskType::optional_json(o),
    {
        match o {
            Some(t) => Some(value_text(t.as_str())),
            None => None,
        }
    }
}

/// The function that a task performs.
#[derive(Debug, Clone, Copy, PartialEq, Eq, Structural)]
pub enum RunTaskFunction {
    /// Speech recognition.
    Recognition,
    /// Speech synthesis.
    SpeechSynthesizer,
}

impl RunTaskFunction {
    /// The name of this function on the wire.
    pub open spec fn text(self) -> Seq<char> {
        match self {
            RunTaskFunction::Recognition => "recognition"@,
            RunTaskFunction::SpeechSynthesizer => "SpeechSynthesizer"@,
        }
    }

    /// The function that a wire name stands for, if it stands for one.
    pub open spec fn named(name: Seq<char>) -> Option<RunTaskFunction> {
        if name == "recognition"@ {
            Some(RunTaskFunction::Recognition)
        } else if name == "SpeechSynthesizer"@ {
            Some(RunTaskFunction::SpeechSynthesizer)
        } else {
            None
        }
    }

    /// The required member `key`, read as a function.
    pub open spec fn required(j: JsonValue, key: Seq<char>) -> Option<RunTaskFunction> {
        match j.req_text(key) {
            Some(name) => RunTaskFunction::named(name),
            None => None,
        }
    }

    /// The optional member `key`, read as a function; the outer `None` is a mismatch.
    pub open spec fn optional(j: JsonValue, key: Seq<char>) -> Option<Option<RunTaskFunction>> {
        match j.opt_text(key) {
            Some(Some(name)) => match RunTaskFunction::named(name) {
                Some(t) => Some(Some(t)),
                None => None,
            },
            Some(None) => Some(None),
            None => None,
        }
    }

    /// The wire value of an optional function.
    pub open spec fn optional_json(o: Option<RunTaskFunction>) -> Option<JsonValue> {
        match o {
            Some(t) => Some(JsonValue::Text(t.text())),
            None => None,
        }
    }

    /// The name of this function on the wire.
    pub fn as_str(&self) -> (r: &'static str)
        ensures
            r@ == self.text(),
    {
        match self {
            RunTaskFunction::Recognition => "recognition",
            RunTaskFunction::SpeechSynthesizer => "SpeechSynthesizer",
        }
    }

    /// Reads a wire name; `None` for a name that stands for no function.
    pub fn from_str(name: &str) -> (r: Option<RunTaskFunction>)
        ensures
            r == RunTaskFunction::named(name@),
    {
        if str_eq(name, "recognition") {
            Some(RunTaskFunction::Recognition)
        } else if str_eq(name, "SpeechSynthesizer") {
            Some(RunTaskFunction::SpeechSynthesizer)
        } else {
            None
        }
    }

    /// Reads the required member `key` as a function.
    pub fn read_required(v: &serde_json::Value, key: &str) -> (r: Option<RunTaskFunction>)
        ensures
            r == RunTaskFunction::required(value_model(*v), key@),
    {
        match value_get(v, key) {
            Some(c) => match value_as_str(c) {
                Some(s) => RunTaskFunction::from_str(s),
                None => None,
            },
            None => None,
        }
    }

    /// Reads the optional member `key` as a function; `Err` is a mismatch.
    pub fn read_optional(v: &serde_json::Value, key: &str) -> (r: Result<Option<RunTaskFunction>, ()>)
        ensures
            match r {
                Ok(o) => RunTaskFunction::optional(value_model(*v), key@) == Some(o),
                Err(_) => RunTaskFunction::optional(value_model(*v), key@) is None,
            },
    {
        match read_member(v, key) {
            None => Ok(None),
            Some(c) => match value_as_str(c) {
                Some(s) => match RunTaskFunction::from_str(s) {
                    Some(t) => Ok(Some(t)),
                    None => Err(()),
                },
                None => Err(()),
            },
        }
    }

    /// An optional function as an optional wire value.
    pub fn optional_value(o: Option<RunTaskFunction>) -> (r: Option<serde_json::Value>)
        ensures
            optional_model(r) == RunTaskFunction::optional_json(o),
    {
        match o {
            Some(t) => Some(value_text(t.as_str())),
            None => None,
        }
    }
}

/// The kind of text given to synthesis.
#[derive(Debug, Clone, Copy, PartialEq, Eq, Structural)]
pub enum TextType {
    PlainText,
}

impl TextType {
    /// The name of this text kind on the wire.
    pub open spec fn text(self) -> Seq<char> {
        match self {
            TextType::PlainText => "PlainText"@,
        }
    }

    /// The text kind that a wire name stands for, if it stands for one.
    pub open spec fn named(name: Seq<char>) -> Option<TextType> {
        if name == "PlainText"@ {
            Some(TextType::PlainText)
        } else {
            None
        }
    }

    /// The required member `key`, read as a text kind.
    pub open spec fn required(j: JsonValue, key: Seq<char>) -> Option<TextType> {
        match j.req_text(key) {
            Some(name) => TextType::named(name),
            None => None,
        }
    }

    /// The optional member `key`, read as a text kind; the outer `None` is a mismatch.
    pub open spec fn optional(j: JsonValue, key: Seq<char>) -> Option<Option<TextType>> {
        match j.opt_text(key) {
            Some(Some(name)) => match TextType::named(name) {
                Some(t) => Some(Some(t)),
                None => None,
            },
            Some(None) => Some(None),
            None => None,
        }
    }

    /// The wire value of an optional text kind.
    pub open spec fn optional_json(o: Option<TextType>) -> Option<JsonValue> {
        match o {
            Some(t) => Some(JsonValue::Text(t.text())),
            None => None,
        }
    }

    /// The name of this text kind on the wire.
    pub fn as_str(&self) -> (r: &'static str)
        ensures
            r@ == self.text(),
    {
        match self {
            TextType::PlainText => "PlainText",
        }
    }

    /// Reads a wire name; `None` for a name that stands for no text kind.
    pub fn from_str(name: &str) -> (r: Option<TextType>)
        ensures
            r == TextType::named(name@),
    {
        if str_eq(name, "PlainText") {
            Some(TextType::PlainText)
        } else {
            None
        }
    }

    /// Reads the required member `key` as a text kind.
    pub fn read_required(v: &serde_json::Value, key: &str) -> (r: Option<TextType>)
        ensures
            r == TextType::required(value_model(*v), key@),
    {
        match value_get(v, key) {
            Some(c) => match value_as_str(c) {
                Some(s) => TextType::from_str(s),
                None => None,
            },
            None => None,
        }
    }

    /// Reads the optional member `key` as a text kind; `Err` is a mismatch.
    pub fn read_optional(v: &serde_json::Value, key: &str) -> (r: Result<Option<TextType>, ()>)
        ensures
            match r {
                Ok(o) => TextType::optional(value_model(*v), key@) == Some(o),
                Err(_) => TextType::optional(value_model(*v), key@) is None,
            },
    {
        match read_member(v, key) {
            None => Ok(None),
            Some(c) => match value_as_str(c) {
                Some(s) => match TextType::from_str(s) {
                    Some(t) => Ok(Some(t)),
                    None => Err(()),
                },
                None => Err(()),
            },
        }
    }

    /// An optional text kind as an optional wire value.
    pub fn optional_value(o: Option<TextType>) -> (r: Option<serde_json::Value>)
        ensures
            optional_model(r) == TextType::optional_json(o),
    {
        match o {
            Some(t) => Some(value_text(t.as_str())),
            None => None,
        }
    }
}

impl Default for TextType {
    fn default() -> (r: TextType)
        ensures
            r == TextType::PlainText,
    {
        TextType::PlainText
    }
}

/// The header that every command carries.
#[derive(Debug, Clone, PartialEq, Eq)]
pub struct TaskHeader {
    /// What the command asks for.
    pub action: TaskAction,
    /// The id of the task, unique for one use of a connection.
    pub task_id: String,
    /// The streaming mode; always `duplex`.
    pub streaming: String,
}

/// The content of a [`TaskHeader`].
pub struct TaskHeaderView {
    pub action: TaskAction,
    pub task_id: Seq<char>,
    pub streaming: Seq<char>,
}

impl View for TaskHeader {
    type V = TaskHeaderView;

    open spec fn view(&self) -> TaskHeaderView {
        TaskHeaderView {
            action: self.action,
            task_id: self.task_id@,
            streaming: self.streaming@,
        }
    }
}

impl TaskHeaderView {
    /// The header that a wire value holds, if it has the shape of one.
    pub open spec fn from_json(j: JsonValue) -> Option<TaskHeaderView> {
        let action = TaskAction::required(j, "action"@);
        let task_id = j.req_text("task_id"@);
        let streaming = match j.field("streaming"@) {
            None => Some("duplex"@),
            Some(c) => c.as_text(),
        };
        if j is Object
            && action is Some
            && task_id is Some
            && streaming is Some {
            Some(
                TaskHeaderView {
                    action: action->0,
                    task_id: task_id->0,
                    streaming: streaming->0,
                },
            )
        } else {
            None
        }
    }

    /// The wire value of this header.
    pub open spec fn to_json(self) -> JsonValue {
        JsonValue::empty_object().with("action"@, JsonValue::Text(self.action.text())).with("task_id"@, JsonValue::Text(self.task_id)).with("streaming"@, JsonValue::Text(self.streaming))
    }

    /// The required member `key`, read as a header.
    pub open spec fn required(j: JsonValue, key: Seq<char>) -> Option<TaskHeaderView> {
        match j.field(key) {
            Some(c) => TaskHeaderView::from_json(c),
            None => None,
        }
    }

    /// The optional member `key`, read as a header; the outer `None` is a mismatch.
    pub open spec fn optional(j: JsonValue, key: Seq<char>) -> Option<Option<TaskHeaderView>> {
        match j.member(key) {
            None => Some(None),
            Some(c) => match TaskHeaderView::from_json(c) {
                Some(x) => Some(Some(x)),
                None => None,
            },
        }
    }

    /// The wire value of an optional header.
    pub open spec fn optional_json(o: Option<TaskHeaderView>) -> Option<JsonValue> {
        match o {
            Some(x) => Some(x.to_json()),
            None => None,
        }
    }
}

impl TaskHeader {
    /// Reads a header out of a wire value.
    pub fn from_value(v: &serde_json::Value) -> (r: Option<TaskHeader>)
        ensures
            match r {
                Some(t) => TaskHeaderView::from_json(value_model(*v)) == Some(t@),
                None => TaskHeaderView::from_json(value_model(*v)) is None,
            },
    {
        if !value_is_object(v) {
            return None;
        }
        let action = match TaskAction::read_required(v, "action") {
            Some(x) => x,
            None => return None,
        };
        let task_id = match read_req_text(v, "task_id") {
            Some(x) => x,
            None => return None,
        };
        let streaming = match value_get(v, "streaming") {
            None => "duplex".to_owned(),
            Some(c) => match read_text(c) {
                Some(x) => x,
                None => return None,
            },
        };
        Some(TaskHeader { action, task_id, streaming })
    }

    /// Writes this header as a wire value.
    pub fn to_value(&self) -> (r: serde_json::Value)
        ensures
            value_model(r) == self@.to_json(),
    {
        let mut obj = value_object();
        put_text(&mut obj, "action", self.action.as_str());
        put_text(&mut obj, "task_id", self.task_id.as_str());
        put_text(&mut obj, "streaming", self.streaming.as_str());
        obj
    }

    /// Reads the required member `key` as a header.
    pub fn read_required(v: &serde_json::Value, key: &str) -> (r: Option<TaskHeader>)
        ensures
            match r {
                Some(t) => TaskHeaderView::required(value_model(*v), key@) == Some(t@),
                None => TaskHeaderView::required(value_model(*v), key@) is None,
            },
    {
        match value_get(v, key) {
            Some(c) => TaskHeader::from_value(c),
            None => None,
        }
    }

    /// Reads the optional member `key` as a header; `Err` is a mismatch.
    pub fn read_optional(v: &serde_json::Value, key: &str) -> (r: Result<Option<TaskHeader>, ()>)
        ensures
            match r {
                Ok(o) => TaskHeaderView::optional(value_model(*v), key@) == Some(
                    match o {
                        Some(t) => Some(t@),
                        None => None,
                    },
                ),
                Err(_) => TaskHeaderView::optional(value_model(*v), key@) is None,
            },
    {
        match read_member(v, key) {
            None => Ok(None),
            Some(c) => match TaskHeader::from_value(c) {
                Some(t) => Ok(Some(t)),
                None => Err(()),
            },
        }
    }

    /// An optional header as an optional wire value.
    pub fn optional_value(o: &Option<TaskHeader>) -> (r: Option<serde_json::Value>)
        ensures
            optional_model(r) == TaskHeaderView::optional_json(
                match o {
                    Some(t) => Some(t@),
                    None => None,
                },
            ),
    {
        match o {
            Some(t) => Some(t.to_value()),
            None => None,
        }
    }
}

impl TaskHeader {
    /// The header of a command with the given action, a fresh task id and the
    /// duplex mode.
    fn fresh(action: TaskAction) -> (r: TaskHeader)
        ensures
            r.action == action,
            is_task_id(r.task_id@),
            r.streaming@ == "duplex"@,
    {
        TaskHeader { action, task_id: new_task_id(), streaming: default_streaming() }
    }

    /// The header of a start command for a task with a fresh id.
    pub fn run_task() -> (r: TaskHeader)
        ensures
            r.action == TaskAction::RunTask,
            is_task_id(r.task_id@),
            r.streaming@ == "duplex"@,
    {
        TaskHeader::fresh(TaskAction::RunTask)
    }

    /// The header of a finish command with a fresh id.
    pub fn finish_task() -> (r: TaskHeader)
        ensures
            r.action == TaskAction::FinishTask,
            is_task_id(r.task_id@),
            r.streaming@ == "duplex"@,
    {
        TaskHeader::fresh(TaskAction::FinishTask)
    }

    /// The header of a continue command with a fresh id.
    pub fn continue_task() -> (r: TaskHeader)
        ensures
            r.action == TaskAction::ContinueTask,
            is_task_id(r.task_id@),
            r.streaming@ == "duplex"@,
    {
        TaskHeader::fresh(TaskAction::ContinueTask)
    }

    /// The header of a command for the task `task_id`.
    pub fn of(action: TaskAction, task_id: &str) -> (r: TaskHeader)
        ensures
            r@ == (TaskHeaderView { action, task_id: task_id@, streaming: "duplex"@ }),
    {
        TaskHeader { action, task_id: task_id.to_owned(), streaming: default_streaming() }
    }
}

/// Collects the members of a [`TaskHeader`] one by one.
#[derive(Debug, Clone)]
pub struct TaskHeaderBuilder {
    pub action: Option<TaskAction>,
    pub task_id: Option<String>,
    pub streaming: Option<String>,
}

impl Default for TaskHeaderBuilder {
    /// A builder in which nothing is set.
    fn default() -> (r: TaskHeaderBuilder)
        ensures
            r.action is None,
            r.task_id is None,
            r.streaming is None,
    {
        TaskHeaderBuilder {
            action: None,
            task_id: None,
            streaming: None,
        }
    }
}

impl TaskHeaderBuilder {
    /// Sets `action`.
    pub fn action(self, value: TaskAction) -> (r: TaskHeaderBuilder)
        ensures
            r == (TaskHeaderBuilder { action: Some(value), ..self }),
    {
        TaskHeaderBuilder { action: Some(value), ..self }
    }

    /// Sets `task_id`.
    pub fn task_id(self, value: String) -> (r: TaskHeaderBuilder)
        ensures
            r == (TaskHeaderBuilder { task_id: Some(value), ..self }),
    {
        TaskHeaderBuilder { task_id: Some(value), ..self }
    }

    /// Sets `streaming`.
    pub fn streaming(self, value: String) -> (r: TaskHeaderBuilder)
        ensures
            r == (TaskHeaderBuilder { streaming: Some(value), ..self }),
    {
        TaskHeaderBuilder { streaming: Some(value), ..self }
    }

    /// The first member that must be set and is not, if there is one.
    pub open spec fn missing(self) -> Option<Seq<char>> {
        if self.action is None {
            Some("action"@)
        } else {
            None
        }
    }

    /// Builds the header: each member is the one that was set, or its standing
    /// value where none was. Fails on the first member that must be set and is not.
    pub fn build(self) -> (r: Result<TaskHeader, BuilderError>)
        ensures
            match r {
                Ok(t) => {
                    &&& self.missing() is None
                    &&& t.action == self.action->0
                    &&& (match self.task_id {
                        Some(x) => t.task_id == x,
                        None => is_task_id(t.task_id@),
                    })
                    &&& (match self.streaming {
                        Some(x) => t.streaming == x,
                        None => t.streaming@ == "duplex"@,
                    })
                },
                Err(e) => self.missing() == Some(e.field()),
            },
    {
        let action = match self.action {
            Some(x) => x,
            None => return Err(BuilderError::UninitializedField("action")),
        };
        let task_id = match self.task_id {
            Some(x) => x,
            None => new_task_id(),
        };
        let streaming = match self.streaming {
            Some(x) => x,
            None => default_streaming(),
        };
        Ok(TaskHeader { action, task_id, streaming })
    }
}

/// The parameters of a task. Of the optional members, those up to `seed` are
/// left out of the wire value where they are absent; the others are then
/// written as `null`.
#[derive(Debug, Clone, PartialEq)]
pub struct TaskParameters {
    /// The kind of the text to synthesise.
    pub text_type: Option<TextType>,
    /// The voice to synthesise with.
    pub voice: Option<String>,
    /// The audio format.
    pub format: String,
    /// The sample rate of the audio in Hz.
    pub sample_rate: Option<u32>,
    /// The volume, from 0 to 100; 50 is the standard.
    pub volume: Option<u8>,
    /// The speech rate: the number as it is to stand on the wire.
    pub rate: Option<serde_json::Value>,
    /// The pitch: the number as it is to stand on the wire.
    pub pitch: Option<serde_json::Value>,
    /// Whether the text is SSML.
    pub enable_ssml: Option<bool>,
    /// The bit rate of the audio.
    pub bit_rate: Option<u32>,
    /// Whether words come with time stamps.
    pub word_timestamp_enabled: Option<bool>,
    /// The seed of the random generator.
    pub seed: Option<u32>,
    /// The languages to expect.
    pub language_hints: Option<Vec<String>>,
    /// An instruction on how to speak.
    pub instruction: Option<String>,
    /// Whether the audio is tagged as generated.
    pub enable_aigc_tag: Option<bool>,
    /// Who passes the tag on.
    pub aigc_propagator: Option<String>,
    /// The id under which the tag is passed on.
    pub aigc_propagate_id: Option<String>,
    /// The id of a vocabulary of hot words.
    pub vocabulary_id: Option<String>,
    /// Whether sentences are cut by meaning.
    pub semantic_punctuation_enabled: Option<bool>,
    /// The silence, in milliseconds, that ends a sentence.
    pub max_sentence_silence: Option<u32>,
    /// Whether over-long sentences are cut.
    pub multi_threshold_mode_enabled: Option<bool>,
    /// Whether the service keeps a silent connection open.
    pub heartbeat: Option<bool>,
}

/// The content of a [`TaskParameters`].
pub struct TaskParametersView {
    pub text_type: Option<TextType>,
    pub voice: Option<Seq<char>>,
    pub format: Seq<char>,
    pub sample_rate: Option<u32>,
    pub volume: Option<u8>,
    pub rate: Option<JsonValue>,
    pub pitch: Option<JsonValue>,
    pub enable_ssml: Option<bool>,
    pub bit_rate: Option<u32>,
    pub word_timestamp_enabled: Option<bool>,
    pub seed: Option<u32>,
    pub language_hints: Option<Seq<Seq<char>>>,
    pub instruction: Option<Seq<char>>,
    pub enable_aigc_tag: Option<bool>,
    pub aigc_propagator: Option<Seq<char>>,
    pub aigc_propagate_id: Option<Seq<char>>,
    pub vocabulary_id: Option<Seq<char>>,
    pub semantic_punctuation_enabled: Option<bool>,
    pub max_sentence_silence: Option<u32>,
    pub multi_threshold_mode_enabled: Option<bool>,
    pub heartbeat: Option<bool>,
}

impl View for TaskParameters {
    type V = TaskParametersView;

    open spec fn view(&self) -> TaskParametersView {
        TaskParametersView {
            text_type: self.text_type,
            voice: text_view(self.voice),
            format: self.format@,
            sample_rate: self.sample_rate,
            volume: self.volume,
            rate: optional_model(self.rate),
            pitch: optional_model(self.pitch),
            enable_ssml: self.enable_ssml,
            bit_rate: self.bit_rate,
            word_timestamp_enabled: self.word_timestamp_enabled,
            seed: self.seed,
            language_hints: opt_texts_view(self.language_hints),
            instruction: text_view(self.instruction),
            enable_aigc_tag: self.enable_aigc_tag,
            aigc_propagator: text_view(self.aigc_propagator),
            aigc_propagate_id: text_view(self.aigc_propagate_id),
            vocabulary_id: text_view(self.vocabulary_id),
            semantic_punctuation_enabled: self.semantic_punctuation_enabled,
            max_sentence_silence: self.max_sentence_silence,
            multi_threshold_mode_enabled: self.multi_threshold_mode_enabled,
            heartbeat: self.heartbeat,
        }
    }
}

impl TaskParametersView {
    /// What holds of every parameter set that was read or is to be written.
    pub open spec fn wf(self) -> bool {
        &&& (self.rate matches Some(c) ==> c is Number)
        &&& (self.pitch matches Some(c) ==> c is Number)
    }

    /// The parameter set that a wire value holds, if it has the shape of one.
    pub open spec fn from_json(j: JsonValue) -> Option<TaskParametersView> {
        let text_type = TextType::optional(j, "text_type"@);
        let voice = j.opt_text("voice"@);
        let format = j.req_text("format"@);
        let sample_rate = j.opt_u32("sample_rate"@);
        let volume = j.opt_u8("volume"@);
        let rate = j.opt_number("rate"@);
        let pitch = j.opt_number("pitch"@);
        let enable_ssml = j.opt_boolean("enable_ssml"@);
        let bit_rate = j.opt_u32("bit_rate"@);
        let word_timestamp_enabled = j.opt_boolean("word_timestamp_enabled"@);
        let seed = j.opt_u32("seed"@);
        let language_hints = j.opt_texts("language_hints"@);
        let instruction = j.opt_text("instruction"@);
        let enable_aigc_tag = j.opt_boolean("enable_aigc_tag"@);
        let aigc_propagator = j.opt_text("aigc_propagator"@);
        let aigc_propagate_id = j.opt_text("aigc_propagate_id"@);
        let vocabulary_id = j.opt_text("vocabulary_id"@);
        let semantic_punctuation_enabled = j.opt_boolean("semantic_punctuation_enabled"@);
        let max_sentence_silence = j.opt_u32("max_sentence_silence"@);
        let multi_threshold_mode_enabled = j.opt_boolean("multi_threshold_mode_enabled"@);
        let heartbeat = j.opt_boolean("heartbeat"@);
        if j is Object
            && text_type is Some
            && voice is Some
            && format is Some
            && sample_rate is Some
            && volume is Some
            && rate is Some
            && pitch is Some
            && enable_ssml is Some
            && bit_rate is Some
            && word_timestamp_enabled is Some
            && seed is Some
            && language_hints is Some
            && instruction is Some
            && enable_aigc_tag is Some
            && aigc_propagator is Some
            && aigc_propagate_id is Some
            && vocabulary_id is Some
            && semantic_punctuation_enabled is Some
            && max_sentence_silence is Some
            && multi_threshold_mode_enabled is Some
            && heartbeat is Some {
            Some(
                TaskParametersView {
                    text_type: text_type->0,
                    voice: voice->0,
                    format: format->0,
                    sample_rate: sample_rate->0,
                    volume: volume->0,
                    rate: rate->0,
                    pitch: pitch->0,
                    enable_ssml: enable_ssml->0,
                    bit_rate: bit_rate->0,
                    word_timestamp_enabled: word_timestamp_enabled->0,
                    seed: seed->0,
                    language_hints: language_hints->0,
                    instruction: instruction->0,
                    enable_aigc_tag: enable_aigc_tag->0,
                    aigc_propagator: aigc_propagator->0,
                    aigc_propagate_id: aigc_propagate_id->0,
                    vocabulary_id: vocabulary_id->0,
                    semantic_punctuation_enabled: semantic_punctuation_enabled->0,
                    max_sentence_silence: max_sentence_silence->0,
                    multi_threshold_mode_enabled: multi_threshold_mode_enabled->0,
                    heartbeat: heartbeat->0,
                },
            )
        } else {
            None
        }
    }

    /// The wire value of this parameter set.
    pub open spec fn to_json(self) -> JsonValue {
        JsonValue::empty_object().with_opt("text_type"@, TextType::optional_json(self.text_type)).with_opt("voice"@, text_json(self.voice)).with("format"@, JsonValue::Text(self.format)).with_opt("sample_rate"@, u32_json(self.sample_rate)).with_opt("volume"@, u8_json(self.volume)).with_opt("rate"@, self.rate).with_opt("pitch"@, self.pitch).with_opt("enable_ssml"@, boolean_json(self.enable_ssml)).with_opt("bit_rate"@, u32_json(self.bit_rate)).with_opt("word_timestamp_enabled"@, boolean_json(self.word_timestamp_enabled)).with_opt("seed"@, u32_json(self.seed)).with("language_hints"@, or_null(texts_json(self.language_hints))).with("instruction"@, or_null(text_json(self.instruction))).with("enable_aigc_tag"@, or_null(boolean_json(self.enable_aigc_tag))).with("aigc_propagator"@, or_null(text_json(self.aigc_propagator))).with("aigc_propagate_id"@, or_null(text_json(self.aigc_propagate_id))).with("vocabulary_id"@, or_null(text_json(self.vocabulary_id))).with("semantic_punctuation_enabled"@, or_null(boolean_json(self.semantic_punctuation_enabled))).with("max_sentence_silence"@, or_null(u32_json(self.max_sentence_silence))).with("multi_threshold_mode_enabled"@, or_null(boolean_json(self.multi_threshold_mode_enabled))).with("heartbeat"@, or_null(boolean_json(self.heartbeat)))
    }

    /// The required member `key`, read as a parameter set.
    pub open spec fn required(j: JsonValue, key: Seq<char>) -> Option<TaskParametersView> {
        match j.field(key) {
            Some(c) => TaskParametersView::from_json(c),
            None => None,
        }
    }

    /// The optional member `key`, read as a parameter set; the outer `None` is a mismatch.
    pub open spec fn optional(j: JsonValue, key: Seq<char>) -> Option<Option<TaskParametersView>> {
        match j.member(key) {
            None => Some(None),
            Some(c) => match TaskParametersView::from_json(c) {
                Some(x) => Some(Some(x)),
                None => None,
            },
        }
    }

    /// The wire value of an optional parameter set.
    pub open spec fn optional_json(o: Option<TaskParametersView>) -> Option<JsonValue> {
        match o {
            Some(x) => Some(x.to_json()),
            None => None,
        }
    }
}

impl TaskParameters {
    /// Reads a parameter set out of a wire value.
    pub fn from_value(v: &serde_json::Value) -> (r: Option<TaskParameters>)
        ensures
            match r {
                Some(t) => TaskParametersView::from_json(value_model(*v)) == Some(t@) && t@.wf(),
                None => TaskParametersView::from_json(value_model(*v)) is None,
            },
    {
        if !value_is_object(v) {
            return None;
        }
        let text_type = match TextType::read_optional(v, "text_type") {
            Ok(x) => x,
            Err(_) => return None,
        };
        let voice = match read_opt_text(v, "voice") {
            Ok(x) => x,
            Err(_) => return None,
        };
        let format = match read_req_text(v, "format") {
            Some(x) => x,
            None => return None,
        };
        let sample_rate = match read_opt_u32(v, "sample_rate") {
            Ok(x) => x,
            Err(_) => return None,
        };
        let volume = match read_opt_u8(v, "volume") {
            Ok(x) => x,
            Err(_) => return None,
        };
        let rate = match read_opt_number(v, "rate") {
            Ok(x) => x,
            Err(_) => return None,
        };
        let pitch = match read_opt_number(v, "pitch") {
            Ok(x) => x,
            Err(_) => return None,
        };
        let enable_ssml = match read_opt_boolean(v, "enable_ssml") {
            Ok(x) => x,
            Err(_) => return None,
        };
        let bit_rate = match read_opt_u32(v, "bit_rate") {
            Ok(x) => x,
            Err(_) => return None,
        };
        let word_timestamp_enabled = match read_opt_boolean(v, "word_timestamp_enabled") {
            Ok(x) => x,
            Err(_) => return None,
        };
        let seed = match read_opt_u32(v, "seed") {
            Ok(x) => x,
            Err(_) => return None,
        };
        let language_hints = match read_opt_texts(v, "language_hints") {
            Ok(x) => x,
            Err(_) => return None,
        };
        let instruction = match read_opt_text(v, "instruction") {
            Ok(x) => x,
            Err(_) => return None,
        };
        let enable_aigc_tag = match read_opt_boolean(v, "enable_aigc_tag") {
            Ok(x) => x,
            Err(_) => return None,
        };
        let aigc_propagator = match read_opt_text(v, "aigc_propagator") {
            Ok(x) => x,
            Err(_) => return None,
        };
        let aigc_propagate_id = match read_opt_text(v, "aigc_propagate_id") {
            Ok(x) => x,
            Err(_) => return None,
        };
        let vocabulary_id = match read_opt_text(v, "vocabulary_id") {
            Ok(x) => x,
            Err(_) => return None,
        };
        let semantic_punctuation_enabled = match read_opt_boolean(v, "semantic_punctuation_enabled") {
            Ok(x) => x,
            Err(_) => return None,
        };
        let max_sentence_silence = match read_opt_u32(v, "max_sentence_silence") {
            Ok(x) => x,
            Err(_) => return None,
        };
        let multi_threshold_mode_enabled = match read_opt_boolean(v, "multi_threshold_mode_enabled") {
            Ok(x) => x,
            Err(_) => return None,
        };
        let heartbeat = match read_opt_boolean(v, "heartbeat") {
            Ok(x) => x,
            Err(_) => return None,
        };
        Some(TaskParameters { text_type, voice, format, sample_rate, volume, rate, pitch, enable_ssml, bit_rate, word_timestamp_enabled, seed, language_hints, instruction, enable_aigc_tag, aigc_propagator, aigc_propagate_id, vocabulary_id, semantic_punctuation_enabled, max_sentence_silence, multi_threshold_mode_enabled, heartbeat })
    }

    /// Writes this parameter set as a wire value.
    pub fn to_value(&self) -> (r: serde_json::Value)
        ensures
            value_model(r) == self@.to_json(),
    {
        let mut obj = value_object();
        put_opt(&mut obj, "text_type", TextType::optional_value(self.text_type));
        put_opt(&mut obj, "voice", text_value(&self.voice));
        put_text(&mut obj, "format", self.format.as_str());
        put_opt(&mut obj, "sample_rate", u32_value(self.sample_rate));
        put_opt(&mut obj, "volume", u8_value(self.volume));
        put_opt(&mut obj, "rate", copy_value(&self.rate));
        put_opt(&mut obj, "pitch", copy_value(&self.pitch));
        put_opt(&mut obj, "enable_ssml", boolean_value(self.enable_ssml));
        put_opt(&mut obj, "bit_rate", u32_value(self.bit_rate));
        put_opt(&mut obj, "word_timestamp_enabled", boolean_value(self.word_timestamp_enabled));
        put_opt(&mut obj, "seed", u32_value(self.seed));
        put_or_null(&mut obj, "language_hints", texts_value(&self.language_hints));
        put_or_null(&mut obj, "instruction", text_value(&self.instruction));
        put_or_null(&mut obj, "enable_aigc_tag", boolean_value(self.enable_aigc_tag));
        put_or_null(&mut obj, "aigc_propagator", text_value(&self.aigc_propagator));
        put_or_null(&mut obj, "aigc_propagate_id", text_value(&self.aigc_propagate_id));
        put_or_null(&mut obj, "vocabulary_id", text_value(&self.vocabulary_id));
        put_or_null(&mut obj, "semantic_punctuation_enabled", boolean_value(self.semantic_punctuation_enabled));
        put_or_null(&mut obj, "max_sentence_silence", u32_value(self.max_sentence_silence));
        put_or_null(&mut obj, "multi_threshold_mode_enabled", boolean_value(self.multi_threshold_mode_enabled));
        put_or_null(&mut obj, "heartbeat", boolean_value(self.heartbeat));
        obj
    }

    /// Reads the required member `key` as a parameter set.
    pub fn read_required(v: &serde_json::Value, key: &str) -> (r: Option<TaskParameters>)
        ensures
            match r {
                Some(t) => TaskParametersView::required(value_model(*v), key@) == Some(t@) && t@.wf(),
                None => TaskParametersView::required(value_model(*v), key@) is None,
            },
    {
        match value_get(v, key) {
            Some(c) => TaskParameters::from_value(c),
            None => None,
        }
    }

    /// Reads the optional member `key` as a parameter set; `Err` is a mismatch.
    pub fn read_optional(v: &serde_json::Value, key: &str) -> (r: Result<Option<TaskParameters>, ()>)
        ensures
            match r {
                Ok(o) => TaskParametersView::optional(value_model(*v), key@) == Some(
                    match o {
                        Some(t) => Some(t@),
                        None => None,
                    },
                ) && (o matches Some(t) ==> t@.wf()),
                Err(_) => TaskParametersView::optional(value_model(*v), key@) is None,
            },
    {
        match read_member(v, key) {
            None => Ok(None),
            Some(c) => match TaskParameters::from_value(c) {
                Some(t) => Ok(Some(t)),
                None => Err(()),
            },
        }
    }

    /// An optional parameter set as an optional wire value.
    pub fn optional_value(o: &Option<TaskParameters>) -> (r: Option<serde_json::Value>)
        ensures
            optional_model(r) == TaskParametersView::optional_json(
                match o {
                    Some(t) => Some(t@),
                    None => None,
                },
            ),
    {
        match o {
            Some(t) => Some(t.to_value()),
            None => None,
        }
    }
}

impl TaskParametersView {
    /// The parameter set with an empty format and nothing else.
    pub open spec fn blank() -> TaskParametersView {
        TaskParametersView {
            text_type: None,
            voice: None,
            format: Seq::empty(),
            sample_rate: None,
            volume: None,
            rate: None,
            pitch: None,
            enable_ssml: None,
            bit_rate: None,
            word_timestamp_enabled: None,
            seed: None,
            language_hints: None,
            instruction: None,
            enable_aigc_tag: None,
            aigc_propagator: None,
            aigc_propagate_id: None,
            vocabulary_id: None,
            semantic_punctuation_enabled: None,
            max_sentence_silence: None,
            multi_threshold_mode_enabled: None,
            heartbeat: None,
        }
    }
}

impl Default for TaskParameters {
    /// The parameter set with an empty format and nothing else.
    fn default() -> (r: TaskParameters)
        ensures
            r@ == TaskParametersView::blank(),
            r.text_type is None,
            r.voice is None,
            r.sample_rate is None,
            r.volume is None,
            r.rate is None,
            r.pitch is None,
            r.enable_ssml is None,
            r.bit_rate is None,
            r.word_timestamp_enabled is None,
            r.seed is None,
            r.language_hints is None,
            r.instruction is None,
            r.enable_aigc_tag is None,
            r.aigc_propagator is None,
            r.aigc_propagate_id is None,
            r.vocabulary_id is None,
            r.semantic_punctuation_enabled is None,
            r.max_sentence_silence is None,
            r.multi_threshold_mode_enabled is None,
            r.heartbeat is None,
    {
        TaskParameters {
            text_type: None,
            voice: None,
            format: String::new(),
            sample_rate: None,
            volume: None,
            rate: None,
            pitch: None,
            enable_ssml: None,
            bit_rate: None,
            word_timestamp_enabled: None,
            seed: None,
            language_hints: None,
            instruction: None,
            enable_aigc_tag: None,
            aigc_propagator: None,
            aigc_propagate_id: None,
            vocabulary_id: None,
            semantic_punctuation_enabled: None,
            max_sentence_silence: None,
            multi_threshold_mode_enabled: None,
            heartbeat: None,
        }
    }
}

/// Collects the members of a [`TaskParameters`] one by one.
#[derive(Debug, Clone)]
pub struct TaskParametersBuilder {
    pub text_type: Option<Option<TextType>>,
    pub voice: Option<Option<String>>,
    pub format: Option<String>,
    pub sample_rate: Option<Option<u32>>,
    pub volume: Option<Option<u8>>,
    pub rate: Option<Option<serde_json::Value>>,
    pub pitch: Option<Option<serde_json::Value>>,
    pub enable_ssml: Option<Option<bool>>,
    pub bit_rate: Option<Option<u32>>,
    pub word_timestamp_enabled: Option<Option<bool>>,
    pub seed: Option<Option<u32>>,
    pub language_hints: Option<Option<Vec<String>>>,
    pub instruction: Option<Option<String>>,
    pub enable_aigc_tag: Option<Option<bool>>,
    pub aigc_propagator: Option<Option<String>>,
    pub aigc_propagate_id: Option<Option<String>>,
    pub vocabulary_id: Option<Option<String>>,
    pub semantic_punctuation_enabled: Option<Option<bool>>,
    pub max_sentence_silence: Option<Option<u32>>,
    pub multi_threshold_mode_enabled: Option<Option<bool>>,
    pub heartbeat: Option<Option<bool>>,
}

impl Default for TaskParametersBuilder {
    /// A builder in which nothing is set.
    fn default() -> (r: TaskParametersBuilder)
        ensures
            r.text_type is None,
            r.voice is None,
            r.format is None,
            r.sample_rate is None,
            r.volume is None,
            r.rate is None,
            r.pitch is None,
            r.enable_ssml is None,
            r.bit_rate is None,
            r.word_timestamp_enabled is None,
            r.seed is None,
            r.language_hints is None,
            r.instruction is None,
            r.enable_aigc_tag is None,
            r.aigc_propagator is None,
            r.aigc_propagate_id is None,
            r.vocabulary_id is None,
            r.semantic_punctuation_enabled is None,
            r.max_sentence_silence is None,
            r.multi_threshold_mode_enabled is None,
            r.heartbeat is None,
    {
        TaskParametersBuilder {
            text_type: None,
            voice: None,
            format: None,
            sample_rate: None,
            volume: None,
            rate: None,
            pitch: None,
            enable_ssml: None,
            bit_rate: None,
            word_timestamp_enabled: None,
            seed: None,
            language_hints: None,
            instruction: None,
            enable_aigc_tag: None,
            aigc_propagator: None,
            aigc_propagate_id: None,
            vocabulary_id: None,
            semantic_punctuation_enabled: None,
            max_sentence_silence: None,
            multi_threshold_mode_enabled: None,
            heartbeat: None,
        }
    }
}

impl TaskParametersBuilder {
    /// Sets `text_type`.
    pub fn text_type(self, value: TextType) -> (r: TaskParametersBuilder)
        ensures
            r == (TaskParametersBuilder { text_type: Some(Some(value)), ..self }),
    {
        TaskParametersBuilder { text_type: Some(Some(value)), ..self }
    }

    /// Sets `voice`.
    pub fn voice(self, value: String) -> (r: TaskParametersBuilder)
        ensures
            r == (TaskParametersBuilder { voice: Some(Some(value)), ..self }),
    {
        TaskParametersBuilder { voice: Some(Some(value)), ..self }
    }

    /// Sets `format`.
    pub fn format(self, value: String) -> (r: TaskParametersBuilder)
        ensures
            r == (TaskParametersBuilder { format: Some(value), ..self }),
    {
        TaskParametersBuilder { format: Some(value), ..self }
    }

    /// Sets `sample_rate`.
    pub fn sample_rate(self, value: u32) -> (r: TaskParametersBuilder)
        ensures
            r == (TaskParametersBuilder { sample_rate: Some(Some(value)), ..self }),
    {
        TaskParametersBuilder { sample_rate: Some(Some(value)), ..self }
    }

    /// Sets `volume`.
    pub fn volume(self, value: u8) -> (r: TaskParametersBuilder)
        ensures
            r == (TaskParametersBuilder { volume: Some(Some(value)), ..self }),
    {
        TaskParametersBuilder { volume: Some(Some(value)), ..self }
    }

    /// Sets `rate`.
    pub fn rate(self, value: serde_json::Value) -> (r: TaskParametersBuilder)
        ensures
            r == (TaskParametersBuilder { rate: Some(Some(value)), ..self }),
    {
        TaskParametersBuilder { rate: Some(Some(value)), ..self }
    }

    /// Sets `pitch`.
    pub fn pitch(self, value: serde_json::Value) -> (r: TaskParametersBuilder)
        ensures
            r == (TaskParametersBuilder { pitch: Some(Some(value)), ..self }),
    {
        TaskParametersBuilder { pitch: Some(Some(value)), ..self }
    }

    /// Sets `enable_ssml`.
    pub fn enable_ssml(self, value: bool) -> (r: TaskParametersBuilder)
        ensures
            r == (TaskParametersBuilder { enable_ssml: Some(Some(value)), ..self }),
    {
        TaskParametersBuilder { enable_ssml: Some(Some(value)), ..self }
    }

    /// Sets `bit_rate`.
    pub fn bit_rate(self, value: u32) -> (r: TaskParametersBuilder)
        ensures
            r == (TaskParametersBuilder { bit_rate: Some(Some(value)), ..self }),
    {
        TaskParametersBuilder { bit_rate: Some(Some(value)), ..self }
    }

    /// Sets `word_timestamp_enabled`.
    pub fn word_timestamp_enabled(self, value: bool) -> (r: TaskParametersBuilder)
        ensures
            r == (TaskParametersBuilder { word_timestamp_enabled: Some(Some(value)), ..self }),
    {
        TaskParametersBuilder { word_timestamp_enabled: Some(Some(value)), ..self }
    }

    /// Sets `seed`.
    pub fn seed(self, value: u32) -> (r: TaskParametersBuilder)
        ensures
            r == (TaskParametersBuilder { seed: Some(Some(value)), ..self }),
    {
        TaskParametersBuilder { seed: Some(Some(value)), ..self }
    }

    /// Sets `language_hints`.
    pub fn language_hints(self, value: Vec<String>) -> (r: TaskParametersBuilder)
        ensures
            r == (TaskParametersBuilder { language_hints: Some(Some(value)), ..self }),
    {
        TaskParametersBuilder { language_hints: Some(Some(value)), ..self }
    }

    /// Sets `instruction`.
    pub fn instruction(self, value: String) -> (r: TaskParametersBuilder)
        ensures
            r == (TaskParametersBuilder { instruction: Some(Some(value)), ..self }),
    {
        TaskParametersBuilder { instruction: Some(Some(value)), ..self }
    }

    /// Sets `enable_aigc_tag`.
    pub fn enable_aigc_tag(self, value: bool) -> (r: TaskParametersBuilder)
        ensures
            r == (TaskParametersBuilder { enable_aigc_tag: Some(Some(value)), ..self }),
    {
        TaskParametersBuilder { enable_aigc_tag: Some(Some(value)), ..self }
    }

    /// Sets `aigc_propagator`.
    pub fn aigc_propagator(self, value: String) -> (r: TaskParametersBuilder)
        ensures
            r == (TaskParametersBuilder { aigc_propagator: Some(Some(value)), ..self }),
    {
        TaskParametersBuilder { aigc_propagator: Some(Some(value)), ..self }
    }

    /// Sets `aigc_propagate_id`.
    pub fn aigc_propagate_id(self, value: String) -> (r: TaskParametersBuilder)
        ensures
            r == (TaskParametersBuilder { aigc_propagate_id: Some(Some(value)), ..self }),
    {
        TaskParametersBuilder { aigc_propagate_id: Some(Some(value)), ..self }
    }

    /// Sets `vocabulary_id`.
    pub fn vocabulary_id(self, value: String) -> (r: TaskParametersBuilder)
        ensures
            r == (TaskParametersBuilder { vocabulary_id: Some(Some(value)), ..self }),
    {
        TaskParametersBuilder { vocabulary_id: Some(Some(value)), ..self }
    }

    /// Sets `semantic_punctuation_enabled`.
    pub fn semantic_punctuation_enabled(self, value: bool) -> (r: TaskParametersBuilder)
        ensures
            r == (TaskParametersBuilder { semantic_punctuation_enabled: Some(Some(value)), ..self }),
    {
        TaskParametersBuilder { semantic_punctuation_enabled: Some(Some(value)), ..self }
    }

    /// Sets `max_sentence_silence`.
    pub fn max_sentence_silence(self, value: u32) -> (r: TaskParametersBuilder)
        ensures
            r == (TaskParametersBuilder { max_sentence_silence: Some(Some(value)), ..self }),
    {
        TaskParametersBuilder { max_sentence_silence: Some(Some(value)), ..self }
    }

    /// Sets `multi_threshold_mode_enabled`.
    pub fn multi_threshold_mode_enabled(self, value: bool) -> (r: TaskParametersBuilder)
        ensures
            r == (TaskParametersBuilder { multi_threshold_mode_enabled: Some(Some(value)), ..self }),
    {
        TaskParametersBuilder { multi_threshold_mode_enabled: Some(Some(value)), ..self }
    }

    /// Sets `heartbeat`.
    pub fn heartbeat(self, value: bool) -> (r: TaskParametersBuilder)
        ensures
            r == (TaskParametersBuilder { heartbeat: Some(Some(value)), ..self }),
    {
        TaskParametersBuilder { heartbeat: Some(Some(value)), ..self }
    }

    /// The first member that must be set and is not, if there is one.
    pub open spec fn missing(self) -> Option<Seq<char>> {
        if self.format is None {
            Some("format"@)
        } else {
            None
        }
    }

    /// Builds the parameter set: each member is the one that was set, or its standing
    /// value where none was. Fails on the first member that must be set and is not.
    pub fn build(self) -> (r: Result<TaskParameters, BuilderError>)
        ensures
            match r {
                Ok(t) => {
                    &&& self.missing() is None
                    &&& t.text_type == (match self.text_type {
                        Some(x) => x,
                        None => None,
                    })
                    &&& t.voice == (match self.voice {
                        Some(x) => x,
                        None => None,
                    })
                    &&& t.format == self.format->0
                    &&& t.sample_rate == (match self.sample_rate {
                        Some(x) => x,
                        None => None,
                    })
                    &&& t.volume == (match self.volume {
                        Some(x) => x,
                        None => None,
                    })
                    &&& t.rate == (match self.rate {
                        Some(x) => x,
                        None => None,
                    })
                    &&& t.pitch == (match self.pitch {
                        Some(x) => x,
                        None => None,
                    })
                    &&& t.enable_ssml == (match self.enable_ssml {
                        Some(x) => x,
                        None => None,
                    })
                    &&& t.bit_rate == (match self.bit_rate {
                        Some(x) => x,
                        None => None,
                    })
                    &&& t.word_timestamp_enabled == (match self.word_timestamp_enabled {
                        Some(x) => x,
                        None => None,
                    })
                    &&& t.seed == (match self.seed {
                        Some(x) => x,
                        None => None,
                    })
                    &&& t.language_hints == (match self.language_hints {
                        Some(x) => x,
                        None => None,
                    })
                    &&& t.instruction == (match self.instruction {
                        Some(x) => x,
                        None => None,
                    })
                    &&& t.enable_aigc_tag == (match self.enable_aigc_tag {
                        Some(x) => x,
                        None => None,
                    })
                    &&& t.aigc_propagator == (match self.aigc_propagator {
                        Some(x) => x,
                        None => None,
                    })
                    &&& t.aigc_propagate_id == (match self.aigc_propagate_id {
                        Some(x) => x,
                        None => None,
                    })
                    &&& t.vocabulary_id == (match self.vocabulary_id {
                        Some(x) => x,
                        None => None,
                    })
                    &&& t.semantic_punctuation_enabled == (match self.semantic_punctuation_enabled {
                        Some(x) => x,
                        None => None,
                    })
                    &&& t.max_sentence_silence == (match self.max_sentence_silence {
                        Some(x) => x,
                        None => None,
                    })
                    &&& t.multi_threshold_mode_enabled == (match self.multi_threshold_mode_enabled {
                        Some(x) => x,
                        None => None,
                    })
                    &&& t.heartbeat == (match self.heartbeat {
                        Some(x) => x,
                        None => None,
                    })
                },
                Err(e) => self.missing() == Some(e.field()),
            },
    {
        let format = match self.format {
            Some(x) => x,
            None => return Err(BuilderError::UninitializedField("format")),
        };
        let text_type = match self.text_type {
            Some(x) => x,
            None => None,
        };
        let voice = match self.voice {
            Some(x) => x,
            None => None,
        };
        let sample_rate = match self.sample_rate {
            Some(x) => x,
            None => None,
        };
        let volume = match self.volume {
            Some(x) => x,
            None => None,
        };
        let rate = match self.rate {
            Some(x) => x,
            None => None,
        };
        let pitch = match self.pitch {
            Some(x) => x,
            None => None,
        };
        let enable_ssml = match self.enable_ssml {
            Some(x) => x,
            None => None,
        };
        let bit_rate = match self.bit_rate {
            Some(x) => x,
            None => None,
        };
        let word_timestamp_enabled = match self.word_timestamp_enabled {
            Some(x) => x,
            None => None,
        };
        let seed = match self.seed {
            Some(x) => x,
            None => None,
        };
        let language_hints = match self.language_hints {
            Some(x) => x,
            None => None,
        };
        let instruction = match self.instruction {
            Some(x) => x,
            None => None,
        };
        let enable_aigc_tag = match self.enable_aigc_tag {
            Some(x) => x,
            None => None,
        };
        let aigc_propagator = match self.aigc_propagator {
            Some(x) => x,
            None => None,
        };
        let aigc_propagate_id = match self.aigc_propagate_id {
            Some(x) => x,
            None => None,
        };
        let vocabulary_id = match self.vocabulary_id {
            Some(x) => x,
            None => None,
        };
        let semantic_punctuation_enabled = match self.semantic_punctuation_enabled {
            Some(x) => x,
            None => None,
        };
        let max_sentence_silence = match self.max_sentence_silence {
            Some(x) => x,
            None => None,
        };
        let multi_threshold_mode_enabled = match self.multi_threshold_mode_enabled {
            Some(x) => x,
            None => None,
        };
        let heartbeat = match self.heartbeat {
            Some(x) => x,
            None => None,
        };
        Ok(TaskParameters { text_type, voice, format, sample_rate, volume, rate, pitch, enable_ssml, bit_rate, word_timestamp_enabled, seed, language_hints, instruction, enable_aigc_tag, aigc_propagator, aigc_propagate_id, vocabulary_id, semantic_punctuation_enabled, max_sentence_silence, multi_threshold_mode_enabled, heartbeat })
    }
}

/// The payload of a start command.
#[derive(Debug, Clone, PartialEq)]
pub struct RunTaskPayload {
    /// The task group; `audio` for every task of this protocol.
    pub task_group: String,
    /// The family of the task.
    pub task: RunTaskType,
    /// The function of the task.
    pub function: RunTaskFunction,
    /// The model to use.
    pub model: String,
    /// The input: an object, empty for recognition.
    pub input: serde_json::Value,
    /// The parameters of the task.
    pub parameters: TaskParameters,
}

/// The content of a [`RunTaskPayload`].
pub struct RunTaskPayloadView {
    pub task_group: Seq<char>,
    pub task: RunTaskType,
    pub function: RunTaskFunction,
    pub model: Seq<char>,
    pub input: JsonValue,
    pub parameters: TaskParametersView,
}

impl View for RunTaskPayload {
    type V = RunTaskPayloadView;

    open spec fn view(&self) -> RunTaskPayloadView {
        RunTaskPayloadView {
            task_group: self.task_group@,
            task: self.task,
            function: self.function,
            model: self.model@,
            input: value_model(self.input),
            parameters: self.parameters@,
        }
    }
}

impl RunTaskPayloadView {
    /// What holds of every payload that was read or is to be written.
    pub open spec fn wf(self) -> bool {
        &&& self.input is Object
        &&& self.parameters.wf()
    }

    /// The payload that a wire value holds, if it has the shape of one.
    pub open spec fn from_json(j: JsonValue) -> Option<RunTaskPayloadView> {
        let task_group = j.req_text("task_group"@);
        let task = RunTaskType::required(j, "task"@);
        let function = RunTaskFunction::required(j, "function"@);
        let model = j.req_text("model"@);
        let input = j.req_object("input"@);
        let parameters = TaskParametersView::required(j, "parameters"@);
        if j is Object
            && task_group is Some
            && task is Some
            && function is Some
            && model is Some
            && input is Some
            && parameters is Some {
            Some(
                RunTaskPayloadView {
                    task_group: task_group->0,
                    task: task->0,
                    function: function->0,
                    model: model->0,
                    input: input->0,
                    parameters: parameters->0,
                },
            )
        } else {
            None
        }
    }

    /// The wire value of this payload.
    pub open spec fn to_json(self) -> JsonValue {
        JsonValue::empty_object().with("task_group"@, JsonValue::Text(self.task_group)).with("task"@, JsonValue::Text(self.task.text())).with("function"@, JsonValue::Text(self.function.text())).with("model"@, JsonValue::Text(self.model)).with("input"@, self.input).with("parameters"@, self.parameters.to_json())
    }

    /// The required member `key`, read as a payload.
    pub open spec fn required(j: JsonValue, key: Seq<char>) -> Option<RunTaskPayloadView> {
        match j.field(key) {
            Some(c) => RunTaskPayloadView::from_json(c),
            None => None,
        }
    }

    /// The optional member `key`, read as a payload; the outer `None` is a mismatch.
    pub open spec fn optional(j: JsonValue, key: Seq<char>) -> Option<Option<RunTaskPayloadView>> {
        match j.member(key) {
            None => Some(None),
            Some(c) => match RunTaskPayloadView::from_json(c) {
                Some(x) => Some(Some(x)),
                None => None,
            },
        }
    }

    /// The wire value of an optional payload.
    pub open spec fn optional_json(o: Option<RunTaskPayloadView>) -> Option<JsonValue> {
        match o {
            Some(x) => Some(x.to_json()),
            None => None,
        }
    }
}

impl RunTaskPayload {
    /// Reads a payload out of a wire value.
    pub fn from_value(v: &serde_json::Value) -> (r: Option<RunTaskPayload>)
        ensures
            match r {
                Some(t) => RunTaskPayloadView::from_json(value_model(*v)) == Some(t@) && t@.wf(),
                None => RunTaskPayloadView::from_json(value_model(*v)) is None,
            },
    {
        if !value_is_object(v) {
            return None;
        }
        let task_group = match read_req_text(v, "task_group") {
            Some(x) => x,
            None => return None,
        };
        let task = match RunTaskType::read_required(v, "task") {
            Some(x) => x,
            None => return None,
        };
        let function = match RunTaskFunction::read_required(v, "function") {
            Some(x) => x,
            None => return None,
        };
        let model = match read_req_text(v, "model") {
            Some(x) => x,
            None => return None,
        };
        let input = match read_req_object(v, "input") {
            Some(x) => x,
            None => return None,
        };
        let parameters = match TaskParameters::read_required(v, "parameters") {
            Some(x) => x,
            None => return None,
        };
        Some(RunTaskPayload { task_group, task, function, model, input, parameters })
    }

    /// Writes this payload as a wire value.
    pub fn to_value(&self) -> (r: serde_json::Value)
        ensures
            value_model(r) == self@.to_json(),
    {
        let mut obj = value_object();
        put_text(&mut obj, "task_group", self.task_group.as_str());
        put_text(&mut obj, "task", self.task.as_str());
        put_text(&mut obj, "function", self.function.as_str());
        put_text(&mut obj, "model", self.model.as_str());
        put(&mut obj, "input", self.input.clone());
        put(&mut obj, "parameters", self.parameters.to_value());
        obj
    }

    /// Reads the required member `key` as a payload.
    pub fn read_required(v: &serde_json::Value, key: &str) -> (r: Option<RunTaskPayload>)
        ensures
            match r {
                Some(t) => RunTaskPayloadView::required(value_model(*v), key@) == Some(t@) && t@.wf(),
                None => RunTaskPayloadView::required(value_model(*v), key@) is None,
            },
    {
        match value_get(v, key) {
            Some(c) => RunTaskPayload::from_value(c),
            None => None,
        }
    }

    /// Reads the optional member `key` as a payload; `Err` is a mismatch.
    pub fn read_optional(v: &serde_json::Value, key: &str) -> (r: Result<Option<RunTaskPayload>, ()>)
        ensures
            match r {
                Ok(o) => RunTaskPayloadView::optional(value_model(*v), key@) == Some(
                    match o {
                        Some(t) => Some(t@),
                        None => None,
                    },
                ) && (o matches Some(t) ==> t@.wf()),
                Err(_) => RunTaskPayloadView::optional(value_model(*v), key@) is None,
            },
    {
        match read_member(v, key) {
            None => Ok(None),
            Some(c) => match RunTaskPayload::from_value(c) {
                Some(t) => Ok(Some(t)),
                None => Err(()),
            },
        }
    }

    /// An optional payload as an optional wire value.
    pub fn optional_value(o: &Option<RunTaskPayload>) -> (r: Option<serde_json::Value>)
        ensures
            optional_model(r) == RunTaskPayloadView::optional_json(
                match o {
                    Some(t) => Some(t@),
                    None => None,
                },
            ),
    {
        match o {
            Some(t) => Some(t.to_value()),
            None => None,
        }
    }
}

/// Collects the members of a [`RunTaskPayload`] one by one.
#[derive(Debug, Clone)]
pub struct RunTaskPayloadBuilder {
    pub task_group: Option<String>,
    pub task: Option<RunTaskType>,
    pub function: Option<RunTaskFunction>,
    pub model: Option<String>,
    pub input: Option<serde_json::Value>,
    pub parameters: Option<TaskParameters>,
}

impl Default for RunTaskPayloadBuilder {
    /// A builder in which nothing is set.
    fn default() -> (r: RunTaskPayloadBuilder)
        ensures
            r.task_group is None,
            r.task is None,
            r.function is None,
            r.model is None,
            r.input is None,
            r.parameters is None,
    {
        RunTaskPayloadBuilder {
            task_group: None,
            task: None,
            function: None,
            model: None,
            input: None,
            parameters: None,
        }
    }
}

impl RunTaskPayloadBuilder {
    /// Sets `task_group`.
    pub fn task_group(self, value: String) -> (r: RunTaskPayloadBuilder)
        ensures
            r == (RunTaskPayloadBuilder { task_group: Some(value), ..self }),
    {
        RunTaskPayloadBuilder { task_group: Some(value), ..self }
    }

    /// Sets `task`.
    pub fn task(self, value: RunTaskType) -> (r: RunTaskPayloadBuilder)
        ensures
            r == (RunTaskPayloadBuilder { task: Some(value), ..self }),
    {
        RunTaskPayloadBuilder { task: Some(value), ..self }
    }

    /// Sets `function`.
    pub fn function(self, value: RunTaskFunction) -> (r: RunTaskPayloadBuilder)
        ensures
            r == (RunTaskPayloadBuilder { function: Some(value), ..self }),
    {
        RunTaskPayloadBuilder { function: Some(value), ..self }
    }

    /// Sets `model`.
    pub fn model(self, value: String) -> (r: RunTaskPayloadBuilder)
        ensures
            r == (RunTaskPayloadBuilder { model: Some(value), ..self }),
    {
        RunTaskPayloadBuilder { model: Some(value), ..self }
    }

    /// Sets `input`.
    pub fn input(self, value: serde_json::Value) -> (r: RunTaskPayloadBuilder)
        ensures
            r == (RunTaskPayloadBuilder { input: Some(value), ..self }),
    {
        RunTaskPayloadBuilder { input: Some(value), ..self }
    }

    /// Sets `parameters`.
    pub fn parameters(self, value: TaskParameters) -> (r: RunTaskPayloadBuilder)
        ensures
            r == (RunTaskPayloadBuilder { parameters: Some(value), ..self }),
    {
        RunTaskPayloadBuilder { parameters: Some(value), ..self }
    }

    /// The first member that must be set and is not, if there is one.
    pub open spec fn missing(self) -> Option<Seq<char>> {
        if self.task_group is None {
            Some("task_group"@)
        } else if self.task is None {
            Some("task"@)
        } else if self.function is None {
            Some("function"@)
        } else if self.model is None {
            Some("model"@)
        } else {
            None
        }
    }

    /// Builds the payload: each member is the one that was set, or its standing
    /// value where none was. Fails on the first member that must be set and is not.
    pub fn build(self) -> (r: Result<RunTaskPayload, BuilderError>)
        ensures
            match r {
                Ok(t) => {
                    &&& self.missing() is None
                    &&& t.task_group == self.task_group->0
                    &&& t.task == self.task->0
                    &&& t.function == self.function->0
                    &&& t.model == self.model->0
                    &&& (match self.input {
                        Some(x) => t.input == x,
                        None => value_model(t.input) == JsonValue::empty_object(),
                    })
                    &&& (match self.parameters {
                        Some(x) => t.parameters == x,
                        None => t.parameters@ == TaskParametersView::blank(),
                    })
                },
                Err(e) => self.missing() == Some(e.field()),
            },
    {
        let task_group = match self.task_group {
            Some(x) => x,
            None => return Err(BuilderError::UninitializedField("task_group")),
        };
        let task = match self.task {
            Some(x) => x,
            None => return Err(BuilderError::UninitializedField("task")),
        };
        let function = match self.function {
            Some(x) => x,
            None => return Err(BuilderError::UninitializedField("function")),
        };
        let model = match self.model {
            Some(x) => x,
            None => return Err(BuilderError::UninitializedField("model")),
        };
        let input = match self.input {
            Some(x) => x,
            None => value_object(),
        };
        let parameters = match self.parameters {
            Some(x) => x,
            None => TaskParameters::default(),
        };
        Ok(RunTaskPayload { task_group, task, function, model, input, parameters })
    }
}

/// The command that starts a task.
#[derive(Debug, Clone, PartialEq)]
pub struct RunTaskParameters {
    pub header: TaskHeader,
    pub payload: RunTaskPayload,
}

/// The content of a [`RunTaskParameters`].
pub struct RunTaskParametersView {
    pub header: TaskHeaderView,
    pub payload: RunTaskPayloadView,
}

impl View for RunTaskParameters {
    type V = RunTaskParametersView;

    open spec fn view(&self) -> RunTaskParametersView {
        RunTaskParametersView {
            header: self.header@,
            payload: self.payload@,
        }
    }
}

impl RunTaskParametersView {
    /// What holds of every start command that was read or is to be written.
    pub open spec fn wf(self) -> bool {
        &&& self.payload.wf()
    }

    /// The start command that a wire value holds, if it has the shape of one.
    pub open spec fn from_json(j: JsonValue) -> Option<RunTaskParametersView> {
        let header = TaskHeaderView::required(j, "header"@);
        let payload = RunTaskPayloadView::required(j, "payload"@);
        if j is Object
            && header is Some
            && payload is Some {
            Some(
                RunTaskParametersView {
                    header: header->0,
                    payload: payload->0,
                },
            )
        } else {
            None
        }
    }

    /// The wire value of this start command.
    pub open spec fn to_json(self) -> JsonValue {
        JsonValue::empty_object().with("header"@, self.header.to_json()).with("payload"@, self.payload.to_json())
    }
}

impl RunTaskParameters {
    /// Reads a start command out of a wire value.
    pub fn from_value(v: &serde_json::Value) -> (r: Option<RunTaskParameters>)
        ensures
            match r {
                Some(t) => RunTaskParametersView::from_json(value_model(*v)) == Some(t@) && t@.wf(),
                None => RunTaskParametersView::from_json(value_model(*v)) is None,
            },
    {
        if !value_is_object(v) {
            return None;
        }
        let header = match TaskHeader::read_required(v, "header") {
            Some(x) => x,
            None => return None,
        };
        let payload = match RunTaskPayload::read_required(v, "payload") {
            Some(x) => x,
            None => return None,
        };
        Some(RunTaskParameters { header, payload })
    }

    /// Writes this start command as a wire value.
    pub fn to_value(&self) -> (r: serde_json::Value)
        ensures
            value_model(r) == self@.to_json(),
    {
        let mut obj = value_object();
        put(&mut obj, "header", self.header.to_value());
        put(&mut obj, "payload", self.payload.to_value());
        obj
    }

    /// Reads a start command from the text of a body. A text that is no JSON
    /// document, or a document in another shape, is a deserialization error
    /// that keeps the text.
    pub fn decode(text: &str) -> (r: Result<RunTaskParameters, DashScopeError>)
        ensures
            match r {
                Ok(t) => parsed(text@) is Ok && RunTaskParametersView::from_json(parsed(text@)->Ok_0) == Some(
                    t@,
                ) && t@.wf(),
                Err(e) => (parsed(text@) is Err || RunTaskParametersView::from_json(parsed(text@)->Ok_0) is None)
                    && e@ == unreadable(text@),
            },
    {
        match parse_value(text) {
            Ok(v) => match RunTaskParameters::from_value(&v) {
                Some(t) => Ok(t),
                None => Err(wrong_shape(text)),
            },
            Err(e) => Err(not_json(&e, text)),
        }
    }

    /// Writes this start command as the text of a body: the rendering of its wire
    /// value. Writing never fails.
    pub fn encode(&self) -> (r: Result<String, DashScopeError>)
        ensures
            r is Ok,
            r matches Ok(s) ==> s@ == rendered(self@.to_json()),
    {
        match render_value(&self.to_value()) {
            Ok(s) => Ok(s),
            Err(e) => Err(not_written(&e)),
        }
    }
}

/// Collects the members of a [`RunTaskParameters`] one by one.
#[derive(Debug, Clone)]
pub struct RunTaskParametersBuilder {
    pub header: Option<TaskHeader>,
    pub payload: Option<RunTaskPayload>,
}

impl Default for RunTaskParametersBuilder {
    /// A builder in which nothing is set.
    fn default() -> (r: RunTaskParametersBuilder)
        ensures
            r.header is None,
            r.payload is None,
    {
        RunTaskParametersBuilder {
            header: None,
            payload: None,
        }
    }
}

impl RunTaskParametersBuilder {
    /// Sets `header`.
    pub fn header(self, value: TaskHeader) -> (r: RunTaskParametersBuilder)
        ensures
            r == (RunTaskParametersBuilder { header: Some(value), ..self }),
    {
        RunTaskParametersBuilder { header: Some(value), ..self }
    }

    /// Sets `payload`.
    pub fn payload(self, value: RunTaskPayload) -> (r: RunTaskParametersBuilder)
        ensures
            r == (RunTaskParametersBuilder { payload: Some(value), ..self }),
    {
        RunTaskParametersBuilder { payload: Some(value), ..self }
    }

    /// The first member that must be set and is not, if there is one.
    pub open spec fn missing(self) -> Option<Seq<char>> {
        if self.header is None {
            Some("header"@)
        } else if self.payload is None {
            Some("payload"@)
        } else {
            None
        }
    }

    /// Builds the start command: each member is the one that was set, or its standing
    /// value where none was. Fails on the first member that must be set and is not.
    pub fn build(self) -> (r: Result<RunTaskParameters, BuilderError>)
        ensures
            match r {
                Ok(t) => {
                    &&& self.missing() is None
                    &&& t.header == self.header->0
                    &&& t.payload == self.payload->0
                },
                Err(e) => self.missing() == Some(e.field()),
            },
    {
        let header = match self.header {
            Some(x) => x,
            None => return Err(BuilderError::UninitializedField("header")),
        };
        let payload = match self.payload {
            Some(x) => x,
            None => return Err(BuilderError::UninitializedField("payload")),
        };
        Ok(RunTaskParameters { header, payload })
    }
}

/// The payload of a finish command.
#[derive(Debug, Clone, PartialEq, Eq)]
pub struct FinishTaskPayload {
    /// The input: always the empty object.
    pub input: serde_json::Value,
}

/// The content of a [`FinishTaskPayload`].
pub struct FinishTaskPayloadView {
    pub input: JsonValue,
}

impl View for FinishTaskPayload {
    type V = FinishTaskPayloadView;

    open spec fn view(&self) -> FinishTaskPayloadView {
        FinishTaskPayloadView {
            input: value_model(self.input),
        }
    }
}

impl FinishTaskPayloadView {
    /// What holds of every payload that was read or is to be written.
    pub open spec fn wf(self) -> bool {
        &&& self.input is Object
    }

    /// The payload that a wire value holds, if it has the shape of one.
    pub open spec fn from_json(j: JsonValue) -> Option<FinishTaskPayloadView> {
        let input = j.req_object("input"@);
        if j is Object
            && input is Some {
            Some(
                FinishTaskPayloadView {
                    input: input->0,
                },
            )
        } else {
            None
        }
    }

    /// The wire value of this payload.
    pub open spec fn to_json(self) -> JsonValue {
        JsonValue::empty_object().with("input"@, self.input)
    }

    /// The required member `key`, read as a payload.
    pub open spec fn required(j: JsonValue, key: Seq<char>) -> Option<FinishTaskPayloadView> {
        match j.field(key) {
            Some(c) => FinishTaskPayloadView::from_json(c),
            None => None,
        }
    }

    /// The optional member `key`, read as a payload; the outer `None` is a mismatch.
    pub open spec fn optional(j: JsonValue, key: Seq<char>) -> Option<Option<FinishTaskPayloadView>> {
        match j.member(key) {
            None => Some(None),
            Some(c) => match FinishTaskPayloadView::from_json(c) {
                Some(x) => Some(Some(x)),
                None => None,
            },
        }
    }

    /// The wire value of an optional payload.
    pub open spec fn optional_json(o: Option<FinishTaskPayloadView>) -> Option<JsonValue> {
        match o {
            Some(x) => Some(x.to_json()),
            None => None,
        }
    }
}

impl FinishTaskPayload {
    /// Reads a payload out of a wire value.
    pub fn from_value(v: &serde_json::Value) -> (r: Option<FinishTaskPayload>)
        ensures
            match r {
                Some(t) => FinishTaskPayloadView::from_json(value_model(*v)) == Some(t@) && t@.wf(),
                None => FinishTaskPayloadView::from_json(value_model(*v)) is None,
            },
    {
        if !value_is_object(v) {
            return None;
        }
        let input = match read_req_object(v, "input") {
            Some(x) => x,
            None => return None,
        };
        Some(FinishTaskPayload { input })
    }

    /// Writes this payload as a wire value.
    pub fn to_value(&self) -> (r: serde_json::Value)
        ensures
            value_model(r) == self@.to_json(),
    {
        let mut obj = value_object();
        put(&mut obj, "input", self.input.clone());
        obj
    }

    /// Reads the required member `key` as a payload.
    pub fn read_required(v: &serde_json::Value, key: &str) -> (r: Option<FinishTaskPayload>)
        ensures
            match r {
                Some(t) => FinishTaskPayloadView::required(value_model(*v), key@) == Some(t@) && t@.wf(),
                None => FinishTaskPayloadView::required(value_model(*v), key@) is None,
            },
    {
        match value_get(v, key) {
            Some(c) => FinishTaskPayload::from_value(c),
            None => None,
        }
    }

    /// Reads the optional member `key` as a payload; `Err` is a mismatch.
    pub fn read_optional(v: &serde_json::Value, key: &str) -> (r: Result<Option<FinishTaskPayload>, ()>)
        ensures
            match r {
                Ok(o) => FinishTaskPayloadView::optional(value_model(*v), key@) == Some(
                    match o {
                        Some(t) => Some(t@),
                        None => None,
                    },
                ) && (o matches Some(t) ==> t@.wf()),
                Err(_) => FinishTaskPayloadView::optional(value_model(*v), key@) is None,
            },
    {
        match read_member(v, key) {
            None => Ok(None),
            Some(c) => match FinishTaskPayload::from_value(c) {
                Some(t) => Ok(Some(t)),
                None => Err(()),
            },
        }
    }

    /// An optional payload as an optional wire value.
    pub fn optional_value(o: &Option<FinishTaskPayload>) -> (r: Option<serde_json::Value>)
        ensures
            optional_model(r) == FinishTaskPayloadView::optional_json(
                match o {
                    Some(t) => Some(t@),
                    None => None,
                },
            ),
    {
        match o {
            Some(t) => Some(t.to_value()),
            None => None,
        }
    }
}

/// Collects the members of a [`FinishTaskPayload`] one by one.
#[derive(Debug, Clone)]
pub struct FinishTaskPayloadBuilder {
    pub input: Option<serde_json::Value>,
}

impl Default for FinishTaskPayloadBuilder {
    /// A builder in which nothing is set.
    fn default() -> (r: FinishTaskPayloadBuilder)
        ensures
            r.input is None,
    {
        FinishTaskPayloadBuilder {
            input: None,
        }
    }
}

impl FinishTaskPayloadBuilder {
    /// Sets `input`.
    pub fn input(self, value: serde_json::Value) -> (r: FinishTaskPayloadBuilder)
        ensures
            r == (FinishTaskPayloadBuilder { input: Some(value), ..self }),
    {
        FinishTaskPayloadBuilder { input: Some(value), ..self }
    }

    /// The first member that must be set and is not, if there is one.
    pub open spec fn missing(self) -> Option<Seq<char>> {
        None
    }

    /// Builds the payload: each member is the one that was set, or its standing
    /// value where none was. Fails on the first member that must be set and is not.
    pub fn build(self) -> (r: Result<FinishTaskPayload, BuilderError>)
        ensures
            match r {
                Ok(t) => {
                    &&& self.missing() is None
                    &&& (match self.input {
                        Some(x) => t.input == x,
                        None => value_model(t.input) == JsonValue::empty_object(),
                    })
                },
                Err(e) => self.missing() == Some(e.field()),
            },
    {
        let input = match self.input {
            Some(x) => x,
            None => value_object(),
        };
        Ok(FinishTaskPayload { input })
    }
}

/// The command that tells the service that no more input follows.
#[derive(Debug, Clone, PartialEq, Eq)]
pub struct FinishTaskParameters {
    pub header: TaskHeader,
    pub payload: FinishTaskPayload,
}

/// The content of a [`FinishTaskParameters`].
pub struct FinishTaskParametersView {
    pub header: TaskHeaderView,
    pub payload: FinishTaskPayloadView,
}

impl View for FinishTaskParameters {
    type V = FinishTaskParametersView;

    open spec fn view(&self) -> FinishTaskParametersView {
        FinishTaskParametersView {
            header: self.header@,
            payload: self.payload@,
        }
    }
}

impl FinishTaskParametersView {
    /// What holds of every finish command that was read or is to be written.
    pub open spec fn wf(self) -> bool {
        &&& self.payload.wf()
    }

    /// The finish command that a wire value holds, if it has the shape of one.
    pub open spec fn from_json(j: JsonValue) -> Option<FinishTaskParametersView> {
        let header = TaskHeaderView::required(j, "header"@);
        let payload = FinishTaskPayloadView::required(j, "payload"@);
        if j is Object
            && header is Some
            && payload is Some {
            Some(
                FinishTaskParametersView {
                    header: header->0,
                    payload: payload->0,
                },
            )
        } else {
            None
        }
    }

    /// The wire value of this finish command.
    pub open spec fn to_json(self) -> JsonValue {
        JsonValue::empty_object().with("header"@, self.header.to_json()).with("payload"@, self.payload.to_json())
    }
}

impl FinishTaskParameters {
    /// Reads a finish command out of a wire value.
    pub fn from_value(v: &serde_json::Value) -> (r: Option<FinishTaskParameters>)
        ensures
            match r {
                Some(t) => FinishTaskParametersView::from_json(value_model(*v)) == Some(t@) && t@.wf(),
                None => FinishTaskParametersView::from_json(value_model(*v)) is None,
            },
    {
        if !value_is_object(v) {
            return None;
        }
        let header = match TaskHeader::read_required(v, "header") {
            Some(x) => x,
            None => return None,
        };
        let payload = match FinishTaskPayload::read_required(v, "payload") {
            Some(x) => x,
            None => return None,
        };
        Some(FinishTaskParameters { header, payload })
    }

    /// Writes this finish command as a wire value.
    pub fn to_value(&self) -> (r: serde_json::Value)
        ensures
            value_model(r) == self@.to_json(),
    {
        let mut obj = value_object();
        put(&mut obj, "header", self.header.to_value());
        put(&mut obj, "payload", self.payload.to_value());
        obj
    }

    /// Reads a finish command from the text of a body. A text that is no JSON
    /// document, or a document in another shape, is a deserialization error
    /// that keeps the text.
    pub fn decode(text: &str) -> (r: Result<FinishTaskParameters, DashScopeError>)
        ensures
            match r {
                Ok(t) => parsed(text@) is Ok && FinishTaskParametersView::from_json(parsed(text@)->Ok_0) == Some(
                    t@,
                ) && t@.wf(),
                Err(e) => (parsed(text@) is Err || FinishTaskParametersView::from_json(parsed(text@)->Ok_0) is None)
                    && e@ == unreadable(text@),
            },
    {
        match parse_value(text) {
            Ok(v) => match FinishTaskParameters::from_value(&v) {
                Some(t) => Ok(t),
                None => Err(wrong_shape(text)),
            },
            Err(e) => Err(not_json(&e, text)),
        }
    }

    /// Writes this finish command as the text of a body: the rendering of its wire
    /// value. Writing never fails.
    pub fn encode(&self) -> (r: Result<String, DashScopeError>)
        ensures
            r is Ok,
            r matches Ok(s) ==> s@ == rendered(self@.to_json()),
    {
        match render_value(&self.to_value()) {
            Ok(s) => Ok(s),
            Err(e) => Err(not_written(&e)),
        }
    }
}

/// Collects the members of a [`FinishTaskParameters`] one by one.
#[derive(Debug, Clone)]
pub struct FinishTaskParametersBuilder {
    pub header: Option<TaskHeader>,
    pub payload: Option<FinishTaskPayload>,
}

impl Default for FinishTaskParametersBuilder {
    /// A builder in which nothing is set.
    fn default() -> (r: FinishTaskParametersBuilder)
        ensures
            r.header is None,
            r.payload is None,
    {
        FinishTaskParametersBuilder {
            header: None,
            payload: None,
        }
    }
}

impl FinishTaskParametersBuilder {
    /// Sets `header`.
    pub fn header(self, value: TaskHeader) -> (r: FinishTaskParametersBuilder)
        ensures
            r == (FinishTaskParametersBuilder { header: Some(value), ..self }),
    {
        FinishTaskParametersBuilder { header: Some(value), ..self }
    }

    /// Sets `payload`.
    pub fn payload(self, value: FinishTaskPayload) -> (r: FinishTaskParametersBuilder)
        ensures
            r == (FinishTaskParametersBuilder { payload: Some(value), ..self }),
    {
        FinishTaskParametersBuilder { payload: Some(value), ..self }
    }

    /// The first member that must be set and is not, if there is one.
    pub open spec fn missing(self) -> Option<Seq<char>> {
        if self.header is None {
            Some("header"@)
        } else if self.payload is None {
            Some("payload"@)
        } else {
            None
        }
    }

    /// Builds the finish command: each member is the one that was set, or its standing
    /// value where none was. Fails on the first member that must be set and is not.
    pub fn build(self) -> (r: Result<FinishTaskParameters, BuilderError>)
        ensures
            match r {
                Ok(t) => {
                    &&& self.missing() is None
                    &&& t.header == self.header->0
                    &&& t.payload == self.payload->0
                },
                Err(e) => self.missing() == Some(e.field()),
            },
    {
        let header = match self.header {
            Some(x) => x,
            None => return Err(BuilderError::UninitializedField("header")),
        };
        let payload = match self.payload {
            Some(x) => x,
            None => return Err(BuilderError::UninitializedField("payload")),
        };
        Ok(FinishTaskParameters { header, payload })
    }
}

/// The input of a continue command.
#[derive(Debug, Clone, PartialEq, Eq)]
pub struct ContinueTaskInput {
    /// The text to synthesise next.
    pub text: String,
}

/// The content of a [`ContinueTaskInput`].
pub struct ContinueTaskInputView {
    pub text: Seq<char>,
}

impl View for ContinueTaskInput {
    type V = ContinueTaskInputView;

    open spec fn view(&self) -> ContinueTaskInputView {
        ContinueTaskInputView {
            text: self.text@,
        }
    }
}

impl ContinueTaskInputView {
    /// The input that a wire value holds, if it has the shape of one.
    pub open spec fn from_json(j: JsonValue) -> Option<ContinueTaskInputView> {
        let text = j.req_text("text"@);
        if j is Object
            && text is Some {
            Some(
                ContinueTaskInputView {
                    text: text->0,
                },
            )
        } else {
            None
        }
    }

    /// The wire value of this input.
    pub open spec fn to_json(self) -> JsonValue {
        JsonValue::empty_object().with("text"@, JsonValue::Text(self.text))
    }

    /// The required member `key`, read as an input.
    pub open spec fn required(j: JsonValue, key: Seq<char>) -> Option<ContinueTaskInputView> {
        match j.field(key) {
            Some(c) => ContinueTaskInputView::from_json(c),
            None => None,
        }
    }

    /// The optional member `key`, read as an input; the outer `None` is a mismatch.
    pub open spec fn optional(j: JsonValue, key: Seq<char>) -> Option<Option<ContinueTaskInputView>> {
        match j.member(key) {
            None => Some(None),
            Some(c) => match ContinueTaskInputView::from_json(c) {
                Some(x) => Some(Some(x)),
                None => None,
            },
        }
    }

    /// The wire value of an optional input.
    pub open spec fn optional_json(o: Option<ContinueTaskInputView>) -> Option<JsonValue> {
        match o {
            Some(x) => Some(x.to_json()),
            None => None,
        }
    }
}

impl ContinueTaskInput {
    /// Reads an input out of a wire value.
    pub fn from_value(v: &serde_json::Value) -> (r: Option<ContinueTaskInput>)
        ensures
            match r {
                Some(t) => ContinueTaskInputView::from_json(value_model(*v)) == Some(t@),
                None => ContinueTaskInputView::from_json(value_model(*v)) is None,
            },
    {
        if !value_is_object(v) {
            return None;
        }
        let text = match read_req_text(v, "text") {
            Some(x) => x,
            None => return None,
        };
        Some(ContinueTaskInput { text })
    }

    /// Writes this input as a wire value.
    pub fn to_value(&self) -> (r: serde_json::Value)
        ensures
            value_model(r) == self@.to_json(),
    {
        let mut obj = value_object();
        put_text(&mut obj, "text", self.text.as_str());
        obj
    }

    /// Reads the required member `key` as an input.
    pub fn read_required(v: &serde_json::Value, key: &str) -> (r: Option<ContinueTaskInput>)
        ensures
            match r {
                Some(t) => ContinueTaskInputView::required(value_model(*v), key@) == Some(t@),
                None => ContinueTaskInputView::required(value_model(*v), key@) is None,
            },
    {
        match value_get(v, key) {
            Some(c) => ContinueTaskInput::from_value(c),
            None => None,
        }
    }

    /// Reads the optional member `key` as an input; `Err` is a mismatch.
    pub fn read_optional(v: &serde_json::Value, key: &str) -> (r: Result<Option<ContinueTaskInput>, ()>)
        ensures
            match r {
                Ok(o) => ContinueTaskInputView::optional(value_model(*v), key@) == Some(
                    match o {
                        Some(t) => Some(t@),
                        None => None,
                    },
                ),
                Err(_) => ContinueTaskInputView::optional(value_model(*v), key@) is None,
            },
    {
        match read_member(v, key) {
            None => Ok(None),
            Some(c) => match ContinueTaskInput::from_value(c) {
                Some(t) => Ok(Some(t)),
                None => Err(()),
            },
        }
    }

    /// An optional input as an optional wire value.
    pub fn optional_value(o: &Option<ContinueTaskInput>) -> (r: Option<serde_json::Value>)
        ensures
            optional_model(r) == ContinueTaskInputView::optional_json(
                match o {
                    Some(t) => Some(t@),
                    None => None,
                },
            ),
    {
        match o {
            Some(t) => Some(t.to_value()),
            None => None,
        }
    }
}

/// The payload of a continue command.
#[derive(Debug, Clone, PartialEq, Eq)]
pub struct ContinueTaskPayload {
    pub input: ContinueTaskInput,
}

/// The content of a [`ContinueTaskPayload`].
pub struct ContinueTaskPayloadView {
    pub input: ContinueTaskInputView,
}

impl View for ContinueTaskPayload {
    type V = ContinueTaskPayloadView;

    open spec fn view(&self) -> ContinueTaskPayloadView {
        ContinueTaskPayloadView {
            input: self.input@,
        }
    }
}

impl ContinueTaskPayloadView {
    /// The payload that a wire value holds, if it has the shape of one.
    pub open spec fn from_json(j: JsonValue) -> Option<ContinueTaskPayloadView> {
        let input = ContinueTaskInputView::required(j, "input"@);
        if j is Object
            && input is Some {
            Some(
                ContinueTaskPayloadView {
                    input: input->0,
                },
            )
        } else {
            None
        }
    }

    /// The wire value of this payload.
    pub open spec fn to_json(self) -> JsonValue {
        JsonValue::empty_object().with("input"@, self.input.to_json())
    }

    /// The required member `key`, read as a payload.
    pub open spec fn required(j: JsonValue, key: Seq<char>) -> Option<ContinueTaskPayloadView> {
        match j.field(key) {
            Some(c) => ContinueTaskPayloadView::from_json(c),
            None => None,
        }
    }

    /// The optional member `key`, read as a payload; the outer `None` is a mismatch.
    pub open spec fn optional(j: JsonValue, key: Seq<char>) -> Option<Option<ContinueTaskPayloadView>> {
        match j.member(key) {
            None => Some(None),
            Some(c) => match ContinueTaskPayloadView::from_json(c) {
                Some(x) => Some(Some(x)),
                None => None,
            },
        }
    }

    /// The wire value of an optional payload.
    pub open spec fn optional_json(o: Option<ContinueTaskPayloadView>) -> Option<JsonValue> {
        match o {
            Some(x) => Some(x.to_json()),
            None => None,
        }
    }
}

impl ContinueTaskPayload {
    /// Reads a payload out of a wire value.
    pub fn from_value(v: &serde_json::Value) -> (r: Option<ContinueTaskPayload>)
        ensures
            match r {
                Some(t) => ContinueTaskPayloadView::from_json(value_model(*v)) == Some(t@),
                None => ContinueTaskPayloadView::from_json(value_model(*v)) is None,
            },
    {
        if !value_is_object(v) {
            return None;
        }
        let input = match ContinueTaskInput::read_required(v, "input") {
            Some(x) => x,
            None => return None,
        };
        Some(ContinueTaskPayload { input })
    }

    /// Writes this payload as a wire value.
    pub fn to_value(&self) -> (r: serde_json::Value)
        ensures
            value_model(r) == self@.to_json(),
    {
        let mut obj = value_object();
        put(&mut obj, "input", self.input.to_value());
        obj
    }

    /// Reads the required member `key` as a payload.
    pub fn read_required(v: &serde_json::Value, key: &str) -> (r: Option<ContinueTaskPayload>)
        ensures
            match r {
                Some(t) => ContinueTaskPayloadView::required(value_model(*v), key@) == Some(t@),
                None => ContinueTaskPayloadView::required(value_model(*v), key@) is None,
            },
    {
        match value_get(v, key) {
            Some(c) => ContinueTaskPayload::from_value(c),
            None => None,
        }
    }

    /// Reads the optional member `key` as a payload; `Err` is a mismatch.
    pub fn read_optional(v: &serde_json::Value, key: &str) -> (r: Result<Option<ContinueTaskPayload>, ()>)
        ensures
            match r {
                Ok(o) => ContinueTaskPayloadView::optional(value_model(*v), key@) == Some(
                    match o {
                        Some(t) => Some(t@),
                        None => None,
                    },
                ),
                Err(_) => ContinueTaskPayloadView::optional(value_model(*v), key@) is None,
            },
    {
        match read_member(v, key) {
            None => Ok(None),
            Some(c) => match ContinueTaskPayload::from_value(c) {
                Some(t) => Ok(Some(t)),
                None => Err(()),
            },
        }
    }

    /// An optional payload as an optional wire value.
    pub fn optional_value(o: &Option<ContinueTaskPayload>) -> (r: Option<serde_json::Value>)
        ensures
            optional_model(r) == ContinueTaskPayloadView::optional_json(
                match o {
                    Some(t) => Some(t@),
                    None => None,
                },
            ),
    {
        match o {
            Some(t) => Some(t.to_value()),
            None => None,
        }
    }
}

/// The command that feeds more text to a synthesis task.
#[derive(Debug, Clone, PartialEq, Eq)]
pub struct ContinueTaskParameters {
    pub header: TaskHeader,
    pub payload: ContinueTaskPayload,
}

/// The content of a [`ContinueTaskParameters`].
pub struct ContinueTaskParametersView {
    pub header: TaskHeaderView,
    pub payload: ContinueTaskPayloadView,
}

impl View for ContinueTaskParameters {
    type V = ContinueTaskParametersView;

    open spec fn view(&self) -> ContinueTaskParametersView {
        ContinueTaskParametersView {
            header: self.header@,
            payload: self.payload@,
        }
    }
}

impl ContinueTaskParametersView {
    /// The continue command that a wire value holds, if it has the shape of one.
    pub open spec fn from_json(j: JsonValue) -> Option<ContinueTaskParametersView> {
        let header = TaskHeaderView::required(j, "header"@);
        let payload = ContinueTaskPayloadView::required(j, "payload"@);
        if j is Object
            && header is Some
            && payload is Some {
            Some(
                ContinueTaskParametersView {
                    header: header->0,
                    payload: payload->0,
                },
            )
        } else {
            None
        }
    }

    /// The wire value of this continue command.
    pub open spec fn to_json(self) -> JsonValue {
        JsonValue::empty_object().with("header"@, self.header.to_json()).with("payload"@, self.payload.to_json())
    }
}

impl ContinueTaskParameters {
    /// Reads a continue command out of a wire value.
    pub fn from_value(v: &serde_json::Value) -> (r: Option<ContinueTaskParameters>)
        ensures
            match r {
                Some(t) => ContinueTaskParametersView::from_json(value_model(*v)) == Some(t@),
                None => ContinueTaskParametersView::from_json(value_model(*v)) is None,
            },
    {
        if !value_is_object(v) {
            return None;
        }
        let header = match TaskHeader::read_required(v, "header") {
            Some(x) => x,
            None => return None,
        };
        let payload = match ContinueTaskPayload::read_required(v, "payload") {
            Some(x) => x,
            None => return None,
        };
        Some(ContinueTaskParameters { header, payload })
    }

    /// Writes this continue command as a wire value.
    pub fn to_value(&self) -> (r: serde_json::Value)
        ensures
            value_model(r) == self@.to_json(),
    {
        let mut obj = value_object();
        put(&mut obj, "header", self.header.to_value());
        put(&mut obj, "payload", self.payload.to_value());
        obj
    }

    /// Reads a continue command from the text of a body. A text that is no JSON
    /// document, or a document in another shape, is a deserialization error
    /// that keeps the text.
    pub fn decode(text: &str) -> (r: Result<ContinueTaskParameters, DashScopeError>)
        ensures
            match r {
                Ok(t) => parsed(text@) is Ok && ContinueTaskParametersView::from_json(parsed(text@)->Ok_0) == Some(
                    t@,
                ),
                Err(e) => (parsed(text@) is Err || ContinueTaskParametersView::from_json(parsed(text@)->Ok_0) is None)
                    && e@ == unreadable(text@),
            },
    {
        match parse_value(text) {
            Ok(v) => match ContinueTaskParameters::from_value(&v) {
                Some(t) => Ok(t),
                None => Err(wrong_shape(text)),
            },
            Err(e) => Err(not_json(&e, text)),
        }
    }

    /// Writes this continue command as the text of a body: the rendering of its wire
    /// value. Writing never fails.
    pub fn encode(&self) -> (r: Result<String, DashScopeError>)
        ensures
            r is Ok,
            r matches Ok(s) ==> s@ == rendered(self@.to_json()),
    {
        match render_value(&self.to_value()) {
            Ok(s) => Ok(s),
            Err(e) => Err(not_written(&e)),
        }
    }
}

impl FinishTaskParameters {
    /// The finish command for the task `task_id`.
    pub fn new(task_id: String) -> (r: FinishTaskParameters)
        ensures
            r@ == finish_command(task_id@),
    {
        FinishTaskParameters {
            header: TaskHeader {
                action: TaskAction::FinishTask,
                task_id,
                streaming: default_streaming(),
            },
            payload: FinishTaskPayload { input: value_object() },
        }
    }
}

/// The start command of a recognition task: action `run-task`, mode
/// `duplex`, group `audio`, family `asr`, function `recognition`, an empty
/// input, and of the parameters the format and the sample rate only.
pub open spec fn asr_run_command(
    task_id: Seq<char>,
    model: Seq<char>,
    format: Seq<char>,
    sample_rate: Option<u32>,
) -> RunTaskParametersView {
    RunTaskParametersView {
        header: TaskHeaderView { action: TaskAction::RunTask, task_id, streaming: "duplex"@ },
        payload: RunTaskPayloadView {
            task_group: "audio"@,
            task: RunTaskType::Asr,
            function: RunTaskFunction::Recognition,
            model,
            input: JsonValue::empty_object(),
            parameters: TaskParametersView { format, sample_rate, ..TaskParametersView::blank() },
        },
    }
}

/// The start command of a synthesis task: action `run-task`, mode `duplex`,
/// group `audio`, family `tts`, function `SpeechSynthesizer`, the text (where
/// one is given) as the input's member `text`, and of the parameters the
/// plain text kind, the voice and the format only.
pub open spec fn tts_run_command(
    task_id: Seq<char>,
    model: Seq<char>,
    voice: Option<Seq<char>>,
    format: Seq<char>,
    text: Option<Seq<char>>,
) -> RunTaskParametersView {
    RunTaskParametersView {
        header: TaskHeaderView { action: TaskAction::RunTask, task_id, streaming: "duplex"@ },
        payload: RunTaskPayloadView {
            task_group: "audio"@,
            task: RunTaskType::Tts,
            function: RunTaskFunction::SpeechSynthesizer,
            model,
            input: JsonValue::empty_object().with_opt("text"@, text_json(text)),
            parameters: TaskParametersView {
                text_type: Some(TextType::PlainText),
                voice,
                format,
                ..TaskParametersView::blank()
            },
        },
    }
}

/// The finish command of a task: action `finish-task`, mode `duplex`, and
/// an empty input.
pub open spec fn finish_command(task_id: Seq<char>) -> FinishTaskParametersView {
    FinishTaskParametersView {
        header: TaskHeaderView { action: TaskAction::FinishTask, task_id, streaming: "duplex"@ },
        payload: FinishTaskPayloadView { input: JsonValue::empty_object() },
    }
}

/// The continue command of a task: action `continue-task`, mode `duplex`,
/// and the text as the input.
pub open spec fn continue_command(task_id: Seq<char>, text: Seq<char>) -> ContinueTaskParametersView {
    ContinueTaskParametersView {
        header: TaskHeaderView { action: TaskAction::ContinueTask, task_id, streaming: "duplex"@ },
        payload: ContinueTaskPayloadView { input: ContinueTaskInputView { text } },
    }
}

/// Builds the start command of a recognition task. For more parameters,
/// use the builders.
pub fn create_asr_run_task(task_id: &str, model: &str, format: &str, sample_rate: Option<u32>) -> (r:
    RunTaskParameters)
    ensures
        r@ == asr_run_command(task_id@, model@, format@, sample_rate),
        r@.wf(),
{
    let mut parameters = TaskParameters::default();
    parameters.format = format.to_owned();
    parameters.sample_rate = sample_rate;
    RunTaskParameters {
        header: TaskHeader::of(TaskAction::RunTask, task_id),
        payload: RunTaskPayload {
            task_group: "audio".to_owned(),
            task: RunTaskType::Asr,
            function: RunTaskFunction::Recognition,
            model: model.to_owned(),
            input: value_object(),
            parameters,
        },
    }
}

/// Builds the start command of a synthesis task. For more parameters, use
/// the builders.
pub fn create_tts_run_task(
    task_id: &str,
    model: &str,
    voice: Option<&str>,
    format: &str,
    text: Option<&str>,
) -> (r: RunTaskParameters)
    ensures
        r@ == tts_run_command(
            task_id@,
            model@,
            match voice {
                Some(v) => Some(v@),
                None => None,
            },
            format@,
            match text {
                Some(t) => Some(t@),
                None => None,
            },
        ),
        r@.wf(),
{
    let mut input = value_object();
    proof {
        reveal(JsonValue::with_opt);
    }
    match text {
        Some(t) => value_set(&mut input, "text", value_text(t)),
        None => {},
    }
    let mut parameters = TaskParameters::default();
    parameters.text_type = Some(TextType::PlainText);
    parameters.voice = match voice {
        Some(v) => Some(v.to_owned()),
        None => None,
    };
    parameters.format = format.to_owned();
    RunTaskParameters {
        header: TaskHeader::of(TaskAction::RunTask, task_id),
        payload: RunTaskPayload {
            task_group: "audio".to_owned(),
            task: RunTaskType::Tts,
            function: RunTaskFunction::SpeechSynthesizer,
            model: model.to_owned(),
            input,
            parameters,
        },
    }
}

/// Builds the finish command of a task.
pub fn create_finish_task(task_id: &str) -> (r: FinishTaskParameters)
    ensures
        r@ == finish_command(task_id@),
        r@.wf(),
{
    FinishTaskParameters {
        header: TaskHeader::of(TaskAction::FinishTask, task_id),
        payload: FinishTaskPayload { input: value_object() },
    }
}

/// Builds the continue command that feeds `text` to a task.
pub fn create_continue_task(task_id: String, text: &str) -> (r: ContinueTaskParameters)
    ensures
        r@ == continue_command(task_id@, text@),
{
    ContinueTaskParameters {
        header: TaskHeader {
            action: TaskAction::ContinueTask,
            task_id,
            streaming: default_streaming(),
        },
        payload: ContinueTaskPayload { input: ContinueTaskInput { text: text.to_owned() } },
    }
}

} // verus!
