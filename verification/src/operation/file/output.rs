//! The answers of the file service.

use crate::body::{not_json, unreadable, wrong_shape};
use crate::error::DashScopeError;
use crate::json::{
    JsonValue, models, parse_value, parsed, value_as_array, value_get, value_is_object, value_model,
};
use crate::wire::{read_member, read_opt_text, read_opt_u64, read_req_text, read_req_u64, text_view};
use vstd::prelude::*;

verus! {

/// A file that was taken.
#[derive(Debug, Clone, PartialEq, Eq)]
pub struct UploadedFile {
    pub file_id: String,
    pub name: String,
}

/// The content of an [`UploadedFile`].
pub struct UploadedFileView {
    pub file_id: Seq<char>,
    pub name: Seq<char>,
}

impl View for UploadedFile {
    type V = UploadedFileView;

    open spec fn view(&self) -> UploadedFileView {
        UploadedFileView {
            file_id: self.file_id@,
            name: self.name@,
        }
    }
}

impl UploadedFileView {
    /// The file that a wire value holds, if it has the shape of one.
    pub open spec fn from_json(j: JsonValue) -> Option<UploadedFileView> {
        let file_id = j.req_text("file_id"@);
        let name = j.req_text("name"@);
        if j is Object
            && file_id is Some
            && name is Some {
            Some(
                UploadedFileView {
                    file_id: file_id->0,
                    name: name->0,
                },
            )
        } else {
            None
        }
    }

    /// The run that a wire array holds, if every item has the shape of a file.
    pub open spec fn seq_from_json(j: JsonValue) -> Option<Seq<UploadedFileView>> {
        match j {
            JsonValue::Array(items) => if forall|i: int|
                0 <= i < items.len() ==> (#[trigger] UploadedFileView::from_json(items[i])) is Some {
                Some(Seq::new(items.len(), |i: int| UploadedFileView::from_json(items[i])->0))
            } else {
                None
            },
            _ => None,
        }
    }

    /// The required member `key`, read as a run.
    pub open spec fn required_seq(j: JsonValue, key: Seq<char>) -> Option<Seq<UploadedFileView>> {
        match j.field(key) {
            Some(c) => UploadedFileView::seq_from_json(c),
            None => None,
        }
    }

    /// The optional member `key`, read as a run; the outer `None` is a mismatch.
    pub open spec fn optional_seq(j: JsonValue, key: Seq<char>) -> Option<Option<Seq<UploadedFileView>>> {
        match j.member(key) {
            None => Some(None),
            Some(c) => match UploadedFileView::seq_from_json(c) {
                Some(x) => Some(Some(x)),
                None => None,
            },
        }
    }
}

impl UploadedFile {
    /// The contents of a run of these.
    pub open spec fn seq_view(ts: Seq<UploadedFile>) -> Seq<UploadedFileView> {
        Seq::new(ts.len(), |i: int| ts[i]@)
    }

    /// Reads a file out of a wire value.
    pub fn from_value(v: &serde_json::Value) -> (r: Option<UploadedFile>)
        ensures
            match r {
                Some(t) => UploadedFileView::from_json(value_model(*v)) == Some(t@),
                None => UploadedFileView::from_json(value_model(*v)) is None,
            },
    {
        if !value_is_object(v) {
            return None;
        }
        let file_id = match read_req_text(v, "file_id") {
            Some(x) => x,
            None => return None,
        };
        let name = match read_req_text(v, "name") {
            Some(x) => x,
            None => return None,
        };
        Some(UploadedFile { file_id, name })
    }

    /// Reads a run out of a wire array.
    pub fn read_seq(v: &serde_json::Value) -> (r: Option<Vec<UploadedFile>>)
        ensures
            match r {
                Some(ts) => UploadedFileView::seq_from_json(value_model(*v)) == Some(UploadedFile::seq_view(ts@)),
                None => UploadedFileView::seq_from_json(value_model(*v)) is None,
            },
    {
        let items = match value_as_array(v) {
            Some(a) => a,
            None => return None,
        };
        let ghost docs = models(items@);
        let mut out: Vec<UploadedFile> = Vec::new();
        let mut i: usize = 0;
        while i < items.len()
            invariant
                i <= items.len(),
                out@.len() == i,
                docs == models(items@),
                value_model(*v) == JsonValue::Array(docs),
                forall|k: int|
                    0 <= k < i ==> UploadedFileView::from_json(docs[k]) == Some(#[trigger] out@[k]@),
            decreases items.len() - i,
        {
            match UploadedFile::from_value(&items[i]) {
                Some(t) => {
                    out.push(t);
                },
                None => {
                    proof {
                        assert(UploadedFileView::from_json(docs[i as int]) is None);
                    }
                    return None;
                },
            }
            i += 1;
        }
        proof {
            assert forall|k: int| 0 <= k < docs.len() implies (#[trigger] UploadedFileView::from_json(
                docs[k],
            )) == Some(out@[k]@) by {
                let _ = out@[k]@;
            }
            assert(UploadedFileView::seq_from_json(value_model(*v))->0 =~= UploadedFile::seq_view(out@));
        }
        Some(out)
    }

    /// Reads the required member `key` as a run.
    pub fn read_required_seq(v: &serde_json::Value, key: &str) -> (r: Option<Vec<UploadedFile>>)
        ensures
            match r {
                Some(ts) => UploadedFileView::required_seq(value_model(*v), key@) == Some(
                    UploadedFile::seq_view(ts@),
                ),
                None => UploadedFileView::required_seq(value_model(*v), key@) is None,
            },
    {
        match value_get(v, key) {
            Some(c) => UploadedFile::read_seq(c),
            None => None,
        }
    }

    /// Reads the optional member `key` as a run; `Err` is a mismatch.
    pub fn read_optional_seq(v: &serde_json::Value, key: &str) -> (r: Result<
        Option<Vec<UploadedFile>>,
        (),
    >)
        ensures
            match r {
                Ok(o) => UploadedFileView::optional_seq(value_model(*v), key@) == Some(
                    match o {
                        Some(ts) => Some(UploadedFile::seq_view(ts@)),
                        None => None,
                    },
                ),
                Err(_) => UploadedFileView::optional_seq(value_model(*v), key@) is None,
            },
    {
        match read_member(v, key) {
            None => Ok(None),
            Some(c) => match UploadedFile::read_seq(c) {
                Some(ts) => Ok(Some(ts)),
                None => Err(()),
            },
        }
    }
}

/// A file that was refused, and why.
#[derive(Debug, Clone, PartialEq, Eq)]
pub struct FailedUpload {
    pub name: String,
    pub code: String,
    pub message: String,
}

/// The content of a [`FailedUpload`].
pub struct FailedUploadView {
    pub name: Seq<char>,
    pub code: Seq<char>,
    pub message: Seq<char>,
}

impl View for FailedUpload {
    type V = FailedUploadView;

    open spec fn view(&self) -> FailedUploadView {
        FailedUploadView {
            name: self.name@,
            code: self.code@,
            message: self.message@,
        }
    }
}

impl FailedUploadView {
    /// The refusal that a wire value holds, if it has the shape of one.
    pub open spec fn from_json(j: JsonValue) -> Option<FailedUploadView> {
        let name = j.req_text("name"@);
        let code = j.req_text("code"@);
        let message = j.req_text("message"@);
        if j is Object
            && name is Some
            && code is Some
            && message is Some {
            Some(
                FailedUploadView {
                    name: name->0,
                    code: code->0,
                    message: message->0,
                },
            )
        } else {
            None
        }
    }

    /// The run that a wire array holds, if every item has the shape of a refusal.
    pub open spec fn seq_from_json(j: JsonValue) -> Option<Seq<FailedUploadView>> {
        match j {
            JsonValue::Array(items) => if forall|i: int|
                0 <= i < items.len() ==> (#[trigger] FailedUploadView::from_json(items[i])) is Some {
                Some(Seq::new(items.len(), |i: int| FailedUploadView::from_json(items[i])->0))
            } else {
                None
            },
            _ => None,
        }
    }

    /// The required member `key`, read as a run.
    pub open spec fn required_seq(j: JsonValue, key: Seq<char>) -> Option<Seq<FailedUploadView>> {
        match j.field(key) {
            Some(c) => FailedUploadView::seq_from_json(c),
            None => None,
        }
    }

    /// The optional member `key`, read as a run; the outer `None` is a mismatch.
    pub open spec fn optional_seq(j: JsonValue, key: Seq<char>) -> Option<Option<Seq<FailedUploadView>>> {
        match j.member(key) {
            None => Some(None),
            Some(c) => match FailedUploadView::seq_from_json(c) {
                Some(x) => Some(Some(x)),
                None => None,
            },
        }
    }
}

impl FailedUpload {
    /// The contents of a run of these.
    pub open spec fn seq_view(ts: Seq<FailedUpload>) -> Seq<FailedUploadView> {
        Seq::new(ts.len(), |i: int| ts[i]@)
    }

    /// Reads a refusal out of a wire value.
    pub fn from_value(v: &serde_json::Value) -> (r: Option<FailedUpload>)
        ensures
            match r {
                Some(t) => FailedUploadView::from_json(value_model(*v)) == Some(t@),
                None => FailedUploadView::from_json(value_model(*v)) is None,
            },
    {
        if !value_is_object(v) {
            return None;
        }
        let name = match read_req_text(v, "name") {
            Some(x) => x,
            None => return None,
        };
        let code = match read_req_text(v, "code") {
            Some(x) => x,
            None => return None,
        };
        let message = match read_req_text(v, "message") {
            Some(x) => x,
            None => return None,
        };
        Some(FailedUpload { name, code, message })
    }

    /// Reads a run out of a wire array.
    pub fn read_seq(v: &serde_json::Value) -> (r: Option<Vec<FailedUpload>>)
        ensures
            match r {
                Some(ts) => FailedUploadView::seq_from_json(value_model(*v)) == Some(FailedUpload::seq_view(ts@)),
                None => FailedUploadView::seq_from_json(value_model(*v)) is None,
            },
    {
        let items = match value_as_array(v) {
            Some(a) => a,
            None => return None,
        };
        let ghost docs = models(items@);
        let mut out: Vec<FailedUpload> = Vec::new();
        let mut i: usize = 0;
        while i < items.len()
            invariant
                i <= items.len(),
                out@.len() == i,
                docs == models(items@),
                value_model(*v) == JsonValue::Array(docs),
                forall|k: int|
                    0 <= k < i ==> FailedUploadView::from_json(docs[k]) == Some(#[trigger] out@[k]@),
            decreases items.len() - i,
        {
            match FailedUpload::from_value(&items[i]) {
                Some(t) => {
                    out.push(t);
                },
                None => {
                    proof {
                        assert(FailedUploadView::from_json(docs[i as int]) is None);
                    }
                    return None;
                },
            }
            i += 1;
        }
        proof {
            assert forall|k: int| 0 <= k < docs.len() implies (#[trigger] FailedUploadView::from_json(
                docs[k],
            )) == Some(out@[k]@) by {
                let _ = out@[k]@;
            }
            assert(FailedUploadView::seq_from_json(value_model(*v))->0 =~= FailedUpload::seq_view(out@));
        }
        Some(out)
    }

    /// Reads the required member `key` as a run.
    pub fn read_required_seq(v: &serde_json::Value, key: &str) -> (r: Option<Vec<FailedUpload>>)
        ensures
            match r {
                Some(ts) => FailedUploadView::required_seq(value_model(*v), key@) == Some(
                    FailedUpload::seq_view(ts@),
                ),
                None => FailedUploadView::required_seq(value_model(*v), key@) is None,
            },
    {
        match value_get(v, key) {
            Some(c) => FailedUpload::read_seq(c),
            None => None,
        }
    }

    /// Reads the optional member `key` as a run; `Err` is a mismatch.
    pub fn read_optional_seq(v: &serde_json::Value, key: &str) -> (r: Result<
        Option<Vec<FailedUpload>>,
        (),
    >)
        ensures
            match r {
                Ok(o) => FailedUploadView::optional_seq(value_model(*v), key@) == Some(
                    match o {
                        Some(ts) => Some(FailedUpload::seq_view(ts@)),
                        None => None,
                    },
                ),
                Err(_) => FailedUploadView::optional_seq(value_model(*v), key@) is None,
            },
    {
        match read_member(v, key) {
            None => Ok(None),
            Some(c) => match FailedUpload::read_seq(c) {
                Some(ts) => Ok(Some(ts)),
                None => Err(()),
            },
        }
    }
}

/// What became of the files of one upload.
#[derive(Debug, Clone, PartialEq, Eq)]
pub struct FileUploadData {
    pub uploaded_files: Vec<UploadedFile>,
    pub failed_uploads: Vec<FailedUpload>,
}

/// The content of a [`FileUploadData`].
pub struct FileUploadDataView {
    pub uploaded_files: Seq<UploadedFileView>,
    pub failed_uploads: Seq<FailedUploadView>,
}

impl View for FileUploadData {
    type V = FileUploadDataView;

    open spec fn view(&self) -> FileUploadDataView {
        FileUploadDataView {
            uploaded_files: UploadedFile::seq_view(self.uploaded_files@),
            failed_uploads: FailedUpload::seq_view(self.failed_uploads@),
        }
    }
}

impl FileUploadDataView {
    /// The result that a wire value holds, if it has the shape of one.
    pub open spec fn from_json(j: JsonValue) -> Option<FileUploadDataView> {
        let uploaded_files = UploadedFileView::required_seq(j, "uploaded_files"@);
        let failed_uploads = FailedUploadView::required_seq(j, "failed_uploads"@);
        if j is Object
            && uploaded_files is Some
            && failed_uploads is Some {
            Some(
                FileUploadDataView {
                    uploaded_files: uploaded_files->0,
                    failed_uploads: failed_uploads->0,
                },
            )
        } else {
            None
        }
    }

    /// The required member `key`, read as a result.
    pub open spec fn required(j: JsonValue, key: Seq<char>) -> Option<FileUploadDataView> {
        match j.field(key) {
            Some(c) => FileUploadDataView::from_json(c),
            None => None,
        }
    }

    /// The optional member `key`, read as a result; the outer `None` is a mismatch.
    pub open spec fn optional(j: JsonValue, key: Seq<char>) -> Option<Option<FileUploadDataView>> {
        match j.member(key) {
            None => Some(None),
            Some(c) => match FileUploadDataView::from_json(c) {
                Some(x) => Some(Some(x)),
                None => None,
            },
        }
    }
}

impl FileUploadData {
    /// Reads a result out of a wire value.
    pub fn from_value(v: &serde_json::Value) -> (r: Option<FileUploadData>)
        ensures
            match r {
                Some(t) => FileUploadDataView::from_json(value_model(*v)) == Some(t@),
                None => FileUploadDataView::from_json(value_model(*v)) is None,
            },
    {
        if !value_is_object(v) {
            return None;
        }
        let uploaded_files = match UploadedFile::read_required_seq(v, "uploaded_files") {
            Some(x) => x,
            None => return None,
        };
        let failed_uploads = match FailedUpload::read_required_seq(v, "failed_uploads") {
            Some(x) => x,
            None => return None,
        };
        Some(FileUploadData { uploaded_files, failed_uploads })
    }

    /// Reads the required member `key` as a result.
    pub fn read_required(v: &serde_json::Value, key: &str) -> (r: Option<FileUploadData>)
        ensures
            match r {
                Some(t) => FileUploadDataView::required(value_model(*v), key@) == Some(t@),
                None => FileUploadDataView::required(value_model(*v), key@) is None,
            },
    {
        match value_get(v, key) {
            Some(c) => FileUploadData::from_value(c),
            None => None,
        }
    }

    /// Reads the optional member `key` as a result; `Err` is a mismatch.
    pub fn read_optional(v: &serde_json::Value, key: &str) -> (r: Result<Option<FileUploadData>, ()>)
        ensures
            match r {
                Ok(o) => FileUploadDataView::optional(value_model(*v), key@) == Some(
                    match o {
                        Some(t) => Some(t@),
                        None => None,
                    },
                ),
                Err(_) => FileUploadDataView::optional(value_model(*v), key@) is None,
            },
    {
        match read_member(v, key) {
            None => Ok(None),
            Some(c) => match FileUploadData::from_value(c) {
                Some(t) => Ok(Some(t)),
                None => Err(()),
            },
        }
    }
}

/// The answer to an upload.
#[derive(Debug, Clone, PartialEq, Eq)]
pub struct FileUploadOutput {
    pub request_id: String,
    pub data: FileUploadData,
}

/// The content of a [`FileUploadOutput`].
pub struct FileUploadOutputView {
    pub request_id: Seq<char>,
    pub data: FileUploadDataView,
}

impl View for FileUploadOutput {
    type V = FileUploadOutputView;

    open spec fn view(&self) -> FileUploadOutputView {
        FileUploadOutputView {
            request_id: self.request_id@,
            data: self.data@,
        }
    }
}

impl FileUploadOutputView {
    /// The answer that a wire value holds, if it has the shape of one.
    pub open spec fn from_json(j: JsonValue) -> Option<FileUploadOutputView> {
        let request_id = j.req_text("request_id"@);
        let data = FileUploadDataView::required(j, "data"@);
        if j is Object
            && request_id is Some
            && data is Some {
            Some(
                FileUploadOutputView {
                    request_id: request_id->0,
                    data: data->0,
                },
            )
        } else {
            None
        }
    }
}

impl FileUploadOutput {
    /// Reads an answer out of a wire value.
    pub fn from_value(v: &serde_json::Value) -> (r: Option<FileUploadOutput>)
        ensures
            match r {
                Some(t) => FileUploadOutputView::from_json(value_model(*v)) == Some(t@),
                None => FileUploadOutputView::from_json(value_model(*v)) is None,
            },
    {
        if !value_is_object(v) {
            return None;
        }
        let request_id = match read_req_text(v, "request_id") {
            Some(x) => x,
            None => return None,
        };
        let data = match FileUploadData::read_required(v, "data") {
            Some(x) => x,
            None => return None,
        };
        Some(FileUploadOutput { request_id, data })
    }

    /// Reads an answer from the text of a body. A text that is no JSON
    /// document, or a document in another shape, is a deserialization error
    /// that keeps the text.
    pub fn decode(text: &str) -> (r: Result<FileUploadOutput, DashScopeError>)
        ensures
            match r {
                Ok(t) => parsed(text@) is Ok && FileUploadOutputView::from_json(parsed(text@)->Ok_0) == Some(
                    t@,
                ),
                Err(e) => (parsed(text@) is Err || FileUploadOutputView::from_json(parsed(text@)->Ok_0) is None)
                    && e@ == unreadable(text@),
            },
    {
        match parse_value(text) {
            Ok(v) => match FileUploadOutput::from_value(&v) {
                Some(t) => Ok(t),
                None => Err(wrong_shape(text)),
            },
            Err(e) => Err(not_json(&e, text)),
        }
    }
}

/// What the service knows of a file.
#[derive(Debug, Clone, PartialEq, Eq)]
pub struct FileInfo {
    pub id: Option<u64>,
    pub file_id: String,
    pub name: String,
    pub description: String,
    /// The size in bytes.
    pub size: u64,
    pub md5: String,
    pub gmt_create: String,
    pub url: String,
    pub region: Option<String>,
    pub user_id: Option<String>,
    pub api_key_id: Option<String>,
    pub purpose: Option<String>,
}

/// The content of a [`FileInfo`].
pub struct FileInfoView {
    pub id: Option<u64>,
    pub file_id: Seq<char>,
    pub name: Seq<char>,
    pub description: Seq<char>,
    pub size: u64,
    pub md5: Seq<char>,
    pub gmt_create: Seq<char>,
    pub url: Seq<char>,
    pub region: Option<Seq<char>>,
    pub user_id: Option<Seq<char>>,
    pub api_key_id: Option<Seq<char>>,
    pub purpose: Option<Seq<char>>,
}

impl View for FileInfo {
    type V = FileInfoView;

    open spec fn view(&self) -> FileInfoView {
        FileInfoView {
            id: self.id,
            file_id: self.file_id@,
            name: self.name@,
            description: self.description@,
            size: self.size,
            md5: self.md5@,
            gmt_create: self.gmt_create@,
            url: self.url@,
            region: text_view(self.region),
            user_id: text_view(self.user_id),
            api_key_id: text_view(self.api_key_id),
            purpose: text_view(self.purpose),
        }
    }
}

impl FileInfoView {
    /// The file that a wire value holds, if it has the shape of one.
    pub open spec fn from_json(j: JsonValue) -> Option<FileInfoView> {
        let id = j.opt_u64("id"@);
        let file_id = j.req_text("file_id"@);
        let name = j.req_text("name"@);
        let description = j.req_text("description"@);
        let size = j.req_u64("size"@);
        let md5 = j.req_text("md5"@);
        let gmt_create = j.req_text("gmt_create"@);
        let url = j.req_text("url"@);
        let region = j.opt_text("region"@);
        let user_id = j.opt_text("user_id"@);
        let api_key_id = j.opt_text("api_key_id"@);
        let purpose = j.opt_text("purpose"@);
        if j is Object
            && id is Some
            && file_id is Some
            && name is Some
            && description is Some
            && size is Some
            && md5 is Some
            && gmt_create is Some
            && url is Some
            && region is Some
            && user_id is Some
            && api_key_id is Some
            && purpose is Some {
            Some(
                FileInfoView {
                    id: id->0,
                    file_id: file_id->0,
                    name: name->0,
                    description: description->0,
                    size: size->0,
                    md5: md5->0,
                    gmt_create: gmt_create->0,
                    url: url->0,
                    region: region->0,
                    user_id: user_id->0,
                    api_key_id: api_key_id->0,
                    purpose: purpose->0,
                },
            )
        } else {
            None
        }
    }

    /// The required member `key`, read as a file.
    pub open spec fn required(j: JsonValue, key: Seq<char>) -> Option<FileInfoView> {
        match j.field(key) {
            Some(c) => FileInfoView::from_json(c),
            None => None,
        }
    }

    /// The optional member `key`, read as a file; the outer `None` is a mismatch.
    pub open spec fn optional(j: JsonValue, key: Seq<char>) -> Option<Option<FileInfoView>> {
        match j.member(key) {
            None => Some(None),
            Some(c) => match FileInfoView::from_json(c) {
                Some(x) => Some(Some(x)),
                None => None,
            },
        }
    }

    /// The run that a wire array holds, if every item has the shape of a file.
    pub open spec fn seq_from_json(j: JsonValue) -> Option<Seq<FileInfoView>> {
        match j {
            JsonValue::Array(items) => if forall|i: int|
                0 <= i < items.len() ==> (#[trigger] FileInfoView::from_json(items[i])) is Some {
                Some(Seq::new(items.len(), |i: int| FileInfoView::from_json(items[i])->0))
            } else {
                None
            },
            _ => None,
        }
    }

    /// The required member `key`, read as a run.
    pub open spec fn required_seq(j: JsonValue, key: Seq<char>) -> Option<Seq<FileInfoView>> {
        match j.field(key) {
            Some(c) => FileInfoView::seq_from_json(c),
            None => None,
        }
    }

    /// The optional member `key`, read as a run; the outer `None` is a mismatch.
    pub open spec fn optional_seq(j: JsonValue, key: Seq<char>) -> Option<Option<Seq<FileInfoView>>> {
        match j.member(key) {
            None => Some(None),
            Some(c) => match FileInfoView::seq_from_json(c) {
                Some(x) => Some(Some(x)),
                None => None,
            },
        }
    }
}

impl FileInfo {
    /// The contents of a run of these.
    pub open spec fn seq_view(ts: Seq<FileInfo>) -> Seq<FileInfoView> {
        Seq::new(ts.len(), |i: int| ts[i]@)
    }

    /// Reads a file out of a wire value.
    pub fn from_value(v: &serde_json::Value) -> (r: Option<FileInfo>)
        ensures
            match r {
                Some(t) => FileInfoView::from_json(value_model(*v)) == Some(t@),
                None => FileInfoView::from_json(value_model(*v)) is None,
            },
    {
        if !value_is_object(v) {
            return None;
        }
        let id = match read_opt_u64(v, "id") {
            Ok(x) => x,
            Err(_) => return None,
        };
        let file_id = match read_req_text(v, "file_id") {
            Some(x) => x,
            None => return None,
        };
        let name = match read_req_text(v, "name") {
            Some(x) => x,
            None => return None,
        };
        let description = match read_req_text(v, "description") {
            Some(x) => x,
            None => return None,
        };
        let size = match read_req_u64(v, "size") {
            Some(x) => x,
            None => return None,
        };
        let md5 = match read_req_text(v, "md5") {
            Some(x) => x,
            None => return None,
        };
        let gmt_create = match read_req_text(v, "gmt_create") {
            Some(x) => x,
            None => return None,
        };
        let url = match read_req_text(v, "url") {
            Some(x) => x,
            None => return None,
        };
        let region = match read_opt_text(v, "region") {
            Ok(x) => x,
            Err(_) => return None,
        };
        let user_id = match read_opt_text(v, "user_id") {
            Ok(x) => x,
            Err(_) => return None,
        };
        let api_key_id = match read_opt_text(v, "api_key_id") {
            Ok(x) => x,
            Err(_) => return None,
        };
        let purpose = match read_opt_text(v, "purpose") {
            Ok(x) => x,
            Err(_) => return None,
        };
        Some(FileInfo { id, file_id, name, description, size, md5, gmt_create, url, region, user_id, api_key_id, purpose })
    }

    /// Reads the required member `key` as a file.
    pub fn read_required(v: &serde_json::Value, key: &str) -> (r: Option<FileInfo>)
        ensures
            match r {
                Some(t) => FileInfoView::required(value_model(*v), key@) == Some(t@),
                None => FileInfoView::required(value_model(*v), key@) is None,
            },
    {
        match value_get(v, key) {
            Some(c) => FileInfo::from_value(c),
            None => None,
        }
    }

    /// Reads the optional member `key` as a file; `Err` is a mismatch.
    pub fn read_optional(v: &serde_json::Value, key: &str) -> (r: Result<Option<FileInfo>, ()>)
        ensures
            match r {
                Ok(o) => FileInfoView::optional(value_model(*v), key@) == Some(
                    match o {
                        Some(t) => Some(t@),
                        None => None,
                    },
                ),
                Err(_) => FileInfoView::optional(value_model(*v), key@) is None,
            },
    {
        match read_member(v, key) {
            None => Ok(None),
            Some(c) => match FileInfo::from_value(c) {
                Some(t) => Ok(Some(t)),
                None => Err(()),
            },
        }
    }

    /// Reads a run out of a wire array.
    pub fn read_seq(v: &serde_json::Value) -> (r: Option<Vec<FileInfo>>)
        ensures
            match r {
                Some(ts) => FileInfoView::seq_from_json(value_model(*v)) == Some(FileInfo::seq_view(ts@)),
                None => FileInfoView::seq_from_json(value_model(*v)) is None,
            },
    {
        let items = match value_as_array(v) {
            Some(a) => a,
            None => return None,
        };
        let ghost docs = models(items@);
        let mut out: Vec<FileInfo> = Vec::new();
        let mut i: usize = 0;
        while i < items.len()
            invariant
                i <= items.len(),
                out@.len() == i,
                docs == models(items@),
                value_model(*v) == JsonValue::Array(docs),
                forall|k: int|
                    0 <= k < i ==> FileInfoView::from_json(docs[k]) == Some(#[trigger] out@[k]@),
            decreases items.len() - i,
        {
            match FileInfo::from_value(&items[i]) {
                Some(t) => {
                    out.push(t);
                },
                None => {
                    proof {
                        assert(FileInfoView::from_json(docs[i as int]) is None);
                    }
                    return None;
                },
            }
            i += 1;
        }
        proof {
            assert forall|k: int| 0 <= k < docs.len() implies (#[trigger] FileInfoView::from_json(
                docs[k],
            )) == Some(out@[k]@) by {
                let _ = out@[k]@;
            }
            assert(FileInfoView::seq_from_json(value_model(*v))->0 =~= FileInfo::seq_view(out@));
        }
        Some(out)
    }

    /// Reads the required member `key` as a run.
    pub fn read_required_seq(v: &serde_json::Value, key: &str) -> (r: Option<Vec<FileInfo>>)
        ensures
            match r {
                Some(ts) => FileInfoView::required_seq(value_model(*v), key@) == Some(
                    FileInfo::seq_view(ts@),
                ),
                None => FileInfoView::required_seq(value_model(*v), key@) is None,
            },
    {
        match value_get(v, key) {
            Some(c) => FileInfo::read_seq(c),
            None => None,
        }
    }

    /// Reads the optional member `key` as a run; `Err` is a mismatch.
    pub fn read_optional_seq(v: &serde_json::Value, key: &str) -> (r: Result<
        Option<Vec<FileInfo>>,
        (),
    >)
        ensures
            match r {
                Ok(o) => FileInfoView::optional_seq(value_model(*v), key@) == Some(
                    match o {
                        Some(ts) => Some(FileInfo::seq_view(ts@)),
                        None => None,
                    },
                ),
                Err(_) => FileInfoView::optional_seq(value_model(*v), key@) is None,
            },
    {
        match read_member(v, key) {
            None => Ok(None),
            Some(c) => match FileInfo::read_seq(c) {
                Some(ts) => Ok(Some(ts)),
                None => Err(()),
            },
        }
    }
}

/// One page of the list of files.
#[derive(Debug, Clone, PartialEq, Eq)]
pub struct FileListData {
    /// How many files there are in all.
    pub total: u64,
    pub page_size: u64,
    pub page_no: u64,
    pub files: Vec<FileInfo>,
}

/// The content of a [`FileListData`].
pub struct FileListDataView {
    pub total: u64,
    pub page_size: u64,
    pub page_no: u64,
    pub files: Seq<FileInfoView>,
}

impl View for FileListData {
    type V = FileListDataView;

    open spec fn view(&self) -> FileListDataView {
        FileListDataView {
            total: self.total,
            page_size: self.page_size,
            page_no: self.page_no,
            files: FileInfo::seq_view(self.files@),
        }
    }
}

impl FileListDataView {
    /// The page that a wire value holds, if it has the shape of one.
    pub open spec fn from_json(j: JsonValue) -> Option<FileListDataView> {
        let total = j.req_u64("total"@);
        let page_size = j.req_u64("page_size"@);
        let page_no = j.req_u64("page_no"@);
        let files = FileInfoView::required_seq(j, "files"@);
        if j is Object
            && total is Some
            && page_size is Some
            && page_no is Some
            && files is Some {
            Some(
                FileListDataView {
                    total: total->0,
                    page_size: page_size->0,
                    page_no: page_no->0,
                    files: files->0,
                },
            )
        } else {
            None
        }
    }

    /// The required member `key`, read as a page.
    pub open spec fn required(j: JsonValue, key: Seq<char>) -> Option<FileListDataView> {
        match j.field(key) {
            Some(c) => FileListDataView::from_json(c),
            None => None,
        }
    }

    /// The optional member `key`, read as a page; the outer `None` is a mismatch.
    pub open spec fn optional(j: JsonValue, key: Seq<char>) -> Option<Option<FileListDataView>> {
        match j.member(key) {
            None => Some(None),
            Some(c) => match FileListDataView::from_json(c) {
                Some(x) => Some(Some(x)),
                None => None,
            },
        }
    }
}

impl FileListData {
    /// Reads a page out of a wire value.
    pub fn from_value(v: &serde_json::Value) -> (r: Option<FileListData>)
        ensures
            match r {
                Some(t) => FileListDataView::from_json(value_model(*v)) == Some(t@),
                None => FileListDataView::from_json(value_model(*v)) is None,
            },
    {
        if !value_is_object(v) {
            return None;
        }
        let total = match read_req_u64(v, "total") {
            Some(x) => x,
            None => return None,
        };
        let page_size = match read_req_u64(v, "page_size") {
            Some(x) => x,
            None => return None,
        };
        let page_no = match read_req_u64(v, "page_no") {
            Some(x) => x,
            None => return None,
        };
        let files = match FileInfo::read_required_seq(v, "files") {
            Some(x) => x,
            None => return None,
        };
        Some(FileListData { total, page_size, page_no, files })
    }

    /// Reads the required member `key` as a page.
    pub fn read_required(v: &serde_json::Value, key: &str) -> (r: Option<FileListData>)
        ensures
            match r {
                Some(t) => FileListDataView::required(value_model(*v), key@) == Some(t@),
                None => FileListDataView::required(value_model(*v), key@) is None,
            },
    {
        match value_get(v, key) {
            Some(c) => FileListData::from_value(c),
            None => None,
        }
    }

    /// Reads the optional member `key` as a page; `Err` is a mismatch.
    pub fn read_optional(v: &serde_json::Value, key: &str) -> (r: Result<Option<FileListData>, ()>)
        ensures
            match r {
                Ok(o) => FileListDataView::optional(value_model(*v), key@) == Some(
                    match o {
                        Some(t) => Some(t@),
                        None => None,
                    },
                ),
                Err(_) => FileListDataView::optional(value_model(*v), key@) is None,
            },
    {
        match read_member(v, key) {
            None => Ok(None),
            Some(c) => match FileListData::from_value(c) {
                Some(t) => Ok(Some(t)),
                None => Err(()),
            },
        }
    }
}

/// The answer to a request for the list of files.
#[derive(Debug, Clone, PartialEq, Eq)]
pub struct FileListOutput {
    pub request_id: String,
    pub data: FileListData,
}

/// The content of a [`FileListOutput`].
pub struct FileListOutputView {
    pub request_id: Seq<char>,
    pub data: FileListDataView,
}

impl View for FileListOutput {
    type V = FileListOutputView;

    open spec fn view(&self) -> FileListOutputView {
        FileListOutputView {
            request_id: self.request_id@,
            data: self.data@,
        }
    }
}

impl FileListOutputView {
    /// The answer that a wire value holds, if it has the shape of one.
    pub open spec fn from_json(j: JsonValue) -> Option<FileListOutputView> {
        let request_id = j.req_text("request_id"@);
        let data = FileListDataView::required(j, "data"@);
        if j is Object
            && request_id is Some
            && data is Some {
            Some(
                FileListOutputView {
                    request_id: request_id->0,
                    data: data->0,
                },
            )
        } else {
            None
        }
    }
}

impl FileListOutput {
    /// Reads an answer out of a wire value.
    pub fn from_value(v: &serde_json::Value) -> (r: Option<FileListOutput>)
        ensures
            match r {
                Some(t) => FileListOutputView::from_json(value_model(*v)) == Some(t@),
                None => FileListOutputView::from_json(value_model(*v)) is None,
            },
    {
        if !value_is_object(v) {
            return None;
        }
        let request_id = match read_req_text(v, "request_id") {
            Some(x) => x,
            None => return None,
        };
        let data = match FileListData::read_required(v, "data") {
            Some(x) => x,
            None => return None,
        };
        Some(FileListOutput { request_id, data })
    }

    /// Reads an answer from the text of a body. A text that is no JSON
    /// document, or a document in another shape, is a deserialization error
    /// that keeps the text.
    pub fn decode(text: &str) -> (r: Result<FileListOutput, DashScopeError>)
        ensures
            match r {
                Ok(t) => parsed(text@) is Ok && FileListOutputView::from_json(parsed(text@)->Ok_0) == Some(
                    t@,
                ),
                Err(e) => (parsed(text@) is Err || FileListOutputView::from_json(parsed(text@)->Ok_0) is None)
                    && e@ == unreadable(text@),
            },
    {
        match parse_value(text) {
            Ok(v) => match FileListOutput::from_value(&v) {
                Some(t) => Ok(t),
                None => Err(wrong_shape(text)),
            },
            Err(e) => Err(not_json(&e, text)),
        }
    }
}

/// The answer to a query for one file.
#[derive(Debug, Clone, PartialEq, Eq)]
pub struct FileRetrieveOutput {
    pub request_id: String,
    pub data: FileInfo,
}

/// The content of a [`FileRetrieveOutput`].
pub struct FileRetrieveOutputView {
    pub request_id: Seq<char>,
    pub data: FileInfoView,
}

impl View for FileRetrieveOutput {
    type V = FileRetrieveOutputView;

    open spec fn view(&self) -> FileRetrieveOutputView {
        FileRetrieveOutputView {
            request_id: self.request_id@,
            data: self.data@,
        }
    }
}

impl FileRetrieveOutputView {
    /// The answer that a wire value holds, if it has the shape of one.
    pub open spec fn from_json(j: JsonValue) -> Option<FileRetrieveOutputView> {
        let request_id = j.req_text("request_id"@);
        let data = FileInfoView::required(j, "data"@);
        if j is Object
            && request_id is Some
            && data is Some {
            Some(
                FileRetrieveOutputView {
                    request_id: request_id->0,
                    data: data->0,
                },
            )
        } else {
            None
        }
    }
}

impl FileRetrieveOutput {
    /// Reads an answer out of a wire value.
    pub fn from_value(v: &serde_json::Value) -> (r: Option<FileRetrieveOutput>)
        ensures
            match r {
                Some(t) => FileRetrieveOutputView::from_json(value_model(*v)) == Some(t@),
                None => FileRetrieveOutputView::from_json(value_model(*v)) is None,
            },
    {
        if !value_is_object(v) {
            return None;
        }
        let request_id = match read_req_text(v, "request_id") {
            Some(x) => x,
            None => return None,
        };
        let data = match FileInfo::read_required(v, "data") {
            Some(x) => x,
            None => return None,
        };
        Some(FileRetrieveOutput { request_id, data })
    }

    /// Reads an answer from the text of a body. A text that is no JSON
    /// document, or a document in another shape, is a deserialization error
    /// that keeps the text.
    pub fn decode(text: &str) -> (r: Result<FileRetrieveOutput, DashScopeError>)
        ensures
            match r {
                Ok(t) => parsed(text@) is Ok && FileRetrieveOutputView::from_json(parsed(text@)->Ok_0) == Some(
                    t@,
                ),
                Err(e) => (parsed(text@) is Err || FileRetrieveOutputView::from_json(parsed(text@)->Ok_0) is None)
                    && e@ == unreadable(text@),
            },
    {
        match parse_value(text) {
            Ok(v) => match FileRetrieveOutput::from_value(&v) {
                Some(t) => Ok(t),
                None => Err(wrong_shape(text)),
            },
            Err(e) => Err(not_json(&e, text)),
        }
    }
}

/// The answer to the deletion of a file.
#[derive(Debug, Clone, PartialEq, Eq)]
pub struct FileDeleteOutput {
    pub request_id: String,
    pub code: Option<String>,
    pub message: Option<String>,
}

/// The content of a [`FileDeleteOutput`].
pub struct FileDeleteOutputView {
    pub request_id: Seq<char>,
    pub code: Option<Seq<char>>,
    pub message: Option<Seq<char>>,
}

impl View for FileDeleteOutput {
    type V = FileDeleteOutputView;

    open spec fn view(&self) -> FileDeleteOutputView {
        FileDeleteOutputView {
            request_id: self.request_id@,
            code: text_view(self.code),
            message: text_view(self.message),
        }
    }
}

impl FileDeleteOutputView {
    /// The answer that a wire value holds, if it has the shape of one.
    pub open spec fn from_json(j: JsonValue) -> Option<FileDeleteOutputView> {
        let request_id = j.req_text("request_id"@);
        let code = j.opt_text("code"@);
        let message = j.opt_text("message"@);
        if j is Object
            && request_id is Some
            && code is Some
            && message is Some {
            Some(
                FileDeleteOutputView {
                    request_id: request_id->0,
                    code: code->0,
                    message: message->0,
                },
            )
        } else {
            None
        }
    }
}

impl FileDeleteOutput {
    /// Reads an answer out of a wire value.
    pub fn from_value(v: &serde_json::Value) -> (r: Option<FileDeleteOutput>)
        ensures
            match r {
                Some(t) => FileDeleteOutputView::from_json(value_model(*v)) == Some(t@),
                None => FileDeleteOutputView::from_json(value_model(*v)) is None,
            },
    {
        if !value_is_object(v) {
            return None;
        }
        let request_id = match read_req_text(v, "request_id") {
            Some(x) => x,
            None => return None,
        };
        let code = match read_opt_text(v, "code") {
            Ok(x) => x,
            Err(_) => return None,
        };
        let message = match read_opt_text(v, "message") {
            Ok(x) => x,
            Err(_) => return None,
        };
        Some(FileDeleteOutput { request_id, code, message })
    }

    /// Reads an answer from the text of a body. A text that is no JSON
    /// document, or a document in another shape, is a deserialization error
    /// that keeps the text.
    pub fn decode(text: &str) -> (r: Result<FileDeleteOutput, DashScopeError>)
        ensures
            match r {
                Ok(t) => parsed(text@) is Ok && FileDeleteOutputView::from_json(parsed(text@)->Ok_0) == Some(
                    t@,
                ),
                Err(e) => (parsed(text@) is Err || FileDeleteOutputView::from_json(parsed(text@)->Ok_0) is None)
                    && e@ == unreadable(text@),
            },
    {
        match parse_value(text) {
            Ok(v) => match FileDeleteOutput::from_value(&v) {
                Some(t) => Ok(t),
                None => Err(wrong_shape(text)),
            },
            Err(e) => Err(not_json(&e, text)),
        }
    }
}

} // verus!
