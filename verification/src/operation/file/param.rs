//! The parameters of an upload.

use crate::json::{JsonValue, value_model, value_object};
use crate::wire::{
    opt_texts_view, put, put_opt, put_text, texts_json, texts_to_json, texts_value, texts_view,
    write_texts,
};
use vstd::prelude::*;

verus! {

/// What an upload needs: the paths of the files, what they are for, and, where
/// the caller likes, a description of each.
#[derive(Debug, Clone, PartialEq, Eq)]
pub struct FileUploadParam {
    /// The paths of the files.
    pub files: Vec<String>,
    /// What the files are for, such as `fine-tune`.
    pub purpose: String,
    /// A description of each file.
    pub descriptions: Option<Vec<String>>,
}

/// The content of a [`FileUploadParam`].
pub struct FileUploadParamView {
    pub files: Seq<Seq<char>>,
    pub purpose: Seq<char>,
    pub descriptions: Option<Seq<Seq<char>>>,
}

impl View for FileUploadParam {
    type V = FileUploadParamView;

    open spec fn view(&self) -> FileUploadParamView {
        FileUploadParamView {
            files: texts_view(self.files@),
            purpose: self.purpose@,
            descriptions: opt_texts_view(self.descriptions),
        }
    }
}

impl FileUploadParamView {
    /// The wire value of this upload.
    pub open spec fn to_json(self) -> JsonValue {
        JsonValue::empty_object().with("files"@, texts_to_json(self.files)).with("purpose"@, JsonValue::Text(self.purpose)).with_opt("descriptions"@, texts_json(self.descriptions))
    }
}

impl FileUploadParam {
    /// Writes this upload as a wire value.
    pub fn to_value(&self) -> (r: serde_json::Value)
        ensures
            value_model(r) == self@.to_json(),
    {
        let mut obj = value_object();
        put(&mut obj, "files", write_texts(&self.files));
        put_text(&mut obj, "purpose", self.purpose.as_str());
        put_opt(&mut obj, "descriptions", texts_value(&self.descriptions));
        obj
    }
}

impl FileUploadParam {
    /// A builder in which nothing is set.
    pub fn builder() -> (r: FileUploadParamBuilder)
        ensures
            r.files is None,
            r.purpose is None,
            r.descriptions is None,
    {
        FileUploadParamBuilder::default()
    }
}

/// Collects the members of a [`FileUploadParam`] one by one.
#[derive(Debug, Clone)]
pub struct FileUploadParamBuilder {
    pub files: Option<Vec<String>>,
    pub purpose: Option<String>,
    pub descriptions: Option<Vec<String>>,
}

impl Default for FileUploadParamBuilder {
    /// A builder in which nothing is set.
    fn default() -> (r: FileUploadParamBuilder)
        ensures
            r.files is None,
            r.purpose is None,
            r.descriptions is None,
    {
        FileUploadParamBuilder { files: None, purpose: None, descriptions: None }
    }
}

/// The message of a builder that has no file.
pub open spec fn no_files_text() -> Seq<char> {
    "Files cannot be empty"@
}

/// The message of a builder that has no purpose.
pub open spec fn no_purpose_text() -> Seq<char> {
    "Purpose is required"@
}

impl FileUploadParamBuilder {
    /// Sets the paths of the files.
    pub fn files(self, files: Vec<String>) -> (r: FileUploadParamBuilder)
        ensures
            r == (FileUploadParamBuilder { files: Some(files), ..self }),
    {
        FileUploadParamBuilder { files: Some(files), ..self }
    }

    /// Sets what the files are for.
    pub fn purpose(self, purpose: String) -> (r: FileUploadParamBuilder)
        ensures
            r == (FileUploadParamBuilder { purpose: Some(purpose), ..self }),
    {
        FileUploadParamBuilder { purpose: Some(purpose), ..self }
    }

    /// Sets the descriptions of the files.
    pub fn descriptions(self, descriptions: Vec<String>) -> (r: FileUploadParamBuilder)
        ensures
            r == (FileUploadParamBuilder { descriptions: Some(descriptions), ..self }),
    {
        FileUploadParamBuilder { descriptions: Some(descriptions), ..self }
    }

    /// Whether at least one file was given.
    pub open spec fn has_files(self) -> bool {
        self.files matches Some(fs) && fs@.len() > 0
    }

    /// Builds the upload. There must be at least one file, else the builder
    /// fails and says so; and, checked second, a purpose.
    pub fn build(self) -> (r: Result<FileUploadParam, String>)
        ensures
            match r {
                Ok(p) => self.has_files() && self.purpose is Some && p.files == self.files->0
                    && p.purpose == self.purpose->0 && p.descriptions == self.descriptions,
                Err(msg) => if !self.has_files() {
                    msg@ == no_files_text()
                } else {
                    self.purpose is None && msg@ == no_purpose_text()
                },
            },
    {
        let files = match self.files {
            Some(fs) => fs,
            None => Vec::new(),
        };
        if files.len() == 0 {
            return Err("Files cannot be empty".to_owned());
        }
        let purpose = match self.purpose {
            Some(p) => p,
            None => return Err("Purpose is required".to_owned()),
        };
        Ok(FileUploadParam { files, purpose, descriptions: self.descriptions })
    }
}

} // verus!
