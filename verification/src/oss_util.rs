//! Uploads to the temporary storage of the service.

use vstd::string::*;
use crate::body::{not_json, unreadable, wrong_shape};
use crate::error::{DashScopeError, DashScopeErrorView};
use crate::json::{JsonValue, parse_value, parsed, value_get, value_is_object, value_model};
use crate::wire::{read_member, read_req_i32, read_req_i64, read_req_text};
use vstd::prelude::*;

verus! {

/// What the storage service asks of an upload.
#[derive(Debug, Clone, PartialEq, Eq)]
pub struct PolicyData {
    pub policy: String,
    pub signature: String,
    pub upload_dir: String,
    pub upload_host: String,
    pub expire_in_seconds: i64,
    pub max_file_size_mb: i32,
    pub capacity_limit_mb: i32,
    pub oss_access_key_id: String,
    pub x_oss_object_acl: String,
    pub x_oss_forbid_overwrite: String,
}

/// The content of a [`PolicyData`].
pub struct PolicyDataView {
    pub policy: Seq<char>,
    pub signature: Seq<char>,
    pub upload_dir: Seq<char>,
    pub upload_host: Seq<char>,
    pub expire_in_seconds: i64,
    pub max_file_size_mb: i32,
    pub capacity_limit_mb: i32,
    pub oss_access_key_id: Seq<char>,
    pub x_oss_object_acl: Seq<char>,
    pub x_oss_forbid_overwrite: Seq<char>,
}

impl View for PolicyData {
    type V = PolicyDataView;

    open spec fn view(&self) -> PolicyDataView {
        PolicyDataView {
            policy: self.policy@,
            signature: self.signature@,
            upload_dir: self.upload_dir@,
            upload_host: self.upload_host@,
            expire_in_seconds: self.expire_in_seconds,
            max_file_size_mb: self.max_file_size_mb,
            capacity_limit_mb: self.capacity_limit_mb,
            oss_access_key_id: self.oss_access_key_id@,
            x_oss_object_acl: self.x_oss_object_acl@,
            x_oss_forbid_overwrite: self.x_oss_forbid_overwrite@,
        }
    }
}

impl PolicyDataView {
    /// The policy that a wire value holds, if it has the shape of one.
    pub open spec fn from_json(j: JsonValue) -> Option<PolicyDataView> {
        let policy = j.req_text("policy"@);
        let signature = j.req_text("signature"@);
        let upload_dir = j.req_text("upload_dir"@);
        let upload_host = j.req_text("upload_host"@);
        let expire_in_seconds = j.req_i64("expire_in_seconds"@);
        let max_file_size_mb = j.req_i32("max_file_size_mb"@);
        let capacity_limit_mb = j.req_i32("capacity_limit_mb"@);
        let oss_access_key_id = j.req_text("oss_access_key_id"@);
        let x_oss_object_acl = j.req_text("x_oss_object_acl"@);
        let x_oss_forbid_overwrite = j.req_text("x_oss_forbid_overwrite"@);
        if j is Object
            && policy is Some
            && signature is Some
            && upload_dir is Some
            && upload_host is Some
            && expire_in_seconds is Some
            && max_file_size_mb is Some
            && capacity_limit_mb is Some
            && oss_access_key_id is Some
            && x_oss_object_acl is Some
            && x_oss_forbid_overwrite is Some {
            Some(
                PolicyDataView {
                    policy: policy->0,
                    signature: signature->0,
                    upload_dir: upload_dir->0,
                    upload_host: upload_host->0,
                    expire_in_seconds: expire_in_seconds->0,
                    max_file_size_mb: max_file_size_mb->0,
                    capacity_limit_mb: capacity_limit_mb->0,
                    oss_access_key_id: oss_access_key_id->0,
                    x_oss_object_acl: x_oss_object_acl->0,
                    x_oss_forbid_overwrite: x_oss_forbid_overwrite->0,
                },
            )
        } else {
            None
        }
    }

    /// The required member `key`, read as a policy.
    pub open spec fn required(j: JsonValue, key: Seq<char>) -> Option<PolicyDataView> {
        match j.field(key) {
            Some(c) => PolicyDataView::from_json(c),
            None => None,
        }
    }

    /// The optional member `key`, read as a policy; the outer `None` is a mismatch.
    pub open spec fn optional(j: JsonValue, key: Seq<char>) -> Option<Option<PolicyDataView>> {
        match j.member(key) {
            None => Some(None),
            Some(c) => match PolicyDataView::from_json(c) {
                Some(x) => Some(Some(x)),
                None => None,
            },
        }
    }
}

impl PolicyData {
    /// Reads a policy out of a wire value.
    pub fn from_value(v: &serde_json::Value) -> (r: Option<PolicyData>)
        ensures
            match r {
                Some(t) => PolicyDataView::from_json(value_model(*v)) == Some(t@),
                None => PolicyDataView::from_json(value_model(*v)) is None,
            },
    {
        if !value_is_object(v) {
            return None;
        }
        let policy = match read_req_text(v, "policy") {
            Some(x) => x,
            None => return None,
        };
        let signature = match read_req_text(v, "signature") {
            Some(x) => x,
            None => return None,
        };
        let upload_dir = match read_req_text(v, "upload_dir") {
            Some(x) => x,
            None => return None,
        };
        let upload_host = match read_req_text(v, "upload_host") {
            Some(x) => x,
            None => return None,
        };
        let expire_in_seconds = match read_req_i64(v, "expire_in_seconds") {
            Some(x) => x,
            None => return None,
        };
        let max_file_size_mb = match read_req_i32(v, "max_file_size_mb") {
            Some(x) => x,
            None => return None,
        };
        let capacity_limit_mb = match read_req_i32(v, "capacity_limit_mb") {
            Some(x) => x,
            None => return None,
        };
        let oss_access_key_id = match read_req_text(v, "oss_access_key_id") {
            Some(x) => x,
            None => return None,
        };
        let x_oss_object_acl = match read_req_text(v, "x_oss_object_acl") {
            Some(x) => x,
            None => return None,
        };
        let x_oss_forbid_overwrite = match read_req_text(v, "x_oss_forbid_overwrite") {
            Some(x) => x,
            None => return None,
        };
        Some(PolicyData { policy, signature, upload_dir, upload_host, expire_in_seconds, max_file_size_mb, capacity_limit_mb, oss_access_key_id, x_oss_object_acl, x_oss_forbid_overwrite })
    }

    /// Reads the required member `key` as a policy.
    pub fn read_required(v: &serde_json::Value, key: &str) -> (r: Option<PolicyData>)
        ensures
            match r {
                Some(t) => PolicyDataView::required(value_model(*v), key@) == Some(t@),
                None => PolicyDataView::required(value_model(*v), key@) is None,
            },
    {
        match value_get(v, key) {
            Some(c) => PolicyData::from_value(c),
            None => None,
        }
    }

    /// Reads the optional member `key` as a policy; `Err` is a mismatch.
    pub fn read_optional(v: &serde_json::Value, key: &str) -> (r: Result<Option<PolicyData>, ()>)
        ensures
            match r {
                Ok(o) => PolicyDataView::optional(value_model(*v), key@) == Some(
                    match o {
                        Some(t) => Some(t@),
                        None => None,
                    },
                ),
                Err(_) => PolicyDataView::optional(value_model(*v), key@) is None,
            },
    {
        match read_member(v, key) {
            None => Ok(None),
            Some(c) => match PolicyData::from_value(c) {
                Some(t) => Ok(Some(t)),
                None => Err(()),
            },
        }
    }
}

/// The answer to a request for leave to upload.
#[derive(Debug, Clone, PartialEq, Eq)]
pub struct UploadPolicy {
    pub data: PolicyData,
    pub request_id: String,
}

/// The content of an [`UploadPolicy`].
pub struct UploadPolicyView {
    pub data: PolicyDataView,
    pub request_id: Seq<char>,
}

impl View for UploadPolicy {
    type V = UploadPolicyView;

    open spec fn view(&self) -> UploadPolicyView {
        UploadPolicyView {
            data: self.data@,
            request_id: self.request_id@,
        }
    }
}

impl UploadPolicyView {
    /// The answer that a wire value holds, if it has the shape of one.
    pub open spec fn from_json(j: JsonValue) -> Option<UploadPolicyView> {
        let data = PolicyDataView::required(j, "data"@);
        let request_id = j.req_text("request_id"@);
        if j is Object
            && data is Some
            && request_id is Some {
            Some(
                UploadPolicyView {
                    data: data->0,
                    request_id: request_id->0,
                },
            )
        } else {
            None
        }
    }
}

impl UploadPolicy {
    /// Reads an answer out of a wire value.
    pub fn from_value(v: &serde_json::Value) -> (r: Option<UploadPolicy>)
        ensures
            match r {
                Some(t) => UploadPolicyView::from_json(value_model(*v)) == Some(t@),
                None => UploadPolicyView::from_json(value_model(*v)) is None,
            },
    {
        if !value_is_object(v) {
            return None;
        }
        let data = match PolicyData::read_required(v, "data") {
            Some(x) => x,
            None => return None,
        };
        let request_id = match read_req_text(v, "request_id") {
            Some(x) => x,
            None => return None,
        };
        Some(UploadPolicy { data, request_id })
    }

    /// Reads an answer from the text of a body. A text that is no JSON
    /// document, or a document in another shape, is a deserialization error
    /// that keeps the text.
    pub fn decode(text: &str) -> (r: Result<UploadPolicy, DashScopeError>)
        ensures
            match r {
                Ok(t) => parsed(text@) is Ok && UploadPolicyView::from_json(parsed(text@)->Ok_0) == Some(
                    t@,
                ),
                Err(e) => (parsed(text@) is Err || UploadPolicyView::from_json(parsed(text@)->Ok_0) is None)
                    && e@ == unreadable(text@),
            },
    {
        match parse_value(text) {
            Ok(v) => match UploadPolicy::from_value(&v) {
                Some(t) => Ok(t),
                None => Err(wrong_shape(text)),
            },
            Err(e) => Err(not_json(&e, text)),
        }
    }
}

#[verifier::external_type_specification]
#[verifier::external_body]
pub struct ExParseError(url::ParseError);

#[verifier::external_type_specification]
#[verifier::external_body]
pub struct ExUrl(url::Url);

/// Whether `url::Url::parse` takes a text for an address.
pub uninterp spec fn url_parses(text: Seq<char>) -> bool;

/// `Url::parse` on a text. The outcome depends on the text alone; nothing
/// is claimed about which texts are addresses.
#[verifier::external_body]
pub(crate) fn parse_url(text: &str) -> (r: Result<url::Url, url::ParseError>)
    ensures
        r is Ok <==> url_parses(text@),
{
    url::Url::parse(text)
}

/// Whether a text is the address of something, and not the path of a file.
pub fn is_valid_url(s: &str) -> (r: bool)
    ensures
        r == url_parses(s@),
{
    parse_url(s).is_ok()
}

/// The name under which a file is stored: its own name in the directory
/// that the policy names.
pub open spec fn object_key(upload_dir: Seq<char>, file_name: Seq<char>) -> Seq<char> {
    upload_dir + "/"@ + file_name
}

/// The address of a stored object, as the service takes it in a request.
pub open spec fn oss_address(key: Seq<char>) -> Seq<char> {
    "oss://"@ + key
}

/// The fields of the form that uploads a file, by name and value, in the
/// order in which they are sent; the file itself follows them.
pub open spec fn upload_fields(policy: PolicyDataView, key: Seq<char>) -> Seq<(Seq<char>, Seq<char>)> {
    seq![
        ("OSSAccessKeyId"@, policy.oss_access_key_id),
        ("Signature"@, policy.signature),
        ("policy"@, policy.policy),
        ("x-oss-object-acl"@, policy.x_oss_object_acl),
        ("x-oss-forbid-overwrite"@, policy.x_oss_forbid_overwrite),
        ("key"@, key),
        ("success_action_status"@, "200"@),
    ]
}

/// The contents of a run of fields.
pub open spec fn fields_view(fs: Seq<(String, String)>) -> Seq<(Seq<char>, Seq<char>)> {
    Seq::new(fs.len(), |i: int| (fs[i].0@, fs[i].1@))
}

/// What is sent to upload one file.
#[derive(Debug, Clone, PartialEq, Eq)]
pub struct UploadPlan {
    /// Where the form is posted to.
    pub host: String,
    /// The name under which the file is stored.
    pub key: String,
    /// The fields of the form, in order.
    pub fields: Vec<(String, String)>,
    /// Under what address the service finds the file afterwards.
    pub address: String,
}

/// Plans the upload of the file named `file_name` under a policy.
pub fn plan_upload(policy: &PolicyData, file_name: &str) -> (r: UploadPlan)
    ensures
        r.host@ == policy@.upload_host,
        r.key@ == object_key(policy@.upload_dir, file_name@),
        fields_view(r.fields@) == upload_fields(policy@, r.key@),
        r.address@ == oss_address(r.key@),
{
    let mut key = String::new();
    key.append(policy.upload_dir.as_str());
    key.append("/");
    key.append(file_name);
    let mut address = String::new();
    address.append("oss://");
    address.append(key.as_str());
    let mut fields: Vec<(String, String)> = Vec::new();
    fields.push(("OSSAccessKeyId".to_owned(), policy.oss_access_key_id.clone()));
    fields.push(("Signature".to_owned(), policy.signature.clone()));
    fields.push(("policy".to_owned(), policy.policy.clone()));
    fields.push(("x-oss-object-acl".to_owned(), policy.x_oss_object_acl.clone()));
    fields.push(("x-oss-forbid-overwrite".to_owned(), policy.x_oss_forbid_overwrite.clone()));
    fields.push(("key".to_owned(), key.clone()));
    fields.push(("success_action_status".to_owned(), "200".to_owned()));
    proof {
        assert(key@ =~= object_key(policy@.upload_dir, file_name@));
        assert(address@ =~= oss_address(key@));
        assert(fields_view(fields@) =~= upload_fields(policy@, key@));
    }
    UploadPlan { host: policy.upload_host.clone(), key, fields, address }
}

/// The query that asks for leave to upload a file for `model`.
pub fn policy_query(model: &str) -> (r: Vec<(String, String)>)
    ensures
        fields_view(r@) == seq![("action"@, "getPolicy"@), ("model"@, model@)],
{
    let mut query: Vec<(String, String)> = Vec::new();
    query.push(("action".to_owned(), "getPolicy".to_owned()));
    query.push(("model".to_owned(), model.to_owned()));
    proof {
        assert(fields_view(query@) =~= seq![("action"@, "getPolicy"@), ("model"@, model@)]);
    }
    query
}

/// The name of the file to upload, given the last part of its path where
/// the path has one that is text.
pub fn upload_name(last_part: Option<String>) -> (r: Result<String, DashScopeError>)
    ensures
        match r {
            Ok(name) => last_part == Some(name),
            Err(e) => last_part is None && e@ == DashScopeErrorView::UploadError(
                "file name is empty"@,
            ),
        },
{
    match last_part {
        Some(name) => Ok(name),
        None => Err(DashScopeError::UploadError("file name is empty".to_owned())),
    }
}

/// What the answer of the storage service to an upload means: the address
/// of the stored file where the status says success, else an upload error
/// with the body of the answer.
pub fn upload_outcome(plan: &UploadPlan, status_is_success: bool, body: String) -> (r: Result<
    String,
    DashScopeError,
>)
    ensures
        match r {
            Ok(address) => status_is_success && address@ == plan.address@,
            Err(e) => !status_is_success && e@ == DashScopeErrorView::UploadError(body@),
        },
{
    if status_is_success {
        Ok(plan.address.clone())
    } else {
        Err(DashScopeError::UploadError(body))
    }
}

} // verus!
