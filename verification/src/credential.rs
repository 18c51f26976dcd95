//! Requesting a short-lived, single-use upload credential: the request body
//! the remote naming service expects, and the reading of its response.

use vstd::prelude::*;

verus! {

/// Seconds an issued upload credential stays valid; fixed policy.
pub const CREDENTIAL_EXPIRATION_SECONDS: u32 = 3600;

/// Content type of the archive, sent with the credential request and with
/// the upload itself.
pub open spec fn archive_content_type() -> Seq<char> {
    "application/zip"@
}

/// Fixed destination path prefix in the remote object store.
pub open spec fn upload_path_prefix() -> Seq<char> {
    "upload-log/"@
}

/// The JSON text serializing the four credential-request fields, as the
/// serializer renders it: a pure function of the fields.
pub uninterp spec fn credential_request_json(
    file_name: Seq<char>,
    content_type: Seq<char>,
    expiration: u32,
    path: Seq<char>,
) -> Seq<char>;

/// Relies on serde_json's `to_string` over a `Value::Object` built from the
/// four fields: its output depends on the fields alone, here named
/// `credential_request_json`. Serializing this object cannot fail; the
/// empty-string fallback keeps the call from panicking regardless.
#[verifier::external_body]
pub(crate) fn encode_credential_request(
    file_name: &str,
    content_type: &str,
    expiration: u32,
    path: &str,
) -> (r: String)
    ensures
        r@ == credential_request_json(file_name@, content_type@, expiration, path@),
{
    let mut m = serde_json::Map::new();
    m.insert("file_name".to_string(), serde_json::Value::String(file_name.to_string()));
    m.insert("content_type".to_string(), serde_json::Value::String(content_type.to_string()));
    m.insert("expiration".to_string(), serde_json::Value::Number(serde_json::Number::from(expiration)));
    m.insert("path".to_string(), serde_json::Value::String(path.to_string()));
    serde_json::to_string(&serde_json::Value::Object(m)).unwrap_or_default()
}

/// The presigned URL in a credential response body: `Some` exactly when the
/// body is JSON with a string member `presigned_url`. A pure function of
/// the body text.
pub uninterp spec fn presigned_url_of(body: Seq<char>) -> Option<Seq<char>>;

/// Relies on serde_json's `from_str`: whether the body parses and holds a
/// string `presigned_url` member depends on the body text alone, here
/// named `presigned_url_of`.
#[verifier::external_body]
pub(crate) fn parse_presigned_url(body: &str) -> (r: Option<String>)
    ensures
        r matches Some(url) ==> presigned_url_of(body@) == Some(url@),
        r is None ==> presigned_url_of(body@) is None,
{
    let v: serde_json::Value = match serde_json::from_str(body) {
        Ok(v) => v,
        Err(_) => return None,
    };
    match v.get("presigned_url") {
        Some(serde_json::Value::String(s)) => Some(s.clone()),
        _ => None,
    }
}

/// Mathematical view of `CredentialRequestError`.
pub enum CredentialRequestErrorV {
    Transport { detail: Seq<char> },
    Rejected { status: u16, body: Seq<char> },
    MalformedBody { status: u16, body: Seq<char> },
}

/// Failure of the credential request, classified: the service was
/// unreachable, rejected the request, or answered with a body the client
/// cannot read. Fatal to the pipeline; never retried.
#[derive(Debug)]
pub enum CredentialRequestError {
    /// The request never produced an HTTP response.
    Transport { detail: String },
    /// The service answered with a non-success status.
    Rejected { status: u16, body: String },
    /// The service accepted the request but its body held no presigned URL.
    MalformedBody { status: u16, body: String },
}

impl View for CredentialRequestError {
    type V = CredentialRequestErrorV;

    open spec fn view(&self) -> CredentialRequestErrorV {
        match self {
            CredentialRequestError::Transport { detail } => CredentialRequestErrorV::Transport {
                detail: detail@,
            },
            CredentialRequestError::Rejected { status, body } => CredentialRequestErrorV::Rejected {
                status: *status,
                body: body@,
            },
            CredentialRequestError::MalformedBody {
                status,
                body,
            } => CredentialRequestErrorV::MalformedBody { status: *status, body: body@ },
        }
    }
}

} // verus!
