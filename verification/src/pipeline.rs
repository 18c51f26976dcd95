//! The archival pipeline: build the archive, request an upload credential,
//! upload — strictly sequential and fail-fast.
//!
//! The network calls themselves happen outside this crate: the caller
//! performs each emitted [`PipelineAction`] and hands the transport outcome
//! back, so every decision the pipeline takes is a verified function of
//! plain values.

use vstd::prelude::*;
use vstd::pervasive::unreached;
use vstd::string::StringExecFns;
use crate::archive::{
    build_archive, fits_zip_limits, runtime_entry_name, xhr_entry_name, zip_entry_text,
    ArchiveBuildError,
};
use crate::credential::{
    archive_content_type, credential_request_json, encode_credential_request, parse_presigned_url,
    presigned_url_of, upload_path_prefix, CredentialRequestError, CredentialRequestErrorV,
    CREDENTIAL_EXPIRATION_SECONDS,
};
use crate::lines::{joined_lines, string_views};
use crate::timestamp::{format_compact_timestamp, is_compact_timestamp};

verus! {

/// Mathematical view of `ArchiveBuildError`.
pub struct ArchiveBuildErrorV {
    pub entry: Seq<char>,
    pub cause: Seq<char>,
}

impl View for ArchiveBuildError {
    type V = ArchiveBuildErrorV;

    open spec fn view(&self) -> ArchiveBuildErrorV {
        ArchiveBuildErrorV { entry: self.entry@, cause: self.cause@ }
    }
}

/// Mathematical view of `UploadError`.
pub enum UploadErrorV {
    Transport { detail: Seq<char> },
    Rejected { status: u16, body: Seq<char> },
}

/// Failure of the archive transfer, classified: the transfer never reached
/// the store, or the store rejected it. Fatal to the pipeline; never
/// retried.
#[derive(Debug)]
pub enum UploadError {
    /// The transfer never produced an HTTP response.
    Transport { detail: String },
    /// The destination answered with a non-success status.
    Rejected { status: u16, body: String },
}

impl View for UploadError {
    type V = UploadErrorV;

    open spec fn view(&self) -> UploadErrorV {
        match self {
            UploadError::Transport { detail } => UploadErrorV::Transport { detail: detail@ },
            UploadError::Rejected { status, body } => UploadErrorV::Rejected {
                status: *status,
                body: body@,
            },
        }
    }
}

/// Mathematical view of `PipelineError`.
pub enum PipelineErrorV {
    Build(ArchiveBuildErrorV),
    Credential(CredentialRequestErrorV),
    Upload(UploadErrorV),
}

/// A pipeline failure, identifying which stage failed and why.
#[derive(Debug)]
pub enum PipelineError {
    Build(ArchiveBuildError),
    Credential(CredentialRequestError),
    Upload(UploadError),
}

impl View for PipelineError {
    type V = PipelineErrorV;

    open spec fn view(&self) -> PipelineErrorV {
        match self {
            PipelineError::Build(e) => PipelineErrorV::Build(e@),
            PipelineError::Credential(e) => PipelineErrorV::Credential(e@),
            PipelineError::Upload(e) => PipelineErrorV::Upload(e@),
        }
    }
}

/// Mathematical view of `HttpOutcome`.
pub enum HttpOutcomeV {
    Response { status: u16, body: Seq<char> },
    TransportFailure { detail: Seq<char> },
}

/// What one network call came to: an HTTP response, or no response at all.
/// The caller that performs the transfer reports it in these plain values.
pub enum HttpOutcome {
    Response { status: u16, body: String },
    TransportFailure { detail: String },
}

impl View for HttpOutcome {
    type V = HttpOutcomeV;

    open spec fn view(&self) -> HttpOutcomeV {
        match self {
            HttpOutcome::Response { status, body } => HttpOutcomeV::Response {
                status: *status,
                body: body@,
            },
            HttpOutcome::TransportFailure { detail } => HttpOutcomeV::TransportFailure {
                detail: detail@,
            },
        }
    }
}

/// An HTTP status that counts as success.
pub open spec fn is_success_status(status: u16) -> bool {
    200 <= status < 300
}

/// The archive's name: `{productName}_{UTC timestamp}.zip`.
pub open spec fn spec_file_name(product_name: Seq<char>, timestamp: Seq<char>) -> Seq<char> {
    product_name + "_"@ + timestamp + ".zip"@
}

/// The success confirmation, naming the uploaded file.
pub open spec fn confirmation_message(file_name: Seq<char>) -> Seq<char> {
    "Log upload succeeded! File name: "@ + file_name
}

/// What the credential stage decides from the outcome of its one request:
/// the presigned URL, or the classified error.
pub open spec fn credential_step(outcome: HttpOutcomeV) -> Result<Seq<char>, CredentialRequestErrorV> {
    match outcome {
        HttpOutcomeV::TransportFailure { detail } => Err(
            CredentialRequestErrorV::Transport { detail },
        ),
        HttpOutcomeV::Response { status, body } => if !is_success_status(status) {
            Err(CredentialRequestErrorV::Rejected { status, body })
        } else {
            match presigned_url_of(body) {
                Some(url) => Ok(url),
                None => Err(CredentialRequestErrorV::MalformedBody { status, body }),
            }
        },
    }
}

/// What the upload stage decides from the outcome of its one transfer:
/// `None` on success, or the classified error.
pub open spec fn upload_step(outcome: HttpOutcomeV) -> Option<UploadErrorV> {
    match outcome {
        HttpOutcomeV::TransportFailure { detail } => Some(UploadErrorV::Transport { detail }),
        HttpOutcomeV::Response { status, body } => if is_success_status(status) {
            None
        } else {
            Some(UploadErrorV::Rejected { status, body })
        },
    }
}

/// The pipeline's result once the archive is built, as a function of the
/// two transport outcomes: fail-fast on the credential stage, then the
/// upload stage decides.
pub open spec fn resolve_after_build(
    file_name: Seq<char>,
    credential_outcome: HttpOutcomeV,
    upload_outcome: HttpOutcomeV,
) -> Result<Seq<char>, PipelineErrorV> {
    match credential_step(credential_outcome) {
        Err(e) => Err(PipelineErrorV::Credential(e)),
        Ok(_url) => match upload_step(upload_outcome) {
            Some(e) => Err(PipelineErrorV::Upload(e)),
            None => Ok(confirmation_message(file_name)),
        },
    }
}

/// Where the pipeline stands between steps.
pub enum PipelineState {
    /// The archive is built; its upload credential has been asked for.
    AwaitingCredential { file_name: String, archive: Vec<u8> },
    /// The credential arrived; the transfer has been handed out.
    AwaitingUpload { file_name: String },
    /// The archive was uploaded; holds the confirmation.
    Done { confirmation: String },
    /// Some stage failed; nothing further runs.
    Failed { error: PipelineError },
}

/// The one outside effect the caller must perform next.
pub enum PipelineAction {
    /// POST `body` to the credential service, asking to store `file_name`.
    RequestCredential { file_name: String, body: String },
    /// PUT the archive bytes to the presigned `url`.
    UploadArchive { url: String, content_type: String, archive: Vec<u8> },
}

/// The file name a pending state carries.
pub open spec fn state_file_name(state: PipelineState) -> Seq<char> {
    match state {
        PipelineState::AwaitingCredential { file_name, archive } => file_name@,
        PipelineState::AwaitingUpload { file_name } => file_name@,
        PipelineState::Done { confirmation } => Seq::empty(),
        PipelineState::Failed { error } => Seq::empty(),
    }
}

/// The archive bytes a pending state carries.
pub open spec fn state_archive(state: PipelineState) -> Seq<u8> {
    match state {
        PipelineState::AwaitingCredential { file_name, archive } => archive@,
        _ => Seq::empty(),
    }
}

/// The product name used to derive the archive's name: the one the host
/// configuration carries, or the fixed fallback when it carries none.
pub fn product_name_or_default<'a>(product_name: Option<&'a str>) -> (r: &'a str)
    ensures
        r@ == match product_name {
            Some(name) => name@,
            None => "pake_logs"@,
        },
{
    match product_name {
        Some(name) => name,
        None => "pake_logs",
    }
}

/// Renders `{product_name}_{timestamp}.zip`.
pub fn make_file_name(product_name: &str, timestamp: &str) -> (r: String)
    ensures
        r@ == spec_file_name(product_name@, timestamp@),
{
    let mut out = String::new();
    out.append(product_name);
    out.append("_");
    out.append(timestamp);
    out.append(".zip");
    out
}

/// The archive build of `start` succeeds on these inputs: their joined
/// texts stay inside the zip writer's size limits.
pub open spec fn build_succeeds(runtime_lines: Seq<String>, xhr_lines: Seq<String>) -> bool {
    fits_zip_limits(
        joined_lines(string_views(runtime_lines)),
        joined_lines(string_views(xhr_lines)),
    )
}

/// Builds the archive and derives its name. On success the pipeline waits
/// for the credential, and the caller is told to request it, with the
/// request body already serialized; a build failure — possible only beyond
/// the archive size limits — ends the pipeline at once, and no network
/// action is ever emitted.
pub fn start(
    product_name: &str,
    timestamp: &str,
    runtime_lines: &Vec<String>,
    xhr_lines: &Vec<String>,
) -> (r: (PipelineState, Option<PipelineAction>))
    ensures
        r.0 is AwaitingCredential || r.0 is Failed,
        build_succeeds(runtime_lines@, xhr_lines@) ==> r.0 is AwaitingCredential,
        r.0 matches PipelineState::Failed { error } ==> error is Build && r.1 is None,
        r.0 matches PipelineState::AwaitingCredential { file_name, archive } ==> {
            &&& file_name@ == spec_file_name(product_name@, timestamp@)
            &&& zip_entry_text(archive@, runtime_entry_name()) == Some(
                joined_lines(string_views(runtime_lines@)),
            )
            &&& zip_entry_text(archive@, xhr_entry_name()) == Some(
                joined_lines(string_views(xhr_lines@)),
            )
            &&& r.1 matches Some(PipelineAction::RequestCredential { file_name: f, body })
            &&& f@ == file_name@
            &&& body@ == credential_request_json(
                file_name@,
                archive_content_type(),
                CREDENTIAL_EXPIRATION_SECONDS,
                upload_path_prefix(),
            )
        },
{
    match build_archive(runtime_lines, xhr_lines) {
        Err(e) => (PipelineState::Failed { error: PipelineError::Build(e) }, None),
        Ok(archive) => {
            let file_name = make_file_name(product_name, timestamp);
            let body = encode_credential_request(
                file_name.as_str(),
                "application/zip",
                CREDENTIAL_EXPIRATION_SECONDS,
                "upload-log/",
            );
            let action = PipelineAction::RequestCredential { file_name: file_name.clone(), body };
            (PipelineState::AwaitingCredential { file_name, archive }, Some(action))
        },
    }
}

/// `start` with the clock's current compact UTC timestamp: the archive is
/// named `{product_name}_{now}.zip`, where `now` is fourteen ASCII digits
/// (`YYYYMMDDHHMMSS`), and everything else is as for `start`.
pub fn start_now(
    product_name: &str,
    runtime_lines: &Vec<String>,
    xhr_lines: &Vec<String>,
) -> (r: (PipelineState, Option<PipelineAction>))
    ensures
        r.0 is AwaitingCredential || r.0 is Failed,
        build_succeeds(runtime_lines@, xhr_lines@) ==> r.0 is AwaitingCredential,
        r.0 matches PipelineState::Failed { error } ==> error is Build && r.1 is None,
        r.0 matches PipelineState::AwaitingCredential { file_name, archive } ==> {
            &&& exists|ts: Seq<char>|
                is_compact_timestamp(ts) && file_name@ == spec_file_name(product_name@, ts)
            &&& zip_entry_text(archive@, runtime_entry_name()) == Some(
                joined_lines(string_views(runtime_lines@)),
            )
            &&& zip_entry_text(archive@, xhr_entry_name()) == Some(
                joined_lines(string_views(xhr_lines@)),
            )
            &&& r.1 matches Some(PipelineAction::RequestCredential { file_name: f, body })
            &&& f@ == file_name@
            &&& body@ == credential_request_json(
                file_name@,
                archive_content_type(),
                CREDENTIAL_EXPIRATION_SECONDS,
                upload_path_prefix(),
            )
        },
{
    let (year, month, day, hour, minute, second) = crate::clock::now_utc_parts();
    let timestamp = format_compact_timestamp(year, month, day, hour, minute, second);
    let ghost ts: Seq<char> = timestamp@;
    let r = start(product_name, timestamp.as_str(), runtime_lines, xhr_lines);
    proof {
        if r.0 is AwaitingCredential {
            assert(is_compact_timestamp(ts));
            assert(state_file_name(r.0) == spec_file_name(product_name@, ts));
        }
    }
    r
}

/// Classifies the outcome of the credential request. On success the caller
/// is told to upload the archive to the presigned URL; any failure —
/// transport, rejection, or a body without a presigned URL — ends the
/// pipeline with a `CredentialRequestError` and emits no further action,
/// so the upload is never attempted.
pub fn on_credential_outcome(state: PipelineState, outcome: HttpOutcome) -> (r: (
    PipelineState,
    Option<PipelineAction>,
))
    requires
        state is AwaitingCredential,
    ensures
        match credential_step(outcome@) {
            Ok(url) => {
                &&& r.0 matches PipelineState::AwaitingUpload { file_name }
                &&& file_name@ == state_file_name(state)
                &&& r.1 matches Some(
                    PipelineAction::UploadArchive { url: u, content_type, archive },
                )
                &&& u@ == url
                &&& content_type@ == archive_content_type()
                &&& archive@ == state_archive(state)
            },
            Err(e) => {
                &&& r.0 matches PipelineState::Failed { error }
                &&& error@ == PipelineErrorV::Credential(e)
                &&& r.1 is None
            },
        },
{
    let (file_name, archive) = match state {
        PipelineState::AwaitingCredential { file_name, archive } => (file_name, archive),
        _ => unreached(),
    };
    match outcome {
        HttpOutcome::TransportFailure { detail } => (
            PipelineState::Failed {
                error: PipelineError::Credential(CredentialRequestError::Transport { detail }),
            },
            None,
        ),
        HttpOutcome::Response { status, body } => {
            if !(200 <= status && status < 300) {
                (
                    PipelineState::Failed {
                        error: PipelineError::Credential(
                            CredentialRequestError::Rejected { status, body },
                        ),
                    },
                    None,
                )
            } else {
                match parse_presigned_url(body.as_str()) {
                    Some(url) => (
                        PipelineState::AwaitingUpload { file_name },
                        Some(
                            PipelineAction::UploadArchive {
                                url,
                                content_type: String::from_str("application/zip"),
                                archive,
                            },
                        ),
                    ),
                    None => (
                        PipelineState::Failed {
                            error: PipelineError::Credential(
                                CredentialRequestError::MalformedBody { status, body },
                            ),
                        },
                        None,
                    ),
                }
            }
        },
    }
}

/// Classifies the outcome of the transfer: success yields the confirmation
/// naming the uploaded file; transport failure or rejection ends the
/// pipeline with an `UploadError`.
pub fn on_upload_outcome(state: PipelineState, outcome: HttpOutcome) -> (r: PipelineState)
    requires
        state is AwaitingUpload,
    ensures
        match upload_step(outcome@) {
            None => {
                &&& r matches PipelineState::Done { confirmation }
                &&& confirmation@ == confirmation_message(state_file_name(state))
            },
            Some(e) => {
                &&& r matches PipelineState::Failed { error }
                &&& error@ == PipelineErrorV::Upload(e)
            },
        },
{
    let file_name = match state {
        PipelineState::AwaitingUpload { file_name } => file_name,
        _ => unreached(),
    };
    match outcome {
        HttpOutcome::TransportFailure { detail } => PipelineState::Failed {
            error: PipelineError::Upload(UploadError::Transport { detail }),
        },
        HttpOutcome::Response { status, body } => {
            if 200 <= status && status < 300 {
                let mut confirmation = String::new();
                confirmation.append("Log upload succeeded! File name: ");
                confirmation.append(file_name.as_str());
                PipelineState::Done { confirmation }
            } else {
                PipelineState::Failed {
                    error: PipelineError::Upload(UploadError::Rejected { status, body }),
                }
            }
        },
    }
}

/// The result of a finished run, as mathematical values.
pub open spec fn run_result_view(r: Result<String, PipelineError>) -> Result<
    Seq<char>,
    PipelineErrorV,
> {
    match r {
        Ok(confirmation) => Ok(confirmation@),
        Err(e) => Err(e@),
    }
}

/// Runs the whole pipeline over recorded transport outcomes: build the
/// archive, then let the credential outcome and — only if a credential was
/// granted — the upload outcome decide, strictly in that order and
/// fail-fast. Unless the local build fails, the result is exactly
/// `resolve_after_build` of the derived file name and the two outcomes.
pub fn run(
    product_name: &str,
    timestamp: &str,
    runtime_lines: &Vec<String>,
    xhr_lines: &Vec<String>,
    credential_outcome: HttpOutcome,
    upload_outcome: HttpOutcome,
) -> (r: Result<String, PipelineError>)
    ensures
        build_succeeds(runtime_lines@, xhr_lines@) ==> !(r matches Err(e) && e is Build),
        !(r matches Err(e) && e is Build) ==> run_result_view(r) == resolve_after_build(
            spec_file_name(product_name@, timestamp@),
            credential_outcome@,
            upload_outcome@,
        ),
{
    let (state, _action) = start(product_name, timestamp, runtime_lines, xhr_lines);
    match state {
        PipelineState::Failed { error } => Err(error),
        PipelineState::AwaitingCredential { file_name, archive } => {
            let pending = PipelineState::AwaitingCredential { file_name, archive };
            let (state2, _action2) = on_credential_outcome(pending, credential_outcome);
            match state2 {
                PipelineState::Failed { error } => Err(error),
                PipelineState::AwaitingUpload { file_name } => {
                    let pending2 = PipelineState::AwaitingUpload { file_name };
                    match on_upload_outcome(pending2, upload_outcome) {
                        PipelineState::Done { confirmation } => Ok(confirmation),
                        PipelineState::Failed { error } => Err(error),
                        _ => unreached(),
                    }
                },
                _ => unreached(),
            }
        },
        _ => unreached(),
    }
}

/// Fail-fast on credential rejection: a non-success status from the
/// credential service resolves the pipeline to that very
/// `CredentialRequestError`, embedding the status and body — and the
/// resolution does not depend on what the upload stage would have
/// answered, since the upload is never attempted.
pub proof fn lemma_fail_fast_on_credential_rejection(
    file_name: Seq<char>,
    status: u16,
    body: Seq<char>,
    upload_outcome_a: HttpOutcomeV,
    upload_outcome_b: HttpOutcomeV,
)
    requires
        !is_success_status(status),
    ensures
        resolve_after_build(file_name, HttpOutcomeV::Response { status, body }, upload_outcome_a)
            == Err::<Seq<char>, PipelineErrorV>(
            PipelineErrorV::Credential(CredentialRequestErrorV::Rejected { status, body }),
        ),
        resolve_after_build(file_name, HttpOutcomeV::Response { status, body }, upload_outcome_a)
            == resolve_after_build(
            file_name,
            HttpOutcomeV::Response { status, body },
            upload_outcome_b,
        ),
{
}

} // verus!
