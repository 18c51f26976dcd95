use pake_logs::archive::entry_text;
use pake_logs::credential::CredentialRequestError;
use pake_logs::pipeline::{
    make_file_name, on_credential_outcome, on_upload_outcome, product_name_or_default, run, start,
    HttpOutcome, PipelineAction, PipelineError, PipelineState, UploadError,
};

fn strings(items: &[&str]) -> Vec<String> {
    items.iter().map(|s| s.to_string()).collect()
}

fn response(status: u16, body: &str) -> HttpOutcome {
    HttpOutcome::Response { status, body: body.to_string() }
}

const GOOD_CREDENTIAL_BODY: &str = "{\"presigned_url\":\"https://x/y\"}";

#[test]
fn file_name_convention() {
    assert_eq!(make_file_name("Demo", "20250102030405"), "Demo_20250102030405.zip");
    assert_eq!(make_file_name("", ""), "_.zip");
}

#[test]
fn product_name_falls_back_when_absent() {
    assert_eq!(product_name_or_default(Some("Demo")), "Demo");
    assert_eq!(product_name_or_default(None), "pake_logs");
}

#[test]
fn start_emits_the_credential_request() {
    let (state, action) = start(
        "Demo",
        "20250102030405",
        &strings(&["boot ok"]),
        &strings(&["GET /x 200"]),
    );
    let (file_name, archive) = match state {
        PipelineState::AwaitingCredential { file_name, archive } => (file_name, archive),
        _ => panic!("expected AwaitingCredential"),
    };
    assert_eq!(file_name, "Demo_20250102030405.zip");
    assert_eq!(entry_text(&archive, "runtime.log").unwrap(), "boot ok\n");
    assert_eq!(entry_text(&archive, "xhr.log").unwrap(), "GET /x 200\n");
    match action {
        Some(PipelineAction::RequestCredential { file_name, body }) => {
            assert_eq!(file_name, "Demo_20250102030405.zip");
            assert_eq!(
                body,
                "{\"content_type\":\"application/zip\",\"expiration\":3600,\
                 \"file_name\":\"Demo_20250102030405.zip\",\"path\":\"upload-log/\"}"
            );
        }
        _ => panic!("expected RequestCredential action"),
    }
}

#[test]
fn credential_success_hands_out_the_upload() {
    let (state, _) = start("Demo", "20250102030405", &strings(&["r"]), &strings(&[]));
    let built = match &state {
        PipelineState::AwaitingCredential { archive, .. } => archive.clone(),
        _ => panic!("expected AwaitingCredential"),
    };
    let (state, action) = on_credential_outcome(state, response(200, GOOD_CREDENTIAL_BODY));
    match state {
        PipelineState::AwaitingUpload { file_name } => {
            assert_eq!(file_name, "Demo_20250102030405.zip");
        }
        _ => panic!("expected AwaitingUpload"),
    }
    match action {
        Some(PipelineAction::UploadArchive { url, content_type, archive }) => {
            assert_eq!(url, "https://x/y");
            assert_eq!(content_type, "application/zip");
            assert_eq!(archive, built);
        }
        _ => panic!("expected UploadArchive action"),
    }
}

#[test]
fn credential_rejection_fails_fast() {
    let (state, _) = start("Demo", "20250102030405", &strings(&[]), &strings(&[]));
    let (state, action) = on_credential_outcome(state, response(500, "denied"));
    assert!(action.is_none());
    match state {
        PipelineState::Failed {
            error: PipelineError::Credential(CredentialRequestError::Rejected { status, body }),
        } => {
            assert_eq!(status, 500);
            assert_eq!(body, "denied");
        }
        _ => panic!("expected a credential rejection"),
    }
}

#[test]
fn run_embeds_the_rejecting_status() {
    let r = run(
        "Demo",
        "20250102030405",
        &strings(&["r"]),
        &strings(&["x"]),
        response(503, "busy"),
        response(200, ""),
    );
    match r {
        Err(PipelineError::Credential(CredentialRequestError::Rejected { status, body })) => {
            assert_eq!(status, 503);
            assert_eq!(body, "busy");
        }
        _ => panic!("expected a credential rejection"),
    }
}

#[test]
fn credential_transport_failure_is_classified() {
    let r = run(
        "Demo",
        "20250102030405",
        &strings(&[]),
        &strings(&[]),
        HttpOutcome::TransportFailure { detail: "connection refused".to_string() },
        response(200, ""),
    );
    match r {
        Err(PipelineError::Credential(CredentialRequestError::Transport { detail })) => {
            assert_eq!(detail, "connection refused");
        }
        _ => panic!("expected a transport failure"),
    }
}

#[test]
fn malformed_credential_body_is_classified() {
    let r = run(
        "Demo",
        "20250102030405",
        &strings(&[]),
        &strings(&[]),
        response(200, "{\"unexpected\":1}"),
        response(200, ""),
    );
    match r {
        Err(PipelineError::Credential(CredentialRequestError::MalformedBody { status, body })) => {
            assert_eq!(status, 200);
            assert_eq!(body, "{\"unexpected\":1}");
        }
        _ => panic!("expected a malformed body"),
    }
}

#[test]
fn upload_rejection_is_classified() {
    let r = run(
        "Demo",
        "20250102030405",
        &strings(&["r"]),
        &strings(&[]),
        response(201, GOOD_CREDENTIAL_BODY),
        response(403, "forbidden"),
    );
    match r {
        Err(PipelineError::Upload(UploadError::Rejected { status, body })) => {
            assert_eq!(status, 403);
            assert_eq!(body, "forbidden");
        }
        _ => panic!("expected an upload rejection"),
    }
}

#[test]
fn upload_transport_failure_is_classified() {
    let (state, _) = start("Demo", "20250102030405", &strings(&[]), &strings(&[]));
    let (state, _) = on_credential_outcome(state, response(200, GOOD_CREDENTIAL_BODY));
    let state = on_upload_outcome(
        state,
        HttpOutcome::TransportFailure { detail: "reset".to_string() },
    );
    match state {
        PipelineState::Failed { error: PipelineError::Upload(UploadError::Transport { detail }) } => {
            assert_eq!(detail, "reset");
        }
        _ => panic!("expected an upload transport failure"),
    }
}

#[test]
fn end_to_end_success_names_the_file() {
    let r = run(
        "Demo",
        "20250102030405",
        &strings(&["boot ok"]),
        &strings(&["GET /x 200"]),
        response(200, GOOD_CREDENTIAL_BODY),
        response(200, ""),
    );
    let confirmation = r.unwrap();
    assert_eq!(
        confirmation,
        "Log upload succeeded! File name: Demo_20250102030405.zip"
    );
    // the confirmed file name matches Demo_<14 digits>.zip
    let name = confirmation.rsplit(' ').next().unwrap();
    let digits = name.strip_prefix("Demo_").unwrap().strip_suffix(".zip").unwrap();
    assert_eq!(digits.len(), 14);
    assert!(digits.chars().all(|c| c.is_ascii_digit()));
}
