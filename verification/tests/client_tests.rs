use fcm_client::client::{
    advance_dispatch, build_target_uri, format_target_uri, is_success_status, settle_with_body,
    DispatchStep, FirebaseClient, TransportOutcome,
};
use fcm_client::error::{BodyReadFailure, FirebaseClientError};

const SCOPES: &[&str] = &["https://www.googleapis.com/auth/firebase.messaging"];

const USER_CREDENTIALS_JSON: &[u8] = br#"{
    "client_id": "test-client-id.example.com",
    "client_secret": "test-client-secret",
    "refresh_token": "test-refresh-token"
}"#;

fn https_client() -> hyper::Client<hyper_rustls::HttpsConnector<hyper::client::HttpConnector>> {
    hyper::Client::builder().build::<_, hyper::Body>(hyper_rustls::HttpsConnector::with_native_roots())
}

#[test]
fn target_uri_is_interpolated_from_project_id() {
    let s = format_target_uri("my-proj");
    assert_eq!(s, "https://fcm.googleapis.com/v1/projects/my-proj/messages:send");
}

#[test]
fn valid_project_id_builds_a_target() {
    assert!(build_target_uri("my-proj").is_ok());
    let uri = build_target_uri("my-proj").unwrap();
    assert_eq!(
        uri.to_string(),
        "https://fcm.googleapis.com/v1/projects/my-proj/messages:send"
    );
}

#[test]
fn illegal_project_id_is_an_invalid_target() {
    let r = build_target_uri("my proj");
    assert!(matches!(r, Err(FirebaseClientError::InvalidUriError(_))));
}

#[test]
fn client_construction_follows_the_target_rules() {
    let credentials = google_authz::Credentials::from_json(USER_CREDENTIALS_JSON, SCOPES);
    let source = google_authz::TokenSource::from(credentials);
    assert!(FirebaseClient::new(https_client(), source, "my-proj").is_ok());
    let credentials = google_authz::Credentials::from_json(USER_CREDENTIALS_JSON, SCOPES);
    let source = google_authz::TokenSource::from(credentials);
    let r = FirebaseClient::new(https_client(), source, "bad id");
    assert!(matches!(r, Err(FirebaseClientError::InvalidUriError(_))));
}

#[test]
fn statuses_200_and_204_succeed_and_nothing_else() {
    assert!(is_success_status(200));
    assert!(is_success_status(204));
    assert!(!is_success_status(201));
    assert!(!is_success_status(404));
    assert!(!is_success_status(500));

    assert!(matches!(
        advance_dispatch(TransportOutcome::Responded { status: 200 }),
        DispatchStep::Settled(Ok(()))
    ));
    assert!(matches!(
        advance_dispatch(TransportOutcome::Responded { status: 204 }),
        DispatchStep::Settled(Ok(()))
    ));
    assert!(matches!(
        advance_dispatch(TransportOutcome::Responded { status: 404 }),
        DispatchStep::AwaitBody { status: 404 }
    ));
    assert!(matches!(
        advance_dispatch(TransportOutcome::Responded { status: 500 }),
        DispatchStep::AwaitBody { status: 500 }
    ));
}

#[test]
fn failed_statuses_carry_status_and_body() {
    match settle_with_body(404, Ok(b"not found".to_vec())) {
        Err(FirebaseClientError::HttpRequestError { status_code, body }) => {
            assert_eq!(status_code, 404);
            assert_eq!(body, "not found");
        }
        other => panic!("unexpected outcome: {:?}", other),
    }
    match settle_with_body(500, Ok(Vec::new())) {
        Err(FirebaseClientError::HttpRequestError { status_code, body }) => {
            assert_eq!(status_code, 500);
            assert_eq!(body, "");
        }
        other => panic!("unexpected outcome: {:?}", other),
    }
}

#[test]
fn undecodable_bodies_are_a_read_error_not_a_panic() {
    let raw = vec![0xffu8, 0xfe, 0x80];
    match settle_with_body(502, Ok(raw.clone())) {
        Err(FirebaseClientError::ReadBodyError(BodyReadFailure::InvalidText(bytes))) => {
            assert_eq!(bytes, raw);
        }
        other => panic!("unexpected outcome: {:?}", other),
    }
}

#[test]
fn multibyte_text_bodies_decode_exactly() {
    let text = "r\u{e9}ponse \u{4e16}\u{754c}";
    match settle_with_body(503, Ok(text.as_bytes().to_vec())) {
        Err(FirebaseClientError::HttpRequestError { status_code, body }) => {
            assert_eq!(status_code, 503);
            assert_eq!(body, text);
        }
        other => panic!("unexpected outcome: {:?}", other),
    }
}

fn provoke_transport_error() -> hyper::Error {
    let rt = tokio::runtime::Builder::new_current_thread()
        .enable_all()
        .build()
        .unwrap();
    rt.block_on(async {
        let client: hyper::Client<hyper::client::HttpConnector> = hyper::Client::new();
        let request = hyper::Request::builder()
            .method("POST")
            .uri("http://127.0.0.1:9/unreachable")
            .body(hyper::Body::from("{}"))
            .unwrap();
        client
            .request(request)
            .await
            .expect_err("a connection to a closed port must fail")
    })
}

#[test]
fn transport_failure_settles_without_reading_a_body() {
    let err = provoke_transport_error();
    let step = advance_dispatch(TransportOutcome::Failed(err));
    assert!(matches!(
        step,
        DispatchStep::Settled(Err(FirebaseClientError::ClientError(_)))
    ));
}

#[test]
fn transport_errors_convert_to_the_client_error_kind() {
    let err = provoke_transport_error();
    let converted = FirebaseClientError::from(err);
    assert!(matches!(converted, FirebaseClientError::ClientError(_)));
}

#[test]
fn failed_body_reads_are_reported_not_replaced() {
    let err = provoke_transport_error();
    let r = settle_with_body(500, Err(err));
    assert!(matches!(
        r,
        Err(FirebaseClientError::ReadBodyError(BodyReadFailure::Transport(_)))
    ));
}

#[test]
fn serde_errors_convert_to_the_serialization_kind() {
    let err = serde_json::from_str::<serde_json::Value>("not json").unwrap_err();
    let converted = FirebaseClientError::from(err);
    assert!(matches!(
        converted,
        FirebaseClientError::SerializeNotificationError(_)
    ));
}

#[test]
fn request_build_errors_convert_to_their_own_kind() {
    let err = hyper::Request::builder()
        .method("NOT A METHOD")
        .uri("https://example.com/")
        .body(())
        .expect_err("an invalid method must be refused");
    let converted = FirebaseClientError::from(err);
    assert!(matches!(converted, FirebaseClientError::BuildRequestError(_)));
}
