//! The dispatch client and its decision logic.
//!
//! A `FirebaseClient` owns an authenticating transport and the target
//! URI derived from the project id. Dispatching is one POST per
//! notification; the response policy is: status 200 or 204 means
//! success and the body is ignored, any other status means the body is
//! read, decoded as text and returned with the status, and a transport
//! failure before any response is returned as is, with no body ever
//! read. A body that cannot be read or decoded is reported as such,
//! never silently replaced.

use vstd::prelude::*;
use vstd::string::*;
use vstd::utf8::{decode_utf8, valid_utf8};

use crate::error::{BodyReadFailure, FirebaseClientError};

verus! {

#[verifier::external_type_specification]
#[verifier::external_body]
pub struct ExUri(hyper::Uri);

#[verifier::external_type_specification]
#[verifier::external_body]
pub struct ExTokenSource(google_authz::TokenSource);

#[verifier::external_type_specification]
#[verifier::external_body]
#[verifier::reject_recursive_types(C)]
#[verifier::reject_recursive_types(B)]
pub struct ExAuthzClient<C, B>(google_authz::Client<C, B>);

#[verifier::external_type_specification]
#[verifier::external_body]
#[verifier::reject_recursive_types(C)]
#[verifier::reject_recursive_types(B)]
pub struct ExHyperClient<C, B>(hyper::Client<C, B>);

#[verifier::external_type_specification]
#[verifier::external_body]
#[verifier::reject_recursive_types(T)]
pub struct ExHttpsConnector<T>(hyper_rustls::HttpsConnector<T>);

#[verifier::external_type_specification]
#[verifier::external_body]
#[verifier::reject_recursive_types(R)]
pub struct ExHttpConnector<R>(hyper::client::HttpConnector<R>);

#[verifier::external_type_specification]
#[verifier::external_body]
pub struct ExBody(hyper::Body);

#[verifier::external_type_specification]
#[verifier::external_body]
pub struct ExGaiResolver(hyper::client::connect::dns::GaiResolver);

/// Whether the http crate's URI parser accepts this text; the answer
/// depends on the characters alone.
pub uninterp spec fn uri_parse_ok(s: Seq<char>) -> bool;

/// Relies on hyper's `Uri::try_from` (the http crate's URI parser): it
/// returns a parsed URI exactly when it accepts the text.
#[verifier::external_body]
fn parse_uri(s: &str) -> (r: Result<hyper::Uri, hyper::http::uri::InvalidUri>)
    ensures
        r is Ok <==> uri_parse_ok(s@),
{
    hyper::Uri::try_from(s)
}

/// Relies on `google_authz::Client::new_with`: it wraps the transport
/// so that each request it later carries is authenticated from the
/// given token source. It only constructs the wrapper; nothing is
/// said of the opaque result.
#[verifier::external_body]
fn bind_credentials(
    client: hyper::Client<hyper_rustls::HttpsConnector<hyper::client::HttpConnector>>,
    credentials: google_authz::TokenSource,
) -> google_authz::Client<hyper_rustls::HttpsConnector<hyper::client::HttpConnector>> {
    google_authz::Client::new_with(client, credentials)
}

/// The target for one project: the messaging endpoint's send route
/// with the project id as a path segment.
pub open spec fn target_uri_text(project_id: Seq<char>) -> Seq<char> {
    "https://fcm.googleapis.com/v1/projects/"@ + project_id + "/messages:send"@
}

/// Builds the target URI text for a project id by plain interpolation.
pub fn format_target_uri(project_id: &str) -> (s: String)
    ensures
        s@ == target_uri_text(project_id@),
{
    let mut s = String::from_str("https://fcm.googleapis.com/v1/projects/");
    s.append(project_id);
    s.append("/messages:send");
    s
}

/// Parses the target URI for a project id, or reports that the project
/// id cannot form a well-formed URI.
pub fn build_target_uri(project_id: &str) -> (r: Result<hyper::Uri, FirebaseClientError>)
    ensures
        r is Ok <==> uri_parse_ok(target_uri_text(project_id@)),
        r matches Err(e) ==> e is InvalidUriError,
{
    let uri_string = format_target_uri(project_id);
    match parse_uri(uri_string.as_str()) {
        Ok(uri) => Ok(uri),
        Err(e) => Err(FirebaseClientError::InvalidUriError(e)),
    }
}

/// Owns the authenticating transport and the precomputed target URI.
/// It holds no per-notification state: each dispatch is independent.
pub struct FirebaseClient {
    pub client: google_authz::Client<
        hyper_rustls::HttpsConnector<hyper::client::HttpConnector>,
    >,
    pub uri: hyper::Uri,
}

impl FirebaseClient {
    /// Binds the credentials, already turned into a token source, to
    /// the transport and fixes the target URI; fails exactly when the
    /// project id cannot form a well-formed URI.
    pub fn new(
        client: hyper::Client<hyper_rustls::HttpsConnector<hyper::client::HttpConnector>>,
        credentials: google_authz::TokenSource,
        project_id: &str,
    ) -> (r: Result<FirebaseClient, FirebaseClientError>)
        ensures
            r is Ok <==> uri_parse_ok(target_uri_text(project_id@)),
            r matches Err(e) ==> e is InvalidUriError,
    {
        let authz_client = bind_credentials(client, credentials);
        match build_target_uri(project_id) {
            Ok(uri) => Ok(FirebaseClient { client: authz_client, uri }),
            Err(e) => Err(e),
        }
    }
}

/// Whether a response status counts as success: 200 and 204 do, and
/// nothing else.
pub fn is_success_status(status: u16) -> (ok: bool)
    ensures
        ok <==> (status == 200 || status == 204),
{
    status == 200 || status == 204
}

/// What one exchange with the transport produced: a status line, or a
/// failure before any response arrived.
pub enum TransportOutcome {
    Responded { status: u16 },
    Failed(hyper::Error),
}

/// The next move after the transport's outcome: the dispatch is
/// settled, or the response body must be read for diagnostics.
pub enum DispatchStep {
    Settled(Result<(), FirebaseClientError>),
    AwaitBody { status: u16 },
}

/// Decides one dispatch from the transport's outcome: a success status
/// settles with success at once, any other status asks for the body,
/// and a transport failure settles with that failure — no body is ever
/// read for it.
pub fn advance_dispatch(outcome: TransportOutcome) -> (step: DispatchStep)
    ensures
        match outcome {
            TransportOutcome::Responded { status } => if status == 200 || status == 204 {
                step == DispatchStep::Settled(Ok(()))
            } else {
                step == (DispatchStep::AwaitBody { status })
            },
            TransportOutcome::Failed(e) => step == DispatchStep::Settled(
                Err(FirebaseClientError::ClientError(e)),
            ),
        },
{
    match outcome {
        TransportOutcome::Responded { status } => {
            if is_success_status(status) {
                DispatchStep::Settled(Ok(()))
            } else {
                DispatchStep::AwaitBody { status }
            }
        }
        TransportOutcome::Failed(e) => {
            DispatchStep::Settled(Err(FirebaseClientError::ClientError(e)))
        }
    }
}

/// Relies on std's `String::from_utf8`: it succeeds exactly on valid
/// UTF-8 input and returns the text those bytes encode.
#[verifier::external_body]
fn utf8_text(bytes: &Vec<u8>) -> (r: Option<String>)
    ensures
        r is Some <==> valid_utf8(bytes@),
        r matches Some(s) ==> s@ == decode_utf8(bytes@),
{
    String::from_utf8(bytes.clone()).ok()
}

/// Settles a dispatch whose status asked for the body. The status and
/// the body's text are returned together; a body whose read failed at
/// the transport level, or whose bytes are not valid text, is
/// reported as a read failure — never silently replaced by an empty
/// body.
pub fn settle_with_body(status: u16, body: Result<Vec<u8>, hyper::Error>) -> (r: Result<
    (),
    FirebaseClientError,
>)
    ensures
        match body {
            Ok(bytes) => if valid_utf8(bytes@) {
                r matches Err(FirebaseClientError::HttpRequestError { status_code, body: text })
                    && status_code == status && text@ == decode_utf8(bytes@)
            } else {
                r == Err::<(), FirebaseClientError>(FirebaseClientError::ReadBodyError(
                    BodyReadFailure::InvalidText(bytes),
                ))
            },
            Err(e) => r == Err::<(), FirebaseClientError>(FirebaseClientError::ReadBodyError(
                BodyReadFailure::Transport(e),
            )),
        },
{
    match body {
        Ok(bytes) => match utf8_text(&bytes) {
            Some(text) => Err(
                FirebaseClientError::HttpRequestError { status_code: status, body: text },
            ),
            None => Err(FirebaseClientError::ReadBodyError(BodyReadFailure::InvalidText(bytes))),
        },
        Err(e) => Err(FirebaseClientError::ReadBodyError(BodyReadFailure::Transport(e))),
    }
}

} // verus!

