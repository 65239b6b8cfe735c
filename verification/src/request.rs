//! Building the connect request.
//!
//! The session connects to one fixed streaming endpoint whose query
//! parameters select the recognition model, the audio encoding, the sample
//! rate, the channel count, punctuation, interim results, the endpointing
//! timeout and voice-activity events. The credential is attached as a
//! bearer-style token in the authorization header.

use vstd::prelude::*;
use vstd::string::StringExecFns;
use crate::errors::DgError;

verus! {

#[verifier::external_type_specification]
#[verifier::external_body]
#[verifier::reject_recursive_types(T)]
pub struct ExRequest<T>(http::Request<T>);

#[verifier::external_type_specification]
#[verifier::external_body]
pub struct ExHeaderValue(http::HeaderValue);

#[verifier::external_type_specification]
#[verifier::external_body]
pub struct ExInvalidHeaderValue(http::header::InvalidHeaderValue);

#[verifier::external_type_specification]
#[verifier::external_body]
pub struct ExWsError(tokio_tungstenite::tungstenite::Error);

/// The characters a header value was made from.
pub uninterp spec fn header_value_of(v: http::HeaderValue) -> Seq<char>;

/// The authorization header a request carries, if one was set.
pub uninterp spec fn request_auth_of(r: http::Request<()>) -> Option<Seq<char>>;

/// Whether a URL is accepted as a client request: it parses as a URI with
/// a non-empty host. A function of the characters alone.
pub uninterp spec fn url_accepted(s: Seq<char>) -> bool;

/// A character a header value accepts. `HeaderValue::from_str` checks each
/// byte of the text: horizontal tab and every byte from 32 on except 127
/// pass, so every character outside the control range does.
pub open spec fn legal_header_char(c: char) -> bool {
    c == '\t' || (32 <= c as int && c as int != 127)
}

/// A text that fits in a header value.
pub open spec fn legal_header_text(s: Seq<char>) -> bool {
    forall|i: int| 0 <= i < s.len() ==> legal_header_char(s[i])
}

/// Relies on `http::HeaderValue::from_str`: succeeds exactly when every
/// character of the text is acceptable in a header value, and the value
/// then carries that text.
#[verifier::external_body]
fn header_value_from_str(s: &str) -> (r: Result<http::HeaderValue, http::header::InvalidHeaderValue>)
    ensures
        r is Ok <==> legal_header_text(s@),
        r matches Ok(v) ==> header_value_of(v) == s@,
{
    http::HeaderValue::from_str(s)
}

/// Relies on `http::header::InvalidHeaderValue`'s display text, which is
/// this one fixed sentence.
#[verifier::external_body]
fn invalid_header_text(e: &http::header::InvalidHeaderValue) -> (r: String)
    ensures
        r@ == "failed to parse header value"@,
{
    e.to_string()
}

/// Relies on `tungstenite::client::IntoClientRequest` for `&str`: it
/// succeeds exactly when the URL parses as a URI with a non-empty host,
/// and then builds the websocket upgrade request, on which no
/// authorization header is set.
#[verifier::external_body]
fn client_request(url: &str) -> (r: Result<
    http::Request<()>,
    tokio_tungstenite::tungstenite::Error,
>)
    ensures
        r is Ok <==> url_accepted(url@),
        r matches Ok(q) ==> request_auth_of(q) is None,
{
    tokio_tungstenite::tungstenite::client::IntoClientRequest::into_client_request(url)
}

/// Relies on `tungstenite::Error`'s display text, for reporting why a
/// request could not be built.
#[verifier::external_body]
fn ws_error_text(e: &tokio_tungstenite::tungstenite::Error) -> (r: String) {
    e.to_string()
}

/// Relies on `http::Request::headers_mut` and `http::HeaderMap::insert`:
/// after the call the request's authorization header is exactly the given
/// value.
#[verifier::external_body]
fn set_authorization(req: &mut http::Request<()>, value: http::HeaderValue)
    ensures
        request_auth_of(*final(req)) == Some(header_value_of(value)),
{
    req.headers_mut().insert("Authorization", value);
}

/// The fixed streaming endpoint, with the query parameters of the session:
/// 16-bit linear PCM at 16 kHz, one channel, punctuation and interim
/// results on, 300 ms endpointing, voice-activity events on.
pub open spec fn endpoint_text() -> Seq<char> {
    "wss://api.deepgram.com/v1/listen?model=nova-2&encoding=linear16&sample_rate=16000&channels=1&punctuate=true&interim_results=true&endpointing=300&vad_events=true"@
}

/// The URL the session connects to.
pub fn endpoint_url() -> (r: &'static str)
    ensures
        r@ == endpoint_text(),
{
    "wss://api.deepgram.com/v1/listen?model=nova-2&encoding=linear16&sample_rate=16000&channels=1&punctuate=true&interim_results=true&endpointing=300&vad_events=true"
}

/// The authorization header text for a credential.
pub open spec fn auth_text(key: Seq<char>) -> Seq<char> {
    "Token "@ + key
}

/// Renders the authorization header text for a credential.
pub fn auth_header_value(api_key: &str) -> (r: String)
    ensures
        r@ == auth_text(api_key@),
{
    let prefix = String::from_str("Token ");
    prefix.concat(api_key)
}

/// Builds the connect request for the fixed endpoint and attaches the
/// authorization header derived from the credential.
///
/// A credential whose header text carries an unacceptable character is
/// rejected; a request that comes back carries exactly the authorization
/// text of this credential. Every failure is an `InvalidRequest`, returned
/// to the caller of start synchronously.
pub fn build_connect_request(api_key: &str) -> (r: Result<http::Request<()>, DgError>)
    ensures
        r is Ok <==> url_accepted(endpoint_text()) && legal_header_text(auth_text(api_key@)),
        r matches Err(e) ==> e is InvalidRequest,
        r matches Ok(q) ==> request_auth_of(q) == Some(auth_text(api_key@)),
{
    let mut req = match client_request(endpoint_url()) {
        Ok(q) => q,
        Err(e) => {
            return Err(DgError::InvalidRequest(ws_error_text(&e)));
        },
    };
    let auth = auth_header_value(api_key);
    match header_value_from_str(auth.as_str()) {
        Ok(hv) => {
            set_authorization(&mut req, hv);
            Ok(req)
        },
        Err(e) => Err(DgError::InvalidRequest(invalid_header_text(&e))),
    }
}

} // verus!
