//! The registry's wire contract: each response status maps to exactly one
//! outcome.  Performing the HTTP requests happens outside the library, which
//! is handed the status and the decoded body.

pub mod response;

use vstd::prelude::*;

use crate::common::MoxenError;
use crate::moxen::api::response::DownloadPackageResponse;
use crate::moxen::api::response::UserRecoveryResponse;
use crate::moxen::api::response::UserRegisterResponse;

verus! {

/// The registry's fixed base endpoint.
pub fn api_url() -> (r: String)
    ensures
        r@ == "https://localhost:9443"@,
{
    String::from_str("https://localhost:9443")
}

/// The server-provided message, or the empty string when none came back.
pub open spec fn error_text_spec(e: Option<String>) -> Seq<char> {
    match e {
        Some(s) => s@,
        None => Seq::<char>::empty(),
    }
}

fn error_text(error: Option<String>) -> (r: String)
    ensures
        r@ == error_text_spec(error),
{
    match error {
        Some(e) => e,
        None => String::new(),
    }
}

/// Maps a fetch response: OK yields the manifest text and archive bytes,
/// NOT_FOUND an unknown-project error, anything else a registry error, both
/// carrying the server's message.
pub fn interpret_fetch_response(status: u16, response: DownloadPackageResponse) -> (r: Result<
    (String, Vec<u8>),
    MoxenError,
>)
    ensures
        r is Ok <==> status == 200,
        r matches Ok(p) ==> p.0@ == response.manifest@ && p.1@ == response.package@,
        status == 404 ==> (r matches Err(e) && e matches MoxenError::ProjectNotFound(m) && m@
            == error_text_spec(response.error)),
        status != 200 && status != 404 ==> (r matches Err(e)
            && e matches MoxenError::ApiError(m) && m@ == error_text_spec(response.error)),
{
    if status == 200 {
        Ok((response.manifest, response.package))
    } else {
        let msg = error_text(response.error);
        if status == 404 {
            Err(MoxenError::ProjectNotFound(msg))
        } else {
            Err(MoxenError::ApiError(msg))
        }
    }
}

/// Maps a publish response: CREATED succeeds, CONFLICT means the project
/// already exists, UNAUTHORIZED an invalid key, anything else a registry
/// error carrying the response text.
pub fn interpret_publish_response(status: u16, body_text: String) -> (r: Result<(), MoxenError>)
    ensures
        r is Ok <==> status == 201,
        status == 409 ==> (r matches Err(e) && e is ProjectAlreadyExists),
        status == 401 ==> (r matches Err(e) && e matches MoxenError::ApiError(m) && m@
            == "invalid api key"@),
        status != 201 && status != 409 && status != 401 ==> (r matches Err(e)
            && e matches MoxenError::ApiError(m) && m@ == body_text@),
{
    if status == 201 {
        Ok(())
    } else if status == 409 {
        Err(MoxenError::ProjectAlreadyExists)
    } else if status == 401 {
        Err(MoxenError::ApiError(String::from_str("invalid api key")))
    } else {
        Err(MoxenError::ApiError(body_text))
    }
}

/// Maps a challenge response: OK yields the plain-text challenge, anything
/// else a registry error carrying the response text.
pub fn interpret_challenge_response(status: u16, text: String) -> (r: Result<String, MoxenError>)
    ensures
        r is Ok <==> status == 200,
        r matches Ok(t) ==> t@ == text@,
        r matches Err(e) ==> (e matches MoxenError::ApiError(m) && m@ == text@),
{
    if status == 200 {
        Ok(text)
    } else {
        Err(MoxenError::ApiError(text))
    }
}

/// Maps a signup response: CREATED yields the API key and recovery codes,
/// anything else a registry error carrying the server's message.
pub fn interpret_signup_response(status: u16, data: UserRegisterResponse) -> (r: Result<
    (String, Vec<String>),
    MoxenError,
>)
    ensures
        r is Ok <==> status == 201,
        r matches Ok(p) ==> p.0@ == data.api_key@ && p.1.deep_view()
            == data.recovery_codes.deep_view(),
        r matches Err(e) ==> (e matches MoxenError::ApiError(m) && m@ == error_text_spec(
            data.error,
        )),
{
    if status == 201 {
        Ok((data.api_key, data.recovery_codes))
    } else {
        Err(MoxenError::ApiError(error_text(data.error)))
    }
}

/// Maps a recovery response: OK yields the re-issued API key, UNAUTHORIZED an
/// authentication error, anything else a registry error, both carrying the
/// server's message.
pub fn interpret_recovery_response(status: u16, data: UserRecoveryResponse) -> (r: Result<
    String,
    MoxenError,
>)
    ensures
        r is Ok <==> status == 200,
        r matches Ok(k) ==> k@ == data.api_key@,
        status == 401 ==> (r matches Err(e) && e matches MoxenError::AuthError(m) && m@
            == error_text_spec(data.error)),
        status != 200 && status != 401 ==> (r matches Err(e)
            && e matches MoxenError::ApiError(m) && m@ == error_text_spec(data.error)),
{
    if status == 200 {
        Ok(data.api_key)
    } else {
        let msg = error_text(data.error);
        if status == 401 {
            Err(MoxenError::AuthError(msg))
        } else {
            Err(MoxenError::ApiError(msg))
        }
    }
}

} // verus!
