//! Errors of the client and the process exit codes they lead to.
use vstd::prelude::*;

verus! {

/// `reqwest::Error`, carried opaquely inside `LocoError::Http`.
#[verifier::external_type_specification]
#[verifier::external_body]
pub struct ExHttpError(reqwest::Error);

/// `serde_json::Error`, carried opaquely inside `LocoError::Json`.
#[verifier::external_type_specification]
#[verifier::external_body]
pub struct ExJsonError(serde_json::Error);

/// `std::io::Error`, carried opaquely inside `LocoError::Io`.
#[verifier::external_type_specification]
#[verifier::external_body]
pub struct ExIoError(std::io::Error);

/// Everything that can go wrong when talking to the API.
#[derive(Debug)]
pub enum LocoError {
    /// The API key was refused (HTTP 401).
    Unauthorized,
    /// The resource does not exist (HTTP 404); holds the response body.
    NotFound(String),
    /// Too many requests (HTTP 429).
    RateLimited,
    /// Any other unsuccessful status, with the API's error message.
    Api { status: u16, message: String },
    /// Configuration could not be resolved.
    Config(String),
    /// A local file operation failed.
    Io(std::io::Error),
    /// The HTTP layer failed.
    Http(reqwest::Error),
    /// A JSON document could not be read or written.
    Json(serde_json::Error),
}

/// Exit code of a successful run.
pub const EXIT_OK: i32 = 0;

/// Exit code of a general failure.
pub const EXIT_ERROR: i32 = 1;

/// Exit code of an authentication failure.
pub const EXIT_AUTH: i32 = 2;

/// Exit code of a configuration error.
pub const EXIT_CONFIG: i32 = 3;

/// The exit code for a failed run: `err` is the API error behind the failure,
/// or `None` when the failure has another cause.
pub open spec fn exit_code_of(err: Option<LocoError>) -> i32 {
    match err {
        Some(LocoError::Unauthorized) => EXIT_AUTH,
        Some(LocoError::Config(_)) => EXIT_CONFIG,
        _ => EXIT_ERROR,
    }
}

/// Chooses the process exit code for a failed run: authentication failures
/// give 2, configuration errors 3, every other failure 1.
pub fn exit_code_for(err: Option<&LocoError>) -> (code: i32)
    ensures
        code == exit_code_of(
            match err {
                Some(e) => Some(*e),
                None => None,
            },
        ),
        code != EXIT_OK,
{
    match err {
        Some(LocoError::Unauthorized) => EXIT_AUTH,
        Some(LocoError::Config(_)) => EXIT_CONFIG,
        _ => EXIT_ERROR,
    }
}

/// Whether the API answered that the resource already exists (HTTP 409).
pub open spec fn is_conflict_error(err: LocoError) -> bool {
    err matches LocoError::Api { status, .. } && status == 409
}

/// Tells apart the "already exists" answer of the API from other errors.
pub fn is_conflict(err: &LocoError) -> (res: bool)
    ensures
        res == is_conflict_error(*err),
{
    match err {
        LocoError::Api { status, .. } => *status == 409,
        _ => false,
    }
}

/// The exit code of a failed run tells authentication failures (2) and
/// configuration errors (3) apart from every other failure (1), API errors
/// of any other status included; a failed run never exits with 0.
pub proof fn law_exit_code_classes(err: Option<LocoError>)
    ensures
        exit_code_of(err) == 2 <==> err matches Some(LocoError::Unauthorized),
        exit_code_of(err) == 3 <==> err matches Some(LocoError::Config(_)),
        exit_code_of(err) == 1 <==> !(err matches Some(LocoError::Unauthorized)) && !(
        err matches Some(LocoError::Config(_))),
        exit_code_of(err) != 0,
        err matches Some(LocoError::Api { .. }) ==> exit_code_of(err) == 1,
{
}

} // verus!
