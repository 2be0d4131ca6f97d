//! The errors of the client and of the command line, and the exit codes they map to.
use crate::limiter::MAX_REQUESTS_PER_HOUR;
use crate::models::{ErrorResponse, ValidationError};
use crate::text::owned;
use vstd::prelude::*;

verus! {

#[verifier::external_type_specification]
#[verifier::external_body]
pub struct ExReqwestError(reqwest::Error);

#[verifier::external_type_specification]
#[verifier::external_body]
pub struct ExJsonError(serde_json::Error);

#[verifier::external_type_specification]
#[verifier::external_body]
pub struct ExIoError(std::io::Error);

/// Why an API operation failed.
#[derive(Debug)]
pub enum ApiError {
    /// The request could not be sent or its response not read.
    Transport(reqwest::Error),
    Timeout,
    Serialization(serde_json::Error),
    Validation(ValidationError),
    InvalidBaseUrl,
    /// The body of a response with this status was not what the API describes.
    Decode { status: u16, source: serde_json::Error },
    /// The API answered with an error; `retry_after_secs` is its `Retry-After`.
    Response {
        status: u16,
        id: Option<String>,
        name: String,
        detail: String,
        retry_after_secs: Option<u64>,
    },
}

impl ApiError {
    /// Whether the API itself answered with an error.
    pub fn exit_is_response(&self) -> (result: bool)
        ensures
            result == (*self is Response),
    {
        match self {
            ApiError::Response { .. } => true,
            _ => false,
        }
    }

    /// The error an error response with this status and `Retry-After` stands for.
    pub fn from_response(status: u16, response: ErrorResponse, retry_after_secs: Option<u64>) -> (result:
        ApiError)
        ensures
            result matches ApiError::Response { status: s, id, name, detail, retry_after_secs: r }
                && s == status && id == Some(response.error.id) && name == response.error.name
                && detail == response.error.detail && r == retry_after_secs,
    {
        ApiError::Response {
            status,
            id: Some(response.error.id),
            name: response.error.name,
            detail: response.error.detail,
            retry_after_secs,
        }
    }
}

impl From<ValidationError> for ApiError {
    fn from(value: ValidationError) -> (result: ApiError)
        ensures
            result == ApiError::Validation(value),
    {
        ApiError::Validation(value)
    }
}

impl vstd::std_specs::convert::FromSpecImpl<ValidationError> for ApiError {
    open spec fn obeys_from_spec() -> bool {
        true
    }

    open spec fn from_spec(value: ValidationError) -> ApiError {
        ApiError::Validation(value)
    }
}

/// Why a client could not be built.
#[derive(Debug)]
pub enum ClientBuildError {
    /// The rate limit is outside 1 to 200 requests per hour.
    InvalidRateLimit,
    Http(reqwest::Error),
}

/// Accepts a rate limit of 1 to 200 requests per hour, the API's documented ceiling.
pub fn checked_requests_per_hour(value: usize) -> (result: Result<usize, ClientBuildError>)
    ensures
        1 <= value <= MAX_REQUESTS_PER_HOUR ==> result == Ok::<usize, ClientBuildError>(value),
        !(1 <= value <= MAX_REQUESTS_PER_HOUR) ==> result matches Err(ClientBuildError::InvalidRateLimit),
{
    if value == 0 || value > MAX_REQUESTS_PER_HOUR {
        Err(ClientBuildError::InvalidRateLimit)
    } else {
        Ok(value)
    }
}

/// Why a command failed.
#[derive(Debug)]
pub enum CliError {
    Invocation(String),
    Credentials(String),
    Api(ApiError),
    Local(String),
    Io(std::io::Error),
    Input(String),
}

/// The process exit code of an error: 2 for an invalid invocation, 3 for missing or
/// invalid credentials, 4 for an error answered by the API, 1 otherwise.
pub open spec fn exit_code_of(error: CliError) -> u8 {
    match error {
        CliError::Invocation(_) => 2,
        CliError::Credentials(_) => 3,
        CliError::Api(ApiError::Response { .. }) => 4,
        _ => 1,
    }
}

/// The `kind` an error is reported under.
pub open spec fn kind_of(error: CliError) -> Seq<char> {
    match error {
        CliError::Invocation(_) => "invocation"@,
        CliError::Credentials(_) => "credentials"@,
        CliError::Api(ApiError::Response { .. }) => "api"@,
        CliError::Api(_) => "client"@,
        CliError::Local(_) => "local"@,
        CliError::Io(_) => "io"@,
        CliError::Input(_) => "input"@,
    }
}

impl CliError {
    pub fn exit_code(&self) -> (result: u8)
        ensures
            result == exit_code_of(*self),
    {
        match self {
            CliError::Invocation(_) => 2,
            CliError::Credentials(_) => 3,
            CliError::Api(ApiError::Response { .. }) => 4,
            CliError::Api(_) | CliError::Local(_) | CliError::Io(_) | CliError::Input(_) => 1,
        }
    }

    pub fn kind(&self) -> (result: &'static str)
        ensures
            result@ == kind_of(*self),
    {
        match self {
            CliError::Invocation(_) => "invocation",
            CliError::Credentials(_) => "credentials",
            CliError::Api(ApiError::Response { .. }) => "api",
            CliError::Api(_) => "client",
            CliError::Local(_) => "local",
            CliError::Io(_) => "io",
            CliError::Input(_) => "input",
        }
    }

    /// The message of an error that carries its own text.
    pub fn own_message(&self) -> (result: Option<String>)
        ensures
            match *self {
                CliError::Invocation(m) | CliError::Credentials(m) | CliError::Local(m)
                | CliError::Input(m) => result == Some(m),
                _ => result is None,
            },
    {
        match self {
            CliError::Invocation(value) | CliError::Credentials(value) | CliError::Local(value)
            | CliError::Input(value) => Some(value.clone()),
            _ => None,
        }
    }
}

impl From<ApiError> for CliError {
    fn from(value: ApiError) -> (result: CliError)
        ensures
            result == CliError::Api(value),
    {
        CliError::Api(value)
    }
}

impl vstd::std_specs::convert::FromSpecImpl<ApiError> for CliError {
    open spec fn obeys_from_spec() -> bool {
        true
    }

    open spec fn from_spec(value: ApiError) -> CliError {
        CliError::Api(value)
    }
}

impl From<std::io::Error> for CliError {
    fn from(value: std::io::Error) -> (result: CliError)
        ensures
            result == CliError::Io(value),
    {
        CliError::Io(value)
    }
}

impl vstd::std_specs::convert::FromSpecImpl<std::io::Error> for CliError {
    open spec fn obeys_from_spec() -> bool {
        true
    }

    open spec fn from_spec(value: std::io::Error) -> CliError {
        CliError::Io(value)
    }
}

/// An error of the credentials kind with this message.
pub fn credentials_error(message: &str) -> (result: CliError)
    ensures
        result matches CliError::Credentials(m) && m@ == message@,
{
    CliError::Credentials(owned(message))
}

} // verus!
