use vstd::prelude::*;
use vstd::string::StringExecFns;
use crate::go_rest_client::{
    user_reply_spec, users_reply_spec, GoRestError, Reply, User, STATUS_INTERNAL_SERVER_ERROR,
    STATUS_NOT_FOUND,
};

verus! {

/// Local status of a successful call.
pub const LOCAL_OK: u16 = 200;

/// Local status of a failed call.
pub const LOCAL_NOT_FOUND: u16 = 404;

/// Body of the greeting at the root path.
pub const HELLO_BODY: &'static str = "Hello!";

/// Body of a failed listing of all users.
pub const USERS_FAILURE_BODY: &'static str = "Error occurred :/";

/// Body of a failed lookup of one user.
pub const USER_FAILURE_BODY: &'static str = "Error occurred :(";

/// What the local service answers: a value to send as JSON with status
/// `200`, or a failure status with a plain-text message.
#[derive(Debug, Clone)]
pub enum LocalResponse<T> {
    Success(T),
    Failure { status: u16, message: String },
}

/// Local status for each kind of upstream error. Every kind maps to `404`:
/// the caller learns only that the call failed.
pub open spec fn failure_status(e: GoRestError) -> u16 {
    match e {
        GoRestError::UserNotFound(_) => LOCAL_NOT_FOUND,
        GoRestError::RestError(_) => LOCAL_NOT_FOUND,
        GoRestError::JsonError(_) => LOCAL_NOT_FOUND,
        GoRestError::UrlError => LOCAL_NOT_FOUND,
    }
}

/// Local status of the response to an upstream outcome.
pub open spec fn response_status<T>(result: Result<T, GoRestError>) -> u16 {
    match result {
        Ok(_) => LOCAL_OK,
        Err(e) => failure_status(e),
    }
}

/// Whether `r` answers `result`: its value on success, else the status of
/// the error with the given message.
pub open spec fn answers<T>(result: Result<T, GoRestError>, message: Seq<char>, r: LocalResponse<T>) -> bool {
    match result {
        Ok(v) => r == LocalResponse::Success(v),
        Err(e) => r matches LocalResponse::Failure { status, message: m }
            && status == failure_status(e) && m@ == message,
    }
}

impl<T> LocalResponse<T> {
    /// The local status of this response.
    pub open spec fn spec_status(&self) -> u16 {
        match self {
            LocalResponse::Success(_) => LOCAL_OK,
            LocalResponse::Failure { status, .. } => *status,
        }
    }

    /// The local status of this response.
    pub fn status(&self) -> (r: u16)
        ensures
            r == self.spec_status(),
    {
        match self {
            LocalResponse::Success(_) => LOCAL_OK,
            LocalResponse::Failure { status, .. } => *status,
        }
    }
}

/// Local status for an upstream error.
pub fn error_status(e: &GoRestError) -> (r: u16)
    ensures
        r == failure_status(*e),
{
    match e {
        GoRestError::UserNotFound(_) => LOCAL_NOT_FOUND,
        GoRestError::RestError(_) => LOCAL_NOT_FOUND,
        GoRestError::JsonError(_) => LOCAL_NOT_FOUND,
        GoRestError::UrlError => LOCAL_NOT_FOUND,
    }
}

fn respond<T>(result: Result<T, GoRestError>, message: &str) -> (r: LocalResponse<T>)
    ensures
        answers(result, message@, r),
        r.spec_status() == response_status(result),
{
    match result {
        Ok(v) => LocalResponse::Success(v),
        Err(e) => LocalResponse::Failure { status: error_status(&e), message: String::from_str(message) },
    }
}

/// The local answer to a listing of all users.
pub fn get_users_response(result: Result<Vec<User>, GoRestError>) -> (r: LocalResponse<Vec<User>>)
    ensures
        answers(result, USERS_FAILURE_BODY@, r),
        r.spec_status() == response_status(result),
{
    respond(result, USERS_FAILURE_BODY)
}

/// The local answer to a lookup of one user.
pub fn get_user_response(result: Result<User, GoRestError>) -> (r: LocalResponse<User>)
    ensures
        answers(result, USER_FAILURE_BODY@, r),
        r.spec_status() == response_status(result),
{
    respond(result, USER_FAILURE_BODY)
}

/// Every upstream error, whatever its kind, reaches the local caller as `404`.
pub proof fn every_error_is_local_not_found(e: GoRestError)
    ensures
        failure_status(e) == LOCAL_NOT_FOUND,
{
}

/// An upstream `404` on the lookup of a user is answered locally with `404`.
pub proof fn upstream_not_found_is_local_not_found(id: u32)
    ensures
        user_reply_spec(id, Reply::Answered(STATUS_NOT_FOUND))
            == Err::<(), GoRestError>(GoRestError::UserNotFound(id)),
        response_status(user_reply_spec(id, Reply::Answered(STATUS_NOT_FOUND))) == LOCAL_NOT_FOUND,
{
}

/// An upstream that cannot be reached ends either call in an error, which is
/// answered locally with `404`.
pub proof fn unreachable_upstream_is_local_not_found(id: u32)
    ensures
        users_reply_spec(Reply::Unreachable)
            == Err::<(), GoRestError>(GoRestError::RestError(STATUS_INTERNAL_SERVER_ERROR)),
        user_reply_spec(id, Reply::Unreachable)
            == Err::<(), GoRestError>(GoRestError::RestError(STATUS_INTERNAL_SERVER_ERROR)),
        response_status(users_reply_spec(Reply::Unreachable)) == LOCAL_NOT_FOUND,
        response_status(user_reply_spec(id, Reply::Unreachable)) == LOCAL_NOT_FOUND,
{
}

} // verus!
