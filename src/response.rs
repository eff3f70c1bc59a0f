//! The shapes of API answers.

use vstd::prelude::*;
use vstd::string::*;

verus! {

/// An error answer, with its message.
#[derive(Debug, Clone)]
pub enum ErrorResponse {
    BadRequest(String),
    MethodNotAllowed(String),
    NotFound(String),
    Unauthorized(String),
    InternalServerError(String),
}

impl ErrorResponse {
    pub open spec fn message_of(&self) -> Seq<char> {
        match self {
            ErrorResponse::BadRequest(m) => m@,
            ErrorResponse::MethodNotAllowed(m) => m@,
            ErrorResponse::NotFound(m) => m@,
            ErrorResponse::Unauthorized(m) => m@,
            ErrorResponse::InternalServerError(m) => m@,
        }
    }

    pub open spec fn code_of(&self) -> u16 {
        match self {
            ErrorResponse::BadRequest(_) => 400,
            ErrorResponse::MethodNotAllowed(_) => 405,
            ErrorResponse::NotFound(_) => 404,
            ErrorResponse::Unauthorized(_) => 401,
            ErrorResponse::InternalServerError(_) => 500,
        }
    }

    /// The message the error carries.
    pub fn message(&self) -> (r: &String)
        ensures
            r@ == self.message_of(),
    {
        match self {
            ErrorResponse::BadRequest(m) => m,
            ErrorResponse::MethodNotAllowed(m) => m,
            ErrorResponse::NotFound(m) => m,
            ErrorResponse::Unauthorized(m) => m,
            ErrorResponse::InternalServerError(m) => m,
        }
    }

    /// The HTTP status code that answers with this error.
    pub fn status_code(&self) -> (r: u16)
        ensures
            r == self.code_of(),
    {
        match self {
            ErrorResponse::BadRequest(_) => 400,
            ErrorResponse::MethodNotAllowed(_) => 405,
            ErrorResponse::NotFound(_) => 404,
            ErrorResponse::Unauthorized(_) => 401,
            ErrorResponse::InternalServerError(_) => 500,
        }
    }

    /// The body of the answer: `{"status": "error", "message": "<message>"}`,
    /// the message written as it is.
    pub fn to_json(&self) -> (r: String)
        ensures
            r@ == "{\"status\": \"error\", \"message\": \""@ + self.message_of() + "\"}"@,
    {
        let mut out = String::from_str("{\"status\": \"error\", \"message\": \"");
        out.append(self.message().as_str());
        out.append("\"}");
        out
    }
}

/// An internal error answer that carries `message`.
pub fn internal_server_error(message: String) -> (r: ErrorResponse)
    ensures
        r == ErrorResponse::InternalServerError(message),
{
    ErrorResponse::InternalServerError(message)
}

/// A successful answer around `data`.
#[derive(Debug, Clone)]
pub struct SuccessResponse<T> {
    pub status: &'static str,
    pub data: T,
}

impl<T> SuccessResponse<T> {
    /// Wraps `data`, with the status `success`.
    pub fn new(data: T) -> (r: Self)
        ensures
            r.status@ == "success"@,
            r.data == data,
    {
        SuccessResponse { status: "success", data }
    }
}

} // verus!
