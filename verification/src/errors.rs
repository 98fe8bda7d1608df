//! The error taxonomy shared by the token service, the request guard and the
//! credential-store services, together with its HTTP presentation.

use vstd::prelude::*;

verus! {

/// One error kind per failure class the service distinguishes: a token that
/// does not decode, a token past its expiry, a request body the rules refuse,
/// a store or network fault, a missing record, and a permission refusal.
/// The payload carries the internal detail; only [`ApiError::message`] ever
/// crosses the trust boundary.
#[derive(Debug)]
pub enum ApiError {
    InvalidToken(String),
    TokenExpired(String),
    UnprocessableEntity(String),
    InternalError(String),
    NotFound(String),
    Forbidden(String),
}

impl ApiError {
    /// The HTTP status that presents this error.
    pub open spec fn spec_status_code(&self) -> u16 {
        match self {
            ApiError::InvalidToken(_) => 401,
            ApiError::TokenExpired(_) => 401,
            ApiError::UnprocessableEntity(_) => 422,
            ApiError::InternalError(_) => 500,
            ApiError::NotFound(_) => 404,
            ApiError::Forbidden(_) => 403,
        }
    }

    /// The payload text alone, without the kind prefix.
    pub open spec fn spec_detail(&self) -> Seq<char> {
        match self {
            ApiError::InvalidToken(s) => s@,
            ApiError::TokenExpired(s) => s@,
            ApiError::UnprocessableEntity(s) => s@,
            ApiError::InternalError(s) => s@,
            ApiError::NotFound(s) => s@,
            ApiError::Forbidden(s) => s@,
        }
    }

    /// The kind prefix of the presented message.
    pub open spec fn spec_prefix(&self) -> Seq<char> {
        match self {
            ApiError::InvalidToken(_) => "Invalid Token: "@,
            ApiError::TokenExpired(_) => "Expired Token: "@,
            ApiError::UnprocessableEntity(_) => "Unprocessable Entity: "@,
            ApiError::InternalError(_) => "Internal Error: "@,
            ApiError::NotFound(_) => "Not Found: "@,
            ApiError::Forbidden(_) => "Forbidden: "@,
        }
    }

    pub fn status_code(&self) -> (code: u16)
        ensures
            code == self.spec_status_code(),
    {
        match self {
            ApiError::InvalidToken(_) => 401,
            ApiError::TokenExpired(_) => 401,
            ApiError::UnprocessableEntity(_) => 422,
            ApiError::InternalError(_) => 500,
            ApiError::NotFound(_) => 404,
            ApiError::Forbidden(_) => 403,
        }
    }

    /// The message shown for this error: the kind prefix followed by the
    /// payload text.
    pub fn message(&self) -> (msg: String)
        ensures
            msg@ == self.spec_prefix() + self.spec_detail(),
    {
        let (prefix, detail) = match self {
            ApiError::InvalidToken(s) => ("Invalid Token: ", s),
            ApiError::TokenExpired(s) => ("Expired Token: ", s),
            ApiError::UnprocessableEntity(s) => ("Unprocessable Entity: ", s),
            ApiError::InternalError(s) => ("Internal Error: ", s),
            ApiError::NotFound(s) => ("Not Found: ", s),
            ApiError::Forbidden(s) => ("Forbidden: ", s),
        };
        let mut msg = String::from_str(prefix);
        msg.append(detail.as_str());
        msg
    }

    /// The JSON body of the HTTP response presenting this error.
    pub fn error_response_body(&self) -> (body: String)
        ensures
            body@ == "{\"error\":\""@ + self.spec_prefix() + self.spec_detail() + "\"}"@,
    {
        let mut body = String::from_str("{\"error\":\"");
        body.append(self.message().as_str());
        body.append("\"}");
        body
    }
}

} // verus!
