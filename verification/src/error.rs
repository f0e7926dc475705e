//! Application errors and what a client is told about them.

use vstd::prelude::*;

verus! {

/// The application's own result code, sent in every response body.
#[derive(Clone, Copy, Debug, PartialEq, Eq, Structural)]
pub enum ErrorCode {
    Normal,
    InternalError,
    AuthorizeFailed,
    UserConflict,
    ParameterIncorrect,
}

impl ErrorCode {
    /// The number a code is sent as.
    pub open spec fn spec_code(self) -> u16 {
        match self {
            ErrorCode::Normal => 200,
            ErrorCode::InternalError => 1000,
            ErrorCode::AuthorizeFailed => 1002,
            ErrorCode::UserConflict => 1003,
            ErrorCode::ParameterIncorrect => 1004,
        }
    }

    /// The text that goes with a code.
    pub open spec fn spec_message(self) -> Seq<char> {
        match self {
            ErrorCode::Normal => ""@,
            ErrorCode::InternalError => "服务器内部错误"@,
            ErrorCode::AuthorizeFailed => "用户名或密码错误"@,
            ErrorCode::UserConflict => "该用户已经存在"@,
            ErrorCode::ParameterIncorrect => "请求参数错误"@,
        }
    }

    /// The number a code is sent as.
    pub fn code(&self) -> (code: u16)
        ensures
            code == self.spec_code(),
    {
        match self {
            ErrorCode::Normal => 200,
            ErrorCode::InternalError => 1000,
            ErrorCode::AuthorizeFailed => 1002,
            ErrorCode::UserConflict => 1003,
            ErrorCode::ParameterIncorrect => 1004,
        }
    }

    /// The code that `number` stands for, if it stands for one.
    pub fn from_code(number: u16) -> (code: Option<ErrorCode>)
        ensures
            match code {
                Some(c) => c.spec_code() == number,
                None => forall|c: ErrorCode| c.spec_code() != number,
            },
    {
        if number == 200 {
            Some(ErrorCode::Normal)
        } else if number == 1000 {
            Some(ErrorCode::InternalError)
        } else if number == 1002 {
            Some(ErrorCode::AuthorizeFailed)
        } else if number == 1003 {
            Some(ErrorCode::UserConflict)
        } else if number == 1004 {
            Some(ErrorCode::ParameterIncorrect)
        } else {
            None
        }
    }

    /// The text that goes with a code.
    pub fn message(&self) -> (text: String)
        ensures
            text@ == self.spec_message(),
    {
        match self {
            ErrorCode::Normal => String::from_str(""),
            ErrorCode::InternalError => String::from_str("服务器内部错误"),
            ErrorCode::AuthorizeFailed => String::from_str("用户名或密码错误"),
            ErrorCode::UserConflict => String::from_str("该用户已经存在"),
            ErrorCode::ParameterIncorrect => String::from_str("请求参数错误"),
        }
    }
}

/// An error that stops a route.
#[derive(Debug)]
pub enum AppError {
    /// Anything that went wrong inside the server; holds its description.
    Any(String),
    /// The input broke a rule; holds the rules broken, one per line.
    ValidationError(String),
    /// A form could not be read; holds the reason.
    AxumFormRejection(String),
    /// A JSON body could not be read; holds the reason.
    AxumJsonRejection(String),
    /// A token could not be made or read; holds the reason.
    Jwt(String),
    /// The token presented is not valid.
    InvalidToken(String),
    /// Name or password is wrong; holds what the client is told.
    AuthorizeFailed(String),
    /// The user exists already; holds what the client is told.
    UserConflict(String),
}

/// What a client is told about an error: the HTTP status, the result code
/// with its text, and a description of the error.
#[derive(Debug)]
pub struct ErrorResponse {
    pub status: u16,
    pub code: ErrorCode,
    pub message: String,
    pub error: String,
}

/// `text` with every `from` in it replaced by `to`.
pub open spec fn replace_char(text: Seq<char>, from: char, to: Seq<char>) -> Seq<char>
    decreases text.len(),
{
    if text.len() == 0 {
        Seq::empty()
    } else if text.last() == from {
        replace_char(text.drop_last(), from, to) + to
    } else {
        replace_char(text.drop_last(), from, to).push(text.last())
    }
}

/// `str::replace` of std with a `char` as the pattern: the text with every
/// occurrence of the character replaced by `to`, the rest unchanged.
#[verifier::external_body]
fn replace(text: &str, from: char, to: &str) -> (out: String)
    ensures
        out@ == replace_char(text@, from, to@),
{
    text.replace(from, to)
}

impl AppError {
    /// The text an error is displayed as.
    pub open spec fn text(self) -> Seq<char> {
        match self {
            AppError::Any(t) => t@,
            AppError::ValidationError(t) => t@,
            AppError::AxumFormRejection(t) => t@,
            AppError::AxumJsonRejection(t) => t@,
            AppError::Jwt(t) => t@,
            AppError::InvalidToken(t) => t@,
            AppError::AuthorizeFailed(t) => t@,
            AppError::UserConflict(t) => t@,
        }
    }

    /// The HTTP status an error is answered with.
    pub open spec fn spec_status(self) -> u16 {
        match self {
            AppError::Any(_) | AppError::Jwt(_) => 500,
            AppError::ValidationError(_) | AppError::AxumFormRejection(_)
            | AppError::AxumJsonRejection(_) | AppError::InvalidToken(_) => 400,
            AppError::AuthorizeFailed(_) => 401,
            AppError::UserConflict(_) => 409,
        }
    }

    /// The result code an error is answered with.
    pub open spec fn spec_code(self) -> ErrorCode {
        match self {
            AppError::Any(_) | AppError::Jwt(_) => ErrorCode::InternalError,
            AppError::ValidationError(_) | AppError::AxumFormRejection(_)
            | AppError::AxumJsonRejection(_) => ErrorCode::ParameterIncorrect,
            AppError::InvalidToken(_) | AppError::AuthorizeFailed(_) => ErrorCode::AuthorizeFailed,
            AppError::UserConflict(_) => ErrorCode::UserConflict,
        }
    }

    /// The description a client is given. What went wrong inside the server
    /// is not told; broken rules are listed on one line.
    pub open spec fn spec_description(self) -> Seq<char> {
        match self {
            AppError::Any(_) | AppError::Jwt(_) => "internal server error"@,
            AppError::ValidationError(t) => replace_char(
                "Input validation error: ["@ + t@ + "]"@,
                '\n',
                ", "@,
            ),
            AppError::InvalidToken(_) => "Invalid token"@,
            AppError::AxumFormRejection(t) | AppError::AxumJsonRejection(t)
            | AppError::AuthorizeFailed(t) | AppError::UserConflict(t) => t@,
        }
    }

    /// What a client is told about the error.
    pub fn into_response(self) -> (res: ErrorResponse)
        ensures
            res.status == self.spec_status(),
            res.code == self.spec_code(),
            res.message@ == self.spec_code().spec_message(),
            res.error@ == self.spec_description(),
    {
        let (status, code, error): (u16, ErrorCode, String) = match self {
            AppError::Any(_) => log_internal_error(),
            AppError::Jwt(_) => log_internal_error(),
            AppError::AxumFormRejection(t) => (400, ErrorCode::ParameterIncorrect, t),
            AppError::AxumJsonRejection(t) => (400, ErrorCode::ParameterIncorrect, t),
            AppError::ValidationError(t) => {
                let listed = String::from_str("Input validation error: [").concat(
                    t.as_str(),
                ).concat("]");
                (400, ErrorCode::ParameterIncorrect, replace(listed.as_str(), '\n', ", "))
            },
            AppError::InvalidToken(_) => (
                400,
                ErrorCode::AuthorizeFailed,
                String::from_str("Invalid token"),
            ),
            AppError::AuthorizeFailed(t) => (401, ErrorCode::AuthorizeFailed, t),
            AppError::UserConflict(t) => (409, ErrorCode::UserConflict, t),
        };
        ErrorResponse { status, code, message: code.message(), error }
    }
}

/// The answer to anything that went wrong inside the server.
fn log_internal_error() -> (parts: (u16, ErrorCode, String))
    ensures
        parts.0 == 500,
        parts.1 == ErrorCode::InternalError,
        parts.2@ == "internal server error"@,
{
    (500, ErrorCode::InternalError, String::from_str("internal server error"))
}

/// A number stands for at most one code.
pub proof fn lemma_codes_are_distinct(a: ErrorCode, b: ErrorCode)
    ensures
        a.spec_code() == b.spec_code() ==> a == b,
{
}

} // verus!
