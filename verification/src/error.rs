use vstd::prelude::*;

verus! {

/// An error answered to a client: a kind and, but for internal errors, a message.
#[derive(Debug)]
pub enum AppError {
    BadRequest(String),
    Unauthorized(String),
    Conflict(String),
    NotFound(String),
    InternalServerError,
}

/// What an `AppError` says, its message taken by its characters.
pub enum Failure {
    BadRequest(Seq<char>),
    Unauthorized(Seq<char>),
    Conflict(Seq<char>),
    NotFound(Seq<char>),
    InternalServerError,
}

impl View for AppError {
    type V = Failure;

    open spec fn view(&self) -> Failure {
        match self {
            AppError::BadRequest(m) => Failure::BadRequest(m@),
            AppError::Unauthorized(m) => Failure::Unauthorized(m@),
            AppError::Conflict(m) => Failure::Conflict(m@),
            AppError::NotFound(m) => Failure::NotFound(m@),
            AppError::InternalServerError => Failure::InternalServerError,
        }
    }
}

/// The HTTP status that answers a failure.
pub open spec fn failure_status(f: Failure) -> u16 {
    match f {
        Failure::BadRequest(_) => 400,
        Failure::Unauthorized(_) => 401,
        Failure::Conflict(_) => 409,
        Failure::NotFound(_) => 404,
        Failure::InternalServerError => 500,
    }
}

/// The message that goes with a failure.
pub open spec fn failure_message(f: Failure) -> Seq<char> {
    match f {
        Failure::BadRequest(m) => m,
        Failure::Unauthorized(m) => m,
        Failure::Conflict(m) => m,
        Failure::NotFound(m) => m,
        Failure::InternalServerError => "Internal server error"@,
    }
}

/// A database call that failed; what went wrong is logged where it happened.
#[derive(Clone, Copy, PartialEq, Eq, Structural, Debug)]
pub struct DbError;

impl AppError {
    /// The HTTP status of the answer.
    pub fn status_code(&self) -> (r: u16)
        ensures
            r == failure_status(self@),
    {
        match self {
            AppError::BadRequest(_) => 400,
            AppError::Unauthorized(_) => 401,
            AppError::Conflict(_) => 409,
            AppError::NotFound(_) => 404,
            AppError::InternalServerError => 500,
        }
    }

    /// The message of the answer.
    pub fn message(&self) -> (r: String)
        ensures
            r@ == failure_message(self@),
    {
        match self {
            AppError::BadRequest(m) => m.clone(),
            AppError::Unauthorized(m) => m.clone(),
            AppError::Conflict(m) => m.clone(),
            AppError::NotFound(m) => m.clone(),
            AppError::InternalServerError => String::from_str("Internal server error"),
        }
    }

    /// A 404 with the given message.
    pub fn not_found(m: &str) -> (r: AppError)
        ensures
            r@ == Failure::NotFound(m@),
    {
        AppError::NotFound(m.to_owned())
    }

    /// A 401 with the given message.
    pub fn unauthorized(m: &str) -> (r: AppError)
        ensures
            r@ == Failure::Unauthorized(m@),
    {
        AppError::Unauthorized(m.to_owned())
    }

    /// A 400 with the given message.
    pub fn bad_request(m: &str) -> (r: AppError)
        ensures
            r@ == Failure::BadRequest(m@),
    {
        AppError::BadRequest(m.to_owned())
    }

    /// A 409 with the given message.
    pub fn conflict(m: &str) -> (r: AppError)
        ensures
            r@ == Failure::Conflict(m@),
    {
        AppError::Conflict(m.to_owned())
    }
}

} // verus!
