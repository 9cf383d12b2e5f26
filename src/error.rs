use vstd::prelude::*;

verus! {

/// A request succeeded.
pub const STATUS_OK: u16 = 200;

/// A request succeeded and created a resource.
pub const STATUS_CREATED: u16 = 201;

/// A request succeeded and has nothing to return.
pub const STATUS_NO_CONTENT: u16 = 204;

/// The request was malformed or incomplete.
pub const STATUS_BAD_REQUEST: u16 = 400;

/// The request failed on the server's side.
pub const STATUS_INTERNAL_SERVER_ERROR: u16 = 500;

/// The uniform `{code, message}` body of every response that is not a success.
///
/// `code` is set by each handler; this library always sets it equal to the
/// status of the response that carries it.
pub struct ErrorResponse {
    pub code: u16,
    pub message: String,
}

impl ErrorResponse {
    pub fn new(code: u16, message: &str) -> (r: Self)
        ensures
            r.code == code,
            r.message@ == message@,
    {
        ErrorResponse { code, message: message.to_string() }
    }

    /// The body of a failure that must not leak internal details.
    pub fn internal() -> (r: Self)
        ensures
            r.code == STATUS_INTERNAL_SERVER_ERROR,
            r.message@ == "internal server error"@,
    {
        Self::new(STATUS_INTERNAL_SERVER_ERROR, "internal server error")
    }

    /// The body of a create that collided with an existing email.
    pub fn duplicate_email() -> (r: Self)
        ensures
            r.code == STATUS_INTERNAL_SERVER_ERROR,
            r.message@ == "email already exists"@,
    {
        Self::new(STATUS_INTERNAL_SERVER_ERROR, "email already exists")
    }

    /// The body of a create whose payload is missing a field or has an empty one.
    pub fn invalid_body() -> (r: Self)
        ensures
            r.code == STATUS_BAD_REQUEST,
            r.message@ == "invalid request body"@,
    {
        Self::new(STATUS_BAD_REQUEST, "invalid request body")
    }

    /// The body of a greeting request without a name.
    pub fn missing_name() -> (r: Self)
        ensures
            r.code == STATUS_BAD_REQUEST,
            r.message@ == "param name cannot be empty"@,
    {
        Self::new(STATUS_BAD_REQUEST, "param name cannot be empty")
    }
}

} // verus!
