use vstd::prelude::*;

use crate::error::{
    ErrorResponse, STATUS_BAD_REQUEST, STATUS_CREATED, STATUS_INTERNAL_SERVER_ERROR,
    STATUS_NO_CONTENT, STATUS_OK,
};
use crate::failure::StoreFailure;
use crate::models::{Timestamp, User};
use crate::repository::{email_taken, lookup, without_id, UserTable};

verus! {

/// The query of a greeting request.
pub struct HelloParams {
    pub name: Option<String>,
}

/// The body of a successful greeting.
pub struct HelloResponse {
    pub message: String,
}

/// The payload of a create request.
pub struct CreateUserSchema {
    pub name: String,
    pub email: String,
}

/// What a response carries.
pub enum ResponseBody {
    Empty,
    Error(ErrorResponse),
    OneUser(User),
    Users(Vec<User>),
    Greeting(HelloResponse),
}

/// An HTTP status and the body that goes with it.
pub struct ApiResponse {
    pub status: u16,
    pub body: ResponseBody,
}

/// `r` is a failure with the given status, whose body carries that status as
/// its code and the given message.
pub open spec fn is_error(r: ApiResponse, status: u16, message: Seq<char>) -> bool {
    &&& r.status == status
    &&& r.body matches ResponseBody::Error(e)
    &&& e.code == status
    &&& e.message@ == message
}

/// `r` is a success with the given status that carries the user `u`.
pub open spec fn is_user(r: ApiResponse, status: u16, u: User) -> bool {
    r.status == status && r.body == ResponseBody::OneUser(u)
}

/// The user that a response carries, if it carries one.
pub open spec fn body_user(r: ApiResponse) -> Option<User> {
    match r.body {
        ResponseBody::OneUser(u) => Some(u),
        _ => None,
    }
}

/// The text of a greeting to `name`.
pub open spec fn greeting(name: Seq<char>) -> Seq<char> {
    "Hello, "@ + name + "!"@
}

impl CreateUserSchema {
    /// Both fields are present and non-empty.
    pub open spec fn valid(&self) -> bool {
        self.name@.len() > 0 && self.email@.len() > 0
    }

    pub fn is_valid(&self) -> (r: bool)
        ensures
            r == self.valid(),
    {
        self.name.as_str().unicode_len() > 0 && self.email.as_str().unicode_len() > 0
    }
}

fn error_response(body: ErrorResponse) -> (r: ApiResponse)
    ensures
        r.status == body.code,
        r.body == ResponseBody::Error(body),
{
    ApiResponse { status: body.code, body: ResponseBody::Error(body) }
}

/// Answers a greeting request: `400` without a name, else `200` with
/// `Hello, {name}!`.
pub fn hello(params: HelloParams) -> (r: ApiResponse)
    ensures
        params.name is None ==> is_error(r, STATUS_BAD_REQUEST, "param name cannot be empty"@),
        params.name matches Some(n) ==> {
            &&& r.status == STATUS_OK
            &&& r.body matches ResponseBody::Greeting(g)
            &&& g.message@ == greeting(n@)
        },
{
    match params.name {
        None => error_response(ErrorResponse::missing_name()),
        Some(name) => {
            let mut message = String::from_str("Hello, ");
            message.append(name.as_str());
            message.append("!");
            ApiResponse { status: STATUS_OK, body: ResponseBody::Greeting(HelloResponse { message }) }
        },
    }
}

/// The `400` answer to a create request whose payload is not valid.
pub fn invalid_create_response() -> (r: ApiResponse)
    ensures
        is_error(r, STATUS_BAD_REQUEST, "invalid request body"@),
{
    error_response(ErrorResponse::invalid_body())
}

/// Maps the outcome of an insert to the answer of a create request: `201`
/// with the created user; `500` with `email already exists` on a uniqueness
/// conflict; `500` with `internal server error` on any other failure.
pub fn create_user_response(outcome: Result<User, StoreFailure>) -> (r: ApiResponse)
    ensures
        outcome matches Ok(u) ==> is_user(r, STATUS_CREATED, u),
        outcome == Err::<User, StoreFailure>(StoreFailure::ConstraintViolation)
            ==> is_error(r, STATUS_INTERNAL_SERVER_ERROR, "email already exists"@),
        outcome matches Err(f) && f != StoreFailure::ConstraintViolation
            ==> is_error(r, STATUS_INTERNAL_SERVER_ERROR, "internal server error"@),
{
    match outcome {
        Ok(user) => ApiResponse { status: STATUS_CREATED, body: ResponseBody::OneUser(user) },
        Err(StoreFailure::ConstraintViolation) => error_response(ErrorResponse::duplicate_email()),
        Err(_) => error_response(ErrorResponse::internal()),
    }
}

/// Maps the outcome of a lookup to the answer of a fetch request: `200` with
/// the user, or `500` with `internal server error` whatever the failure,
/// a missing user included.
pub fn get_user_response(outcome: Result<User, StoreFailure>) -> (r: ApiResponse)
    ensures
        outcome matches Ok(u) ==> is_user(r, STATUS_OK, u),
        outcome is Err ==> is_error(r, STATUS_INTERNAL_SERVER_ERROR, "internal server error"@),
{
    match outcome {
        Ok(user) => ApiResponse { status: STATUS_OK, body: ResponseBody::OneUser(user) },
        Err(_) => error_response(ErrorResponse::internal()),
    }
}

/// Maps the outcome of a listing to its answer: `200` with every user, or
/// `500` with `internal server error`.
pub fn get_users_response(outcome: Result<Vec<User>, StoreFailure>) -> (r: ApiResponse)
    ensures
        outcome matches Ok(v) ==> r.status == STATUS_OK && r.body == ResponseBody::Users(v),
        outcome is Err ==> is_error(r, STATUS_INTERNAL_SERVER_ERROR, "internal server error"@),
{
    match outcome {
        Ok(users) => ApiResponse { status: STATUS_OK, body: ResponseBody::Users(users) },
        Err(_) => error_response(ErrorResponse::internal()),
    }
}

/// Maps the outcome of a delete to its answer: `204` with no body, or `500`
/// with `internal server error`.
pub fn delete_user_response(outcome: Result<(), StoreFailure>) -> (r: ApiResponse)
    ensures
        outcome is Ok ==> r.status == STATUS_NO_CONTENT && r.body == ResponseBody::Empty,
        outcome is Err ==> is_error(r, STATUS_INTERNAL_SERVER_ERROR, "internal server error"@),
{
    match outcome {
        Ok(()) => ApiResponse { status: STATUS_NO_CONTENT, body: ResponseBody::Empty },
        Err(_) => error_response(ErrorResponse::internal()),
    }
}

/// What a create request on table `t0` with payload `body` at time `now`
/// answers (`r`), and the table `t1` it leaves.
pub open spec fn create_user_post(
    t0: UserTable,
    body: CreateUserSchema,
    now: Timestamp,
    t1: UserTable,
    r: ApiResponse,
) -> bool {
    let taken = email_taken(t0.rows(), body.email@);
    &&& t1.wf()
    &&& !body.valid() ==> is_error(r, STATUS_BAD_REQUEST, "invalid request body"@)
    &&& body.valid() && taken ==> is_error(r, STATUS_INTERNAL_SERVER_ERROR, "email already exists"@)
    &&& body.valid() && !taken && !t0.has_room() ==> is_error(
        r,
        STATUS_INTERNAL_SERVER_ERROR,
        "internal server error"@,
    )
    &&& body.valid() && !taken && t0.has_room() ==> {
        &&& r.body matches ResponseBody::OneUser(u)
        &&& r.status == STATUS_CREATED
        &&& u.id != 0
        &&& u.name == body.name
        &&& u.email == body.email
        &&& u.created_at == Some(now)
        &&& u.updated_at == Some(now)
        &&& lookup(t0.rows(), u.id) is None
        &&& t1.rows() == t0.rows().push(u)
    }
    &&& r.status != STATUS_CREATED ==> t1.rows() == t0.rows()
}

/// Creates a user from `body`, stamped with `now`.
pub fn create_user(table: &mut UserTable, body: CreateUserSchema, now: Timestamp) -> (r: ApiResponse)
    requires
        old(table).wf(),
    ensures
        create_user_post(*old(table), body, now, *final(table), r),
{
    if !body.is_valid() {
        return invalid_create_response();
    }
    let outcome = table.insert(body.name, body.email, now);
    create_user_response(outcome)
}

/// What a fetch of `id` on table `t` answers.
pub open spec fn get_user_post(t: UserTable, id: u128, r: ApiResponse) -> bool {
    &&& lookup(t.rows(), id) matches Some(u) ==> is_user(r, STATUS_OK, u)
    &&& lookup(t.rows(), id) is None ==> is_error(r, STATUS_INTERNAL_SERVER_ERROR, "internal server error"@)
}

/// Fetches the user with identifier `id`.
pub fn get_user_by_id(table: &UserTable, id: u128) -> (r: ApiResponse)
    requires
        table.wf(),
    ensures
        get_user_post(*table, id, r),
{
    get_user_response(table.find_by_id(id))
}

/// What a listing of table `t` answers.
pub open spec fn get_users_post(t: UserTable, r: ApiResponse) -> bool {
    &&& r.status == STATUS_OK
    &&& r.body matches ResponseBody::Users(v)
    &&& v@ == t.rows()
}

/// Lists every user, in order of creation.
pub fn get_users(table: &UserTable) -> (r: ApiResponse)
    ensures
        get_users_post(*table, r),
{
    get_users_response(Ok(table.find_all()))
}

/// What a delete of `id` on table `t0` answers, and the table `t1` it leaves.
pub open spec fn delete_user_post(t0: UserTable, id: u128, t1: UserTable, r: ApiResponse) -> bool {
    &&& t1.wf()
    &&& t1.has_room() == t0.has_room()
    &&& t1.rows() == without_id(t0.rows(), id)
    &&& r.status == STATUS_NO_CONTENT
    &&& r.body == ResponseBody::Empty
}

/// Deletes the user with identifier `id`; answers `204` whether or not it existed.
pub fn delete_user(table: &mut UserTable, id: u128) -> (r: ApiResponse)
    requires
        old(table).wf(),
    ensures
        delete_user_post(*old(table), id, *final(table), r),
{
    delete_user_response(table.delete_by_id(id))
}

} // verus!
