use billie_server::error::ErrorResponse;
use billie_server::failure::{classify_store_error, contains_text, StoreFailure};
use billie_server::handlers::{
    create_user, create_user_response, delete_user, delete_user_response, get_user_by_id,
    get_user_response, get_users, get_users_response, hello, invalid_create_response, ApiResponse,
    CreateUserSchema, HelloParams, ResponseBody,
};
use billie_server::models::{Timestamp, User};
use billie_server::repository::UserTable;

fn at(secs: i64) -> Timestamp {
    Timestamp { secs, nanos: 0 }
}

fn body(name: &str, email: &str) -> CreateUserSchema {
    CreateUserSchema { name: name.to_string(), email: email.to_string() }
}

fn created(r: &ApiResponse) -> &User {
    match &r.body {
        ResponseBody::OneUser(u) => u,
        _ => panic!("expected a user in the response"),
    }
}

fn error_of(r: &ApiResponse) -> &ErrorResponse {
    match &r.body {
        ResponseBody::Error(e) => e,
        _ => panic!("expected an error in the response"),
    }
}

fn listed(r: &ApiResponse) -> &Vec<User> {
    match &r.body {
        ResponseBody::Users(v) => v,
        _ => panic!("expected a list in the response"),
    }
}

fn sample_user(id: u128) -> User {
    User {
        id,
        name: "Ada".to_string(),
        email: "ada@example.com".to_string(),
        created_at: Some(at(10)),
        updated_at: None,
    }
}

#[test]
fn create_returns_created_user() {
    let mut t = UserTable::new();
    let r = create_user(&mut t, body("Ada", "ada@example.com"), at(100));
    assert_eq!(r.status, 201);
    let u = created(&r);
    assert_ne!(u.id, 0);
    assert_eq!(u.name, "Ada");
    assert_eq!(u.email, "ada@example.com");
    assert_eq!(u.created_at, Some(at(100)));
    assert_eq!(u.updated_at, Some(at(100)));
}

#[test]
fn create_twice_with_same_email_fails() {
    let mut t = UserTable::new();
    let r1 = create_user(&mut t, body("Ada", "ada@example.com"), at(1));
    assert_eq!(r1.status, 201);
    let r2 = create_user(&mut t, body("Other", "ada@example.com"), at(2));
    assert_eq!(r2.status, 500);
    let e = error_of(&r2);
    assert_eq!(e.code, 500);
    assert!(e.message.contains("email already exists"));
    assert_eq!(listed(&get_users(&t)).len(), 1);
}

#[test]
fn create_with_empty_field_is_bad_request() {
    let mut t = UserTable::new();
    let r = create_user(&mut t, body("", "a@b.c"), at(1));
    assert_eq!(r.status, 400);
    assert_eq!(error_of(&r).message, "invalid request body");
    let r = create_user(&mut t, body("Ada", ""), at(1));
    assert_eq!(r.status, 400);
    assert_eq!(error_of(&r).code, 400);
    assert!(listed(&get_users(&t)).is_empty());
}

#[test]
fn fetch_after_create_returns_same_user() {
    let mut t = UserTable::new();
    create_user(&mut t, body("Bob", "bob@example.com"), at(1));
    let r = create_user(&mut t, body("Ada", "ada@example.com"), at(2));
    let id = created(&r).id;
    let g = get_user_by_id(&t, id);
    assert_eq!(g.status, 200);
    let u = created(&g);
    assert_eq!(u.id, id);
    assert_eq!(u.name, "Ada");
    assert_eq!(u.email, "ada@example.com");
}

#[test]
fn fetch_unknown_id_is_internal_error() {
    let mut t = UserTable::new();
    create_user(&mut t, body("Ada", "ada@example.com"), at(1));
    let g = get_user_by_id(&t, 0x1234_5678_9abc_def0_1234_5678_9abc_def0);
    assert_eq!(g.status, 500);
    let e = error_of(&g);
    assert_eq!(e.code, 500);
    assert_eq!(e.message, "internal server error");
}

#[test]
fn list_contains_all_created_users() {
    let mut t = UserTable::new();
    let r = get_users(&t);
    assert_eq!(r.status, 200);
    assert!(listed(&r).is_empty());
    let mut ids = Vec::new();
    for (i, email) in ["a@x.io", "b@x.io", "c@x.io"].iter().enumerate() {
        let c = create_user(&mut t, body("N", email), at(i as i64));
        assert_eq!(c.status, 201);
        ids.push(created(&c).id);
    }
    let r = get_users(&t);
    assert_eq!(r.status, 200);
    let v = listed(&r);
    assert!(v.len() >= 3);
    for id in ids {
        assert!(v.iter().any(|u| u.id == id));
    }
    assert_eq!(v[0].email, "a@x.io");
    assert_eq!(v[2].email, "c@x.io");
}

#[test]
fn delete_is_idempotent_and_fetch_then_fails() {
    let mut t = UserTable::new();
    let c = create_user(&mut t, body("Ada", "ada@example.com"), at(1));
    create_user(&mut t, body("Bob", "bob@example.com"), at(2));
    let id = created(&c).id;
    let d = delete_user(&mut t, id);
    assert_eq!(d.status, 204);
    assert!(matches!(d.body, ResponseBody::Empty));
    assert_eq!(get_user_by_id(&t, id).status, 500);
    let again = delete_user(&mut t, id);
    assert_eq!(again.status, 204);
    let never = delete_user(&mut t, 999_999);
    assert_eq!(never.status, 204);
    assert_eq!(get_user_by_id(&t, 999_999).status, 500);
    assert_eq!(listed(&get_users(&t)).len(), 1);
}

#[test]
fn deleted_email_can_be_reused_with_fresh_id() {
    let mut t = UserTable::new();
    let c = create_user(&mut t, body("Ada", "ada@example.com"), at(1));
    let old_id = created(&c).id;
    delete_user(&mut t, old_id);
    let c2 = create_user(&mut t, body("Ada", "ada@example.com"), at(2));
    assert_eq!(c2.status, 201);
    assert_ne!(created(&c2).id, old_id);
}

#[test]
fn hello_without_name_is_bad_request() {
    let r = hello(HelloParams { name: None });
    assert_eq!(r.status, 400);
    let e = error_of(&r);
    assert_eq!(e.code, 400);
    assert_eq!(e.message, "param name cannot be empty");
}

#[test]
fn hello_greets_by_name() {
    let r = hello(HelloParams { name: Some("Ada".to_string()) });
    assert_eq!(r.status, 200);
    match &r.body {
        ResponseBody::Greeting(g) => assert_eq!(g.message, "Hello, Ada!"),
        _ => panic!("expected a greeting"),
    }
}

#[test]
fn hello_with_empty_name_still_greets() {
    let r = hello(HelloParams { name: Some(String::new()) });
    assert_eq!(r.status, 200);
    match &r.body {
        ResponseBody::Greeting(g) => assert_eq!(g.message, "Hello, !"),
        _ => panic!("expected a greeting"),
    }
}

#[test]
fn contains_text_finds_substrings() {
    assert!(contains_text("abcdef", "cde"));
    assert!(contains_text("abc", ""));
    assert!(contains_text("", ""));
    assert!(!contains_text("abc", "abcd"));
    assert!(!contains_text("abcdef", "ced"));
    assert!(contains_text("héllo wörld", "ö"));
}

#[test]
fn classify_store_errors() {
    let dup = "error returned from database: duplicate key value violates unique constraint \"users_email_key\"";
    assert_eq!(classify_store_error(false, false, dup), StoreFailure::ConstraintViolation);
    assert_eq!(classify_store_error(true, false, "no rows returned"), StoreFailure::NotFound);
    assert_eq!(classify_store_error(false, true, "pool timed out"), StoreFailure::Unavailable);
    assert_eq!(classify_store_error(false, false, "syntax error"), StoreFailure::Other);
    assert_eq!(classify_store_error(true, false, dup), StoreFailure::NotFound);
}

#[test]
fn outcome_mapping_for_create() {
    let r = create_user_response(Ok(sample_user(7)));
    assert_eq!(r.status, 201);
    assert_eq!(created(&r).id, 7);
    let r = create_user_response(Err(StoreFailure::ConstraintViolation));
    assert_eq!(r.status, 500);
    assert_eq!(error_of(&r).message, "email already exists");
    for f in [StoreFailure::NotFound, StoreFailure::Unavailable, StoreFailure::Other] {
        let r = create_user_response(Err(f));
        assert_eq!(r.status, 500);
        assert_eq!(error_of(&r).message, "internal server error");
    }
}

#[test]
fn outcome_mapping_for_fetch_list_delete() {
    let r = get_user_response(Ok(sample_user(3)));
    assert_eq!(r.status, 200);
    assert_eq!(created(&r).name, "Ada");
    let r = get_user_response(Err(StoreFailure::NotFound));
    assert_eq!(r.status, 500);
    assert_eq!(error_of(&r).message, "internal server error");
    let r = get_users_response(Ok(vec![sample_user(1), sample_user(2)]));
    assert_eq!(r.status, 200);
    assert_eq!(listed(&r).len(), 2);
    let r = get_users_response(Err(StoreFailure::Unavailable));
    assert_eq!(r.status, 500);
    assert_eq!(delete_user_response(Ok(())).status, 204);
    let r = delete_user_response(Err(StoreFailure::Other));
    assert_eq!(r.status, 500);
    assert_eq!(error_of(&r).code, 500);
}

#[test]
fn invalid_create_response_is_bad_request() {
    let r = invalid_create_response();
    assert_eq!(r.status, 400);
    assert_eq!(error_of(&r).message, "invalid request body");
}

#[test]
fn schema_validity() {
    assert!(body("a", "b").is_valid());
    assert!(!body("", "b").is_valid());
    assert!(!body("a", "").is_valid());
}

#[test]
fn user_copy_keeps_fields() {
    let u = sample_user(42);
    let c = u.copy();
    assert_eq!(c.id, 42);
    assert_eq!(c.name, u.name);
    assert_eq!(c.email, u.email);
    assert_eq!(c.created_at, u.created_at);
    assert_eq!(c.updated_at, None);
}
