use kv_lambda::{authorize, dispatch, fetched, stored, Action, Body, DispatchResult, Method, Request};
use std::collections::HashMap;

const SECRET: &str = "s3cret";

fn request(method: Method, path: Option<(&str, &str)>, auth: Option<&str>, body: Body) -> Request {
    Request {
        method,
        table: path.map(|p| p.0.to_string()),
        key: path.map(|p| p.1.to_string()),
        authorization: auth.map(|a| a.as_bytes().to_vec()),
        body,
    }
}

/// Runs one request against an in-memory store; `fail` makes every store call fail.
fn handle(store: &mut HashMap<(String, String), String>, r: Request, fail: bool) -> (u16, Option<String>) {
    let outcome = match dispatch(r, &SECRET.as_bytes().to_vec()) {
        Action::Reply(d) => d,
        Action::Fetch { table, key } => {
            let res = if fail { Err(()) } else { Ok(store.get(&(table, key)).map(|v| Some(v.clone()))) };
            fetched(res)
        }
        Action::Put { table, key, value } => {
            if fail {
                stored(Err(()))
            } else {
                store.insert((table, key), value);
                stored(Ok(()))
            }
        }
    };
    let reply = outcome.into_response();
    (reply.status, reply.body)
}

fn token() -> String {
    format!("Token: {}", SECRET)
}

#[test]
fn get_unwritten_is_not_found() {
    let mut store = HashMap::new();
    let r = request(Method::Get, Some(("users", "alice")), None, Body::Empty);
    assert_eq!(handle(&mut store, r, false), (404, None));
}

#[test]
fn post_then_get_round_trip() {
    let mut store = HashMap::new();
    let t = token();
    let post = request(Method::Post, Some(("users", "alice")), Some(&t), Body::Text("hello".to_string()));
    assert_eq!(handle(&mut store, post, false), (204, None));
    let get = request(Method::Get, Some(("users", "alice")), None, Body::Empty);
    assert_eq!(handle(&mut store, get, false), (200, Some("hello".to_string())));
}

#[test]
fn post_with_wrong_token_is_unauthorized() {
    let mut store = HashMap::new();
    let post = request(Method::Post, Some(("users", "alice")), Some("Token: wrong"), Body::Text("hello".to_string()));
    assert_eq!(handle(&mut store, post, false), (401, None));
    assert!(store.is_empty());
}

#[test]
fn delete_is_not_allowed() {
    let mut store = HashMap::new();
    let r = request(Method::Other, Some(("users", "alice")), None, Body::Empty);
    assert_eq!(handle(&mut store, r, false), (405, None));
}

#[test]
fn failing_store_gives_server_error() {
    let mut store = HashMap::new();
    let r = request(Method::Get, Some(("users", "alice")), None, Body::Empty);
    assert_eq!(handle(&mut store, r, true), (500, None));
    let t = token();
    let post = request(Method::Post, Some(("users", "alice")), Some(&t), Body::Text("x".to_string()));
    assert_eq!(handle(&mut store, post, true), (500, None));
}

#[test]
fn get_without_key_is_unknown_path() {
    let mut store = HashMap::new();
    let r = Request { method: Method::Get, table: Some("users".to_string()), key: None, authorization: None, body: Body::Empty };
    assert_eq!(handle(&mut store, r, false), (404, None));
}

#[test]
fn post_without_path_is_unknown_path() {
    let mut store = HashMap::new();
    let t = token();
    let r = request(Method::Post, None, Some(&t), Body::Text("v".to_string()));
    assert_eq!(handle(&mut store, r, false), (404, None));
}

#[test]
fn post_unauthorized_before_path_check() {
    let mut store = HashMap::new();
    let r = request(Method::Post, None, None, Body::Text("v".to_string()));
    assert_eq!(handle(&mut store, r, false), (401, None));
}

#[test]
fn post_binary_body_is_invalid_and_writes_nothing() {
    let mut store = HashMap::new();
    let t = token();
    let r = request(Method::Post, Some(("t", "k")), Some(&t), Body::Binary(vec![0, 1, 2]));
    assert_eq!(handle(&mut store, r, false), (400, None));
    let r = request(Method::Post, Some(("t", "k")), Some(&t), Body::Empty);
    assert_eq!(handle(&mut store, r, false), (400, None));
    assert!(store.is_empty());
}

#[test]
fn item_without_text_value_reads_as_empty() {
    match fetched(Ok(Some(None))) {
        DispatchResult::Get(Some(v)) => assert_eq!(v, ""),
        _ => panic!("expected an empty value"),
    }
    assert!(matches!(fetched(Ok(None)), DispatchResult::Get(None)));
    assert!(matches!(fetched(Err(())), DispatchResult::DynamoErr));
}

#[test]
fn authorization_rules() {
    let s = SECRET.as_bytes().to_vec();
    assert!(authorize(&Some(token().into_bytes()), &s));
    assert!(!authorize(&None, &s));
    assert!(!authorize(&Some(b"Bearer s3cret".to_vec()), &s));
    assert!(!authorize(&Some(b"Token: s3cre".to_vec()), &s));
    assert!(!authorize(&Some(b"Token: s3cret\x01".to_vec()), &s));
    assert!(!authorize(&Some(b"token: s3cret".to_vec()), &s));
    // an empty secret needs an empty suffix
    assert!(authorize(&Some(b"Token: ".to_vec()), &Vec::new()));
    assert!(!authorize(&Some(b"Token: x".to_vec()), &Vec::new()));
}

#[test]
fn every_outcome_renders() {
    let cases = vec![
        (DispatchResult::IllegalMethod, 405),
        (DispatchResult::UnknownPath, 404),
        (DispatchResult::DynamoErr, 500),
        (DispatchResult::Get(None), 404),
        (DispatchResult::Unauthorized, 401),
        (DispatchResult::InvalidBody, 400),
        (DispatchResult::Stored, 204),
    ];
    for (d, status) in cases {
        let r = d.into_response();
        assert_eq!(r.status, status);
        assert_eq!(r.body, None);
    }
    let r = DispatchResult::Get(Some("v".to_string())).into_response();
    assert_eq!((r.status, r.body), (200, Some("v".to_string())));
}
