use greet_service::service::Method;
use greet_service::service::Request;
use greet_service::service::Response;
use greet_service::service::greet_message;
use greet_service::service::handle_manual;
use greet_service::service::handle_request;
use greet_service::service::index_response;

fn get(path: &str) -> Response {
    handle_request(&Request {
        method: Method::Get,
        path: path.to_string(),
        body: Vec::new(),
    })
}

fn post(path: &str, body: &str) -> Response {
    handle_request(&Request {
        method: Method::Post,
        path: path.to_string(),
        body: body.as_bytes().to_vec(),
    })
}

#[test]
fn test_index() {
    let res = get("/");
    assert_eq!(res.status, 200);
    assert_eq!(res.body, "Hello world!");
}

#[test]
fn test_manual() {
    let res = post("/manual", r#"{"name":"anonymous"}"#);
    assert_eq!(res.status, 200);
    assert_eq!(res.body, r##"{"message":"Hello anonymous!"}"##);
}

#[test]
fn manual_empty_name() {
    let res = post("/manual", r#"{"name":""}"#);
    assert_eq!(res.status, 200);
    assert_eq!(res.body, r#"{"message":"Hello !"}"#);
}

#[test]
fn manual_missing_name() {
    let res = post("/manual", "{}");
    assert_eq!(res.status, 400);
}

#[test]
fn manual_not_json() {
    let res = post("/manual", "not json");
    assert_eq!(res.status, 400);
}

#[test]
fn manual_name_not_a_string() {
    let res = post("/manual", r#"{"name":42}"#);
    assert_eq!(res.status, 400);
}

#[test]
fn manual_body_not_an_object() {
    let res = post("/manual", r#"["name"]"#);
    assert_eq!(res.status, 400);
}

#[test]
fn manual_name_needs_escaping() {
    let res = post("/manual", r#"{"name":"a\"b\\c"}"#);
    assert_eq!(res.status, 200);
    assert_eq!(res.body, r#"{"message":"Hello a\"b\\c!"}"#);
}

#[test]
fn manual_extra_fields_are_ignored() {
    let res = post("/manual", r#"{"greeting":true,"name":"pat"}"#);
    assert_eq!(res.status, 200);
    assert_eq!(res.body, r#"{"message":"Hello pat!"}"#);
}

#[test]
fn unknown_paths_are_not_found() {
    assert_eq!(get("/manual").status, 404);
    assert_eq!(get("/nope").status, 404);
    assert_eq!(post("/", r#"{"name":"x"}"#).status, 404);
}

#[test]
fn identical_requests_get_identical_responses() {
    let first = post("/manual", r#"{"name":"anonymous"}"#);
    let second = post("/manual", r#"{"name":"anonymous"}"#);
    assert_eq!(first.status, second.status);
    assert_eq!(first.body, second.body);
    let a = get("/");
    let b = get("/");
    assert_eq!(a.status, b.status);
    assert_eq!(a.body, b.body);
}

#[test]
fn greeting_is_composed_around_the_name() {
    assert_eq!(greet_message("anonymous"), "Hello anonymous!");
    assert_eq!(greet_message(""), "Hello !");
}

#[test]
fn index_body_is_fixed() {
    let res = index_response();
    assert_eq!(res.status, 200);
    assert_eq!(res.body, "Hello world!");
}

#[test]
fn manual_handler_decodes_the_body() {
    let ok = handle_manual(br#"{"name":"anonymous"}"#);
    assert_eq!(ok.status, 200);
    assert_eq!(ok.body, r#"{"message":"Hello anonymous!"}"#);
    let rejected = handle_manual(b"{");
    assert_eq!(rejected.status, 400);
}
