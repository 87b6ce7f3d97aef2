use request_router::api::schema::{
    customer_from_fields, parse_customer_details, CustomerDetails, ParseError,
};
use request_router::{process_handler, str_eq, HttpMethod, HttpResponse};

const PUBLISH_DATA: &str = r#"
        {
            "email":"test@test.com",
            "name": "john",
            "surname": "doe",
            "mobile": "12345678",
            "id": "987654321"
        }
        "#;

#[test]
fn test_process_handler_isalive_pass() {
    let res: HttpResponse = process_handler(HttpMethod::Get, "/isalive", "".as_bytes());
    assert_eq!(res.status, 200);
    assert_eq!(res.body, "ok");
}

#[test]
fn test_process_handler_publish_pass() {
    let res = process_handler(HttpMethod::Post, "/publish", PUBLISH_DATA.as_bytes());
    assert_eq!(res.status, 200);
    assert_eq!(res.body, "well hello john");
}

#[test]
fn test_process_handler_error_pass() {
    let res = process_handler(HttpMethod::Put, "/error", "error".as_bytes());
    assert_eq!(res.status, 501);
    assert_eq!(res.body, "error not implemented");
}

#[test]
fn test_publish_response_has_json_content_type() {
    let res = process_handler(HttpMethod::Post, "/publish", PUBLISH_DATA.as_bytes());
    assert_eq!(res.content_type, Some("application/json".to_string()));
}

#[test]
fn test_publish_other_name() {
    let body = r#"{"name":"alice","surname":"smith","id":"1","email":"a@b.c","mobile":"07"}"#;
    let res = process_handler(HttpMethod::Post, "/publish", body.as_bytes());
    assert_eq!(res.status, 200);
    assert_eq!(res.body, "well hello alice");
}

#[test]
fn test_publish_empty_object_is_bad_request() {
    let res = process_handler(HttpMethod::Post, "/publish", "{}".as_bytes());
    assert_eq!(res.status, 400);
    assert_eq!(res.body, "error bad request");
    assert_eq!(res.content_type, None);
}

#[test]
fn test_publish_non_json_body_is_bad_request() {
    let res = process_handler(HttpMethod::Post, "/publish", "this is not json".as_bytes());
    assert_eq!(res.status, 400);
    assert_eq!(res.body, "error bad request");
}

#[test]
fn test_publish_missing_name_is_bad_request() {
    let body = r#"{"surname":"doe","id":"1","email":"a@b.c","mobile":"07"}"#;
    let res = process_handler(HttpMethod::Post, "/publish", body.as_bytes());
    assert_eq!(res.status, 400);
}

#[test]
fn test_isalive_ignores_body() {
    let res = process_handler(HttpMethod::Get, "/isalive", "anything at all".as_bytes());
    assert_eq!(res.status, 200);
    assert_eq!(res.body, "ok");
    assert_eq!(res.content_type, Some("application/json".to_string()));
}

#[test]
fn test_get_publish_not_implemented() {
    let res = process_handler(HttpMethod::Get, "/publish", "".as_bytes());
    assert_eq!(res.status, 501);
    assert_eq!(res.body, "error not implemented");
    assert_eq!(res.content_type, None);
}

#[test]
fn test_post_isalive_not_implemented() {
    let res = process_handler(HttpMethod::Post, "/isalive", "".as_bytes());
    assert_eq!(res.status, 501);
    assert_eq!(res.body, "error not implemented");
}

#[test]
fn test_delete_root_not_implemented() {
    let res = process_handler(HttpMethod::Delete, "/", "".as_bytes());
    assert_eq!(res.status, 501);
    assert_eq!(res.body, "error not implemented");
}

#[test]
fn test_parse_customer_details_fields() {
    let c: CustomerDetails = parse_customer_details(PUBLISH_DATA.as_bytes()).unwrap();
    assert_eq!(c.name, "john");
    assert_eq!(c.surname, "doe");
    assert_eq!(c.id, "987654321");
    assert_eq!(c.email, "test@test.com");
    assert_eq!(c.mobile, "12345678");
}

#[test]
fn test_parse_customer_details_missing_field() {
    let body = r#"{"name":"john","surname":"doe","id":"1","email":"a@b.c"}"#;
    assert!(matches!(parse_customer_details(body.as_bytes()), Err(ParseError::MissingField)));
}

#[test]
fn test_parse_customer_details_invalid_json() {
    assert!(matches!(parse_customer_details("not json".as_bytes()), Err(ParseError::InvalidJson)));
    assert!(matches!(parse_customer_details("[1,2]".as_bytes()), Err(ParseError::InvalidJson)));
}

#[test]
fn test_parse_customer_details_non_string_field() {
    let body = r#"{"name":42,"surname":"doe","id":"1","email":"a@b.c","mobile":"07"}"#;
    assert!(matches!(parse_customer_details(body.as_bytes()), Err(ParseError::WrongType)));
}

#[test]
fn test_publish_tolerates_extra_fields() {
    let body = r#"{"name":"john","surname":"doe","id":"1","email":"a@b.c","mobile":"07",
        "x":42,"nested":{"a":[1,2]},"flag":true,"nothing":null}"#;
    let res = process_handler(HttpMethod::Post, "/publish", body.as_bytes());
    assert_eq!(res.status, 200);
    assert_eq!(res.body, "well hello john");
}

#[test]
fn test_publish_duplicate_key_keeps_last() {
    let body = r#"{"name":"john","name":"jane","surname":"doe","id":"1","email":"a@b.c","mobile":"07"}"#;
    let res = process_handler(HttpMethod::Post, "/publish", body.as_bytes());
    assert_eq!(res.status, 200);
    assert_eq!(res.body, "well hello jane");
}

#[test]
fn test_customer_from_fields_empty_is_missing_field() {
    let entries: Vec<(String, Option<String>)> = Vec::new();
    assert!(matches!(customer_from_fields(&entries), Err(ParseError::MissingField)));
}

#[test]
fn test_customer_from_fields_non_string_is_wrong_type() {
    let entries: Vec<(String, Option<String>)> = vec![
        ("name".to_string(), None),
        ("surname".to_string(), Some("doe".to_string())),
        ("id".to_string(), Some("1".to_string())),
        ("email".to_string(), Some("a@b.c".to_string())),
        ("mobile".to_string(), Some("07".to_string())),
    ];
    assert!(matches!(customer_from_fields(&entries), Err(ParseError::WrongType)));
}

#[test]
fn test_customer_from_fields_complete() {
    let entries: Vec<(String, Option<String>)> = vec![
        ("name".to_string(), Some("john".to_string())),
        ("surname".to_string(), Some("doe".to_string())),
        ("id".to_string(), Some("1".to_string())),
        ("email".to_string(), Some("a@b.c".to_string())),
        ("mobile".to_string(), Some("07".to_string())),
        ("extra".to_string(), None),
    ];
    let c = customer_from_fields(&entries).unwrap();
    assert_eq!(c.name, "john");
    assert_eq!(c.surname, "doe");
}

#[test]
fn test_unregistered_method_not_implemented() {
    let res = process_handler(HttpMethod::Other, "/publish", PUBLISH_DATA.as_bytes());
    assert_eq!(res.status, 501);
    assert_eq!(res.body, "error not implemented");
}

#[test]
fn test_str_eq() {
    assert!(str_eq("abc", "abc"));
    assert!(!str_eq("abc", "abd"));
    assert!(!str_eq("abc", "ab"));
    assert!(str_eq("", ""));
}
