use my_vercel_api::config::Environment;
use my_vercel_api::error::AppError;
use my_vercel_api::http::cors::add_cors;
use my_vercel_api::http::reply::{reply_error, reply_json};
use my_vercel_api::http::request::{invalid_json, screen};
use my_vercel_api::http::response::{
    answered, error_response, json_response, tagged, tagged_with_detail, tagged_with_issues,
    text_response, Body, Header, HeaderName, HttpResponse, JsonField, JsonValue, Status,
};

fn field(key: &str, value: &str) -> JsonField {
    JsonField { key: key.to_string(), value: JsonValue::Text(value.to_string()) }
}

fn header(name: HeaderName, value: &str) -> Header {
    Header { name, value: value.to_string() }
}

fn cors_headers() -> Vec<Header> {
    vec![
        header(HeaderName::AccessControlAllowOrigin, "*"),
        header(HeaderName::AccessControlAllowMethods, "POST,OPTIONS"),
        header(HeaderName::AccessControlAllowHeaders, "Content-Type,x-api-key"),
        header(HeaderName::AccessControlMaxAge, "86400"),
    ]
}

fn json_with_cors(status: Status, body: &str) -> HttpResponse {
    let mut headers = vec![header(HeaderName::ContentType, "application/json")];
    headers.extend(cors_headers());
    HttpResponse { status, headers, body: Body::Text(body.to_string()) }
}

fn secret_env() -> Environment {
    Environment { x_api_key: Some("secret".to_string()), ..Environment::default() }
}

#[test]
fn status_codes_are_the_documented_numbers() {
    assert_eq!(Status::Success.code(), 200);
    assert_eq!(Status::NoContent.code(), 204);
    assert_eq!(Status::BadRequest.code(), 400);
    assert_eq!(Status::Unauthorized.code(), 401);
    assert_eq!(Status::MethodNotAllowed.code(), 405);
    assert_eq!(Status::InternalServerError.code(), 500);
    assert_eq!(Status::BadGateway.code(), 502);
}

#[test]
fn header_names_are_written_in_full() {
    assert_eq!(HeaderName::Allow.as_str(), "Allow");
    assert_eq!(HeaderName::ContentType.as_str(), "Content-Type");
    assert_eq!(HeaderName::AccessControlAllowOrigin.as_str(), "Access-Control-Allow-Origin");
    assert_eq!(HeaderName::AccessControlAllowMethods.as_str(), "Access-Control-Allow-Methods");
    assert_eq!(HeaderName::AccessControlAllowHeaders.as_str(), "Access-Control-Allow-Headers");
    assert_eq!(HeaderName::AccessControlMaxAge.as_str(), "Access-Control-Max-Age");
}

#[test]
fn field_builders_hold_key_and_value() {
    assert_eq!(JsonField::text("answer", "42".to_string()), field("answer", "42"));
    assert_eq!(
        JsonField::list("issues", vec!["a".to_string(), "b".to_string()]),
        JsonField {
            key: "issues".to_string(),
            value: JsonValue::List(vec!["a".to_string(), "b".to_string()]),
        }
    );
    assert_eq!(tagged("Empty body"), vec![field("error", "Empty body")]);
    assert_eq!(
        tagged_with_detail("Invalid JSON", "eof".to_string()),
        vec![field("error", "Invalid JSON"), field("detail", "eof")]
    );
    assert_eq!(
        tagged_with_issues("Validation failed", vec!["x".to_string()]),
        vec![
            field("error", "Validation failed"),
            JsonField { key: "issues".to_string(), value: JsonValue::List(vec!["x".to_string()]) },
        ]
    );
    assert_eq!(answered("yes".to_string()), vec![field("answer", "yes")]);
}

#[test]
fn validation_error_maps_to_bad_request() {
    let (status, fields) = error_response(&AppError::Validation("prompts.user is empty".to_string()));
    assert_eq!(status, Status::BadRequest);
    assert_eq!(fields, vec![field("error", "Validation"), field("detail", "prompts.user is empty")]);
}

#[test]
fn unauthorized_error_maps_to_401_without_detail() {
    let (status, fields) = error_response(&AppError::Unauthorized);
    assert_eq!(status, Status::Unauthorized);
    assert_eq!(fields, vec![field("error", "Unauthorized")]);
}

#[test]
fn external_error_maps_to_bad_gateway() {
    let (status, fields) = error_response(&AppError::External("timeout".to_string()));
    assert_eq!(status, Status::BadGateway);
    assert_eq!(fields, vec![field("error", "Upstream"), field("detail", "timeout")]);
}

#[test]
fn other_error_maps_to_internal_server_error() {
    let (status, fields) = error_response(&AppError::Other("boom".to_string()));
    assert_eq!(status, Status::InternalServerError);
    assert_eq!(fields, vec![field("error", "Internal"), field("detail", "boom")]);
}

#[test]
fn text_response_sets_only_the_content_type() {
    assert_eq!(
        text_response(Status::Success, "{}".to_string()),
        HttpResponse {
            status: Status::Success,
            headers: vec![header(HeaderName::ContentType, "application/json")],
            body: Body::Text("{}".to_string()),
        }
    );
}

#[test]
fn json_response_writes_the_fields_as_json() {
    assert_eq!(
        json_response(Status::Success, vec![field("answer", "hi")]),
        HttpResponse {
            status: Status::Success,
            headers: vec![header(HeaderName::ContentType, "application/json")],
            body: Body::Text("{\"answer\":\"hi\"}".to_string()),
        }
    );
}

#[test]
fn json_response_writes_an_empty_object_for_no_fields() {
    assert_eq!(json_response(Status::Success, Vec::new()).body, Body::Text("{}".to_string()));
}

#[test]
fn json_response_escapes_text() {
    let reply = json_response(Status::Success, vec![field("answer", "say \"hi\"\n\ttab \\ é")]);
    assert_eq!(
        reply.body,
        Body::Text("{\"answer\":\"say \\\"hi\\\"\\n\\ttab \\\\ é\"}".to_string())
    );
}

#[test]
fn json_response_writes_lists_of_texts() {
    let fields = tagged_with_issues("Validation failed", vec!["a".to_string(), "b".to_string()]);
    assert_eq!(
        json_response(Status::BadRequest, fields).body,
        Body::Text("{\"error\":\"Validation failed\",\"issues\":[\"a\",\"b\"]}".to_string())
    );
    let none = tagged_with_issues("Validation failed", Vec::new());
    assert_eq!(
        json_response(Status::BadRequest, none).body,
        Body::Text("{\"error\":\"Validation failed\",\"issues\":[]}".to_string())
    );
}

#[test]
fn json_response_keeps_the_last_value_of_a_repeated_key() {
    let fields = vec![field("error", "first"), field("error", "second")];
    assert_eq!(
        json_response(Status::BadRequest, fields).body,
        Body::Text("{\"error\":\"second\"}".to_string())
    );
}

#[test]
fn json_response_body_parses_back_to_the_fields() {
    let fields = tagged_with_detail("Upstream", "line one\nline \"two\"".to_string());
    let Body::Text(body) = json_response(Status::BadGateway, fields).body else {
        panic!("a JSON reply has a body");
    };
    let parsed: serde_json::Value = serde_json::from_str(&body).unwrap();
    assert_eq!(parsed["error"], serde_json::Value::from("Upstream"));
    assert_eq!(parsed["detail"], serde_json::Value::from("line one\nline \"two\""));
    assert_eq!(parsed.as_object().map(|object| object.len()), Some(2));
}

#[test]
fn add_cors_sets_the_four_headers() {
    let plain = HttpResponse { status: Status::NoContent, headers: Vec::new(), body: Body::Empty };
    assert_eq!(
        add_cors(plain),
        HttpResponse { status: Status::NoContent, headers: cors_headers(), body: Body::Empty }
    );
}

#[test]
fn add_cors_keeps_status_body_and_other_headers() {
    let reply = add_cors(json_response(Status::BadGateway, vec![field("error", "Upstream")]));
    assert_eq!(reply, json_with_cors(Status::BadGateway, "{\"error\":\"Upstream\"}"));
}

#[test]
fn add_cors_twice_is_the_same_as_once() {
    let once = add_cors(json_response(Status::Success, answered("x".to_string())));
    assert_eq!(add_cors(once.clone()), once);
}

#[test]
fn add_cors_overrides_earlier_values() {
    let stale = HttpResponse {
        status: Status::Success,
        headers: vec![
            header(HeaderName::AccessControlAllowOrigin, "https://old.example"),
            header(HeaderName::Allow, "POST"),
        ],
        body: Body::Empty,
    };
    let reply = add_cors(stale);
    assert_eq!(reply.header(HeaderName::AccessControlAllowOrigin).map(String::as_str), Some("*"));
    assert_eq!(reply.header(HeaderName::Allow).map(String::as_str), Some("POST"));
    assert_eq!(reply.headers.len(), 5);
}

#[test]
fn set_header_replaces_and_header_reads_back() {
    let mut reply = json_response(Status::Success, Vec::new());
    assert_eq!(reply.header(HeaderName::Allow), None);
    reply.set_header(HeaderName::Allow, "POST".to_string());
    reply.set_header(HeaderName::Allow, "POST,OPTIONS".to_string());
    assert_eq!(reply.header(HeaderName::Allow).map(String::as_str), Some("POST,OPTIONS"));
    assert_eq!(
        reply.header(HeaderName::ContentType).map(String::as_str),
        Some("application/json")
    );
    assert_eq!(reply.headers.len(), 2);
}

#[test]
fn header_reads_the_last_entry_of_a_name() {
    let reply = HttpResponse {
        status: Status::Success,
        headers: vec![header(HeaderName::Allow, "GET"), header(HeaderName::Allow, "POST")],
        body: Body::Empty,
    };
    assert_eq!(reply.header(HeaderName::Allow).map(String::as_str), Some("POST"));
}

#[test]
fn reply_json_is_json_with_cors() {
    assert_eq!(
        reply_json(Status::BadRequest, tagged("Empty body")),
        json_with_cors(Status::BadRequest, "{\"error\":\"Empty body\"}")
    );
}

#[test]
fn reply_error_follows_the_error_mapping() {
    assert_eq!(
        reply_error(&AppError::External("down".to_string())),
        json_with_cors(Status::BadGateway, "{\"detail\":\"down\",\"error\":\"Upstream\"}")
    );
    assert_eq!(
        reply_error(&AppError::Unauthorized),
        json_with_cors(Status::Unauthorized, "{\"error\":\"Unauthorized\"}")
    );
}

#[test]
fn preflight_is_answered_with_no_content() {
    let reply = screen("OPTIONS", &secret_env(), &None, b"");
    assert_eq!(
        reply,
        Some(HttpResponse { status: Status::NoContent, headers: cors_headers(), body: Body::Empty })
    );
}

#[test]
fn other_methods_are_not_allowed() {
    let reply = screen("GET", &Environment::default(), &None, b"{}").unwrap();
    assert_eq!(reply.status, Status::MethodNotAllowed);
    assert_eq!(reply.status.code(), 405);
    assert_eq!(reply.header(HeaderName::Allow).map(String::as_str), Some("POST,OPTIONS"));
    assert_eq!(
        reply.body,
        Body::Text(
            "{\"error\":\"Use POST with JSON body { 'prompts': { 'system': '...', 'user': '...' } }\"}"
                .to_string()
        )
    );
    let mut headers = vec![
        header(HeaderName::ContentType, "application/json"),
        header(HeaderName::Allow, "POST,OPTIONS"),
    ];
    headers.extend(cors_headers());
    assert_eq!(reply.headers, headers);
}

#[test]
fn method_names_are_case_sensitive() {
    let reply = screen("post", &Environment::default(), &None, b"{}").unwrap();
    assert_eq!(reply.status, Status::MethodNotAllowed);
}

#[test]
fn without_configured_key_any_header_is_accepted() {
    let env = Environment::default();
    assert_eq!(screen("POST", &env, &None, b"{}"), None);
    assert_eq!(screen("POST", &env, &Some("wrong".to_string()), b"{}"), None);
    assert_eq!(screen("POST", &env, &Some(String::new()), b"{}"), None);
}

#[test]
fn wrong_key_is_unauthorized() {
    let reply = screen("POST", &secret_env(), &Some("wrong".to_string()), b"{}");
    assert_eq!(
        reply,
        Some(json_with_cors(Status::Unauthorized, "{\"error\":\"Unauthorized\"}"))
    );
    assert_eq!(reply.unwrap().status.code(), 401);
}

#[test]
fn missing_key_is_unauthorized() {
    let reply = screen("POST", &secret_env(), &None, b"{}").unwrap();
    assert_eq!(reply.status, Status::Unauthorized);
}

#[test]
fn key_must_match_exactly() {
    let reply = screen("POST", &secret_env(), &Some("secret ".to_string()), b"{}").unwrap();
    assert_eq!(reply.status, Status::Unauthorized);
    let reply = screen("POST", &secret_env(), &Some("Secret".to_string()), b"{}").unwrap();
    assert_eq!(reply.status, Status::Unauthorized);
}

#[test]
fn right_key_is_let_in() {
    assert_eq!(screen("POST", &secret_env(), &Some("secret".to_string()), b"{}"), None);
}

#[test]
fn empty_body_is_a_bad_request() {
    let reply = screen("POST", &Environment::default(), &None, b"");
    assert_eq!(
        reply,
        Some(json_with_cors(Status::BadRequest, "{\"error\":\"Empty body\"}"))
    );
    assert_eq!(reply.unwrap().status.code(), 400);
    let with_key = screen("POST", &secret_env(), &Some("secret".to_string()), b"").unwrap();
    assert_eq!(with_key.body, Body::Text("{\"error\":\"Empty body\"}".to_string()));
}

#[test]
fn key_is_checked_before_the_body() {
    let reply = screen("POST", &secret_env(), &Some("wrong".to_string()), b"").unwrap();
    assert_eq!(reply.status, Status::Unauthorized);
}

#[test]
fn method_is_checked_before_the_key() {
    let reply = screen("DELETE", &secret_env(), &Some("wrong".to_string()), b"").unwrap();
    assert_eq!(reply.status, Status::MethodNotAllowed);
}

#[test]
fn invalid_json_carries_the_parser_text() {
    assert_eq!(
        invalid_json("expected value at line 1 column 1".to_string()),
        json_with_cors(
            Status::BadRequest,
            "{\"detail\":\"expected value at line 1 column 1\",\"error\":\"Invalid JSON\"}"
        )
    );
}
