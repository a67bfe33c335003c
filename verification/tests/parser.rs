use creo_bench::script::lua::{LuaEntry, LuaKey, LuaKind, LuaTable, LuaValue};
use creo_bench::script::method::Error as MethodError;
use creo_bench::script::parser::{parse_http_spec, parse_spec, parse_static_spec, Error, Field};
use creo_bench::script::spec::{RequestSpec, SpecType};
use creo_bench::script::HttpMethod;
use serde_json::Value;

type V = LuaValue<u32, Value>;

fn text(s: &str) -> V {
    LuaValue::Str(Ok(s.to_string()))
}

fn entry(key: &str, value: V) -> LuaEntry<u32, Value> {
    LuaEntry { key: LuaKey::Name(key.to_string()), value, json: Err("no JSON form".to_string()) }
}

fn entry_json(key: &str, value: V, json: Value) -> LuaEntry<u32, Value> {
    LuaEntry { key: LuaKey::Name(key.to_string()), value, json: Ok(json) }
}

fn table(entries: Vec<LuaEntry<u32, Value>>) -> LuaTable<u32, Value> {
    LuaTable { entries }
}

fn required(method: &str) -> Vec<LuaEntry<u32, Value>> {
    vec![entry("method", text(method)), entry("service", text("auth")), entry("path", text("/login"))]
}

fn with(mut entries: Vec<LuaEntry<u32, Value>>, extra: LuaEntry<u32, Value>) -> LuaTable<u32, Value> {
    entries.push(extra);
    table(entries)
}

fn object(pairs: Vec<(&str, Value)>) -> Value {
    let mut map = serde_json::Map::new();
    for (k, v) in pairs {
        map.insert(k.to_string(), v);
    }
    Value::Object(map)
}

fn headers_table() -> V {
    LuaValue::Table(table(vec![
        entry("Accept", text("application/json")),
        entry("X-Trace-Id", text("abc-123")),
        entry("Request-Id", LuaValue::Integer(123456)),
        entry("Refresh", LuaValue::Boolean(true)),
    ]))
}

fn query_table() -> V {
    LuaValue::Table(table(vec![
        entry("n", LuaValue::Integer(3)),
        entry("verbose", LuaValue::Boolean(true)),
        entry("name", text("user-123")),
    ]))
}

fn nested_body() -> (V, Value) {
    let roles = LuaValue::Table(table(vec![
        LuaEntry { key: LuaKey::Index(1), value: text("admin"), json: Ok(Value::String("admin".into())) },
        LuaEntry { key: LuaKey::Index(2), value: text("user"), json: Ok(Value::String("user".into())) },
    ]));
    let user = LuaValue::Table(table(vec![entry("name", text("demo")), entry("roles", roles)]));
    let value = LuaValue::Table(table(vec![entry("user", user)]));
    let json = object(vec![(
        "user",
        object(vec![
            ("name", Value::String("demo".into())),
            ("roles", Value::Array(vec![Value::String("admin".into()), Value::String("user".into())])),
        ]),
    )]);
    (value, json)
}

fn sorted(mut pairs: Vec<(String, String)>) -> Vec<(String, String)> {
    pairs.sort_by(|a, b| a.0.cmp(&b.0));
    pairs
}

fn owned(pairs: &[(&str, &str)]) -> Vec<(String, String)> {
    pairs.iter().map(|(a, b)| (a.to_string(), b.to_string())).collect()
}

#[test]
fn parses_valid_http_spec_with_required_fields() {
    let spec = parse_http_spec(table(required("GET"))).expect("valid spec should parse");
    assert_eq!(spec.method, HttpMethod::Get);
    assert_eq!(spec.service, "auth");
    assert_eq!(spec.path, "/login");
    assert!(spec.headers.is_empty());
    assert!(spec.query.is_empty());
    assert!(spec.body.is_none());
    assert!(spec.extract.is_none());
}

#[test]
fn parses_valid_http_method_case_insensitively() {
    for method in ["post", "POST", "PosT"] {
        let spec = parse_http_spec(table(required(method))).expect("method should parse");
        assert_eq!(spec.method, HttpMethod::Post);
    }
}

#[test]
fn method_field_is_required() {
    let t = table(vec![entry("service", text("auth")), entry("path", text("/login"))]);
    let err = parse_http_spec(t).expect_err("missing method should fail");
    assert!(matches!(err, Error::RequiredFieldMissing(Field::Method)));
}

#[test]
fn fails_on_unknown_method() {
    let err = parse_http_spec(table(required("BREW"))).expect_err("unknown method should fail");
    assert!(matches!(err, Error::InvalidHTTPSpec(MethodError::UnknownMethod(ref m)) if m == "BREW"));
}

#[test]
fn fails_on_non_string_method() {
    let t = table(vec![
        entry("method", LuaValue::Integer(42)),
        entry("service", text("auth")),
        entry("path", text("/login")),
    ]);
    let err = parse_http_spec(t).expect_err("integer method should fail");
    assert!(matches!(err, Error::FieldNotString { field: Field::Method, kind: LuaKind::Integer }));
}

#[test]
fn service_field_is_required() {
    let t = table(vec![entry("method", text("GET")), entry("path", text("/login"))]);
    let err = parse_http_spec(t).expect_err("missing service should fail");
    assert!(matches!(err, Error::RequiredFieldMissing(Field::Service)));
}

#[test]
fn fails_on_non_string_service() {
    let t = table(vec![
        entry("method", text("GET")),
        entry("service", LuaValue::Integer(7)),
        entry("path", text("/login")),
    ]);
    let err = parse_http_spec(t).expect_err("integer service should fail");
    assert!(matches!(err, Error::FieldNotString { field: Field::Service, .. }));
}

#[test]
fn path_field_is_required() {
    let t = table(vec![entry("method", text("GET")), entry("service", text("auth"))]);
    let err = parse_http_spec(t).expect_err("missing path should fail");
    assert!(matches!(err, Error::RequiredFieldMissing(Field::Path)));
}

#[test]
fn fails_on_non_string_path() {
    let t = table(vec![
        entry("method", text("GET")),
        entry("service", text("auth")),
        entry("path", LuaValue::Boolean(true)),
    ]);
    let err = parse_http_spec(t).expect_err("boolean path should fail");
    assert!(matches!(err, Error::FieldNotString { field: Field::Path, .. }));
}

#[test]
fn parses_valid_headers_table() {
    let t = with(required("get"), entry("headers", headers_table()));
    let spec = parse_http_spec(t).expect("valid spec should parse");
    assert_eq!(spec.headers.len(), 4);
    assert_eq!(
        sorted(spec.headers),
        owned(&[
            ("Accept", "application/json"),
            ("Refresh", "true"),
            ("Request-Id", "123456"),
            ("X-Trace-Id", "abc-123"),
        ])
    );
}

#[test]
fn parses_absent_and_nil_header_table() {
    for t in [table(required("GET")), with(required("GET"), entry("headers", LuaValue::Nil))] {
        let spec = parse_http_spec(t).expect("valid spec should parse");
        assert!(spec.headers.is_empty());
    }
}

#[test]
fn fails_on_invalid_headers() {
    let inner = LuaValue::Table(table(vec![entry("value", text("application/json"))]));
    let headers = LuaValue::Table(table(vec![entry("Accept", inner)]));
    let err = parse_http_spec(with(required("GET"), entry("headers", headers))).expect_err("table header should fail");
    assert!(matches!(
        err,
        Error::StringMapValueNotCoercible { field: Field::Headers, ref key, value: LuaValue::Table(_) } if key == "Accept"
    ));
}

#[test]
fn fails_on_non_table_headers() {
    let t = with(required("GET"), entry("headers", text("Accept: text/plain")));
    let err = parse_http_spec(t).expect_err("string headers should fail");
    assert!(matches!(err, Error::FieldNotTable { field: Field::Headers, kind: LuaKind::Str }));
}

#[test]
fn parses_valid_query_table() {
    let spec = parse_http_spec(with(required("GET"), entry("query", query_table()))).expect("valid spec should parse");
    assert_eq!(sorted(spec.query), owned(&[("n", "3"), ("name", "user-123"), ("verbose", "true")]));
}

#[test]
fn parses_absent_and_nil_query_table() {
    for t in [table(required("GET")), with(required("GET"), entry("query", LuaValue::Nil))] {
        let spec = parse_http_spec(t).expect("valid spec should parse");
        assert!(spec.query.is_empty());
    }
}

#[test]
fn fails_on_invalid_query() {
    let inner = LuaValue::Table(table(vec![entry("a", LuaValue::Integer(1))]));
    let query = LuaValue::Table(table(vec![entry("filter", inner)]));
    let err = parse_http_spec(with(required("GET"), entry("query", query))).expect_err("table value should fail");
    assert!(matches!(
        err,
        Error::StringMapValueNotCoercible { field: Field::Query, ref key, .. } if key == "filter"
    ));
}

#[test]
fn fails_on_non_table_query() {
    let err = parse_http_spec(with(required("GET"), entry("query", text("n=3")))).expect_err("string query should fail");
    assert!(matches!(err, Error::FieldNotTable { field: Field::Query, .. }));
}

#[test]
fn parses_valid_string_body() {
    let t = with(required("POST"), entry_json("body", text("raw text"), Value::String("raw text".into())));
    let spec = parse_http_spec(t).expect("valid spec should parse");
    assert_eq!(spec.body, Some(Value::String("raw text".to_string())));
}

#[test]
fn parses_valid_number_body() {
    let t = with(required("POST"), entry_json("body", LuaValue::Integer(42), Value::Number(42.into())));
    let spec = parse_http_spec(t).expect("valid spec should parse");
    assert_eq!(spec.body, Some(Value::Number(42.into())));
}

#[test]
fn parses_valid_boolean_body() {
    let t = with(required("POST"), entry_json("body", LuaValue::Boolean(true), Value::Bool(true)));
    let spec = parse_http_spec(t).expect("valid spec should parse");
    assert_eq!(spec.body, Some(Value::Bool(true)));
}

#[test]
fn parses_valid_object_body() {
    let body = LuaValue::Table(table(vec![entry("username", text("demo")), entry("password", text("secret"))]));
    let json = object(vec![("username", Value::String("demo".into())), ("password", Value::String("secret".into()))]);
    let spec = parse_http_spec(with(required("POST"), entry_json("body", body, json.clone()))).expect("valid spec should parse");
    assert_eq!(spec.body, Some(json));
}

#[test]
fn parses_nested_body() {
    let (body, json) = nested_body();
    let spec = parse_http_spec(with(required("POST"), entry_json("body", body, json.clone()))).expect("valid spec should parse");
    assert_eq!(spec.body, Some(json));
}

#[test]
fn body_field_is_not_required() {
    for t in [table(required("GET")), with(required("GET"), entry("body", LuaValue::Nil))] {
        let spec = parse_http_spec(t).expect("valid spec should parse");
        assert!(spec.body.is_none());
    }
}

#[test]
fn body_without_json_form_is_refused() {
    let t = with(required("POST"), entry("body", LuaValue::Function(3)));
    let err = parse_http_spec(t).expect_err("a function body has no JSON form");
    assert!(matches!(err, Error::BodyNotJson(ref m) if m == "no JSON form"));
}

#[test]
fn parses_valid_extract() {
    let spec = parse_http_spec(with(required("POST"), entry("extract", LuaValue::Function(9)))).expect("valid spec should parse");
    assert_eq!(spec.extract, Some(9));
}

#[test]
fn extract_field_is_not_required() {
    for t in [table(required("GET")), with(required("GET"), entry("extract", LuaValue::Nil))] {
        let spec = parse_http_spec(t).expect("valid spec should parse");
        assert!(spec.extract.is_none());
    }
}

#[test]
fn fails_on_non_function_extract() {
    let handler = LuaValue::Table(table(vec![entry("handler", LuaValue::Function(1))]));
    for value in [text("not a function"), handler] {
        let err = parse_http_spec(with(required("POST"), entry("extract", value))).expect_err("non-function extract should fail");
        assert!(matches!(err, Error::FieldNotFunction { field: Field::Extract, .. }));
    }
}

#[test]
fn parses_full_http_spec() {
    let (body, json) = nested_body();
    let t = table(vec![
        entry("method", text("DELETE")),
        entry("service", text("user")),
        entry("path", text("")),
        entry("headers", headers_table()),
        entry("query", query_table()),
        entry_json("body", body, json.clone()),
        entry("extract", LuaValue::Function(5)),
    ]);
    let spec = parse_http_spec(t).expect("valid spec should parse");
    assert_eq!(spec.method, HttpMethod::Delete);
    assert_eq!(spec.service, "user");
    assert_eq!(spec.path, "");
    assert_eq!(
        sorted(spec.headers),
        owned(&[
            ("Accept", "application/json"),
            ("Refresh", "true"),
            ("Request-Id", "123456"),
            ("X-Trace-Id", "abc-123"),
        ])
    );
    assert_eq!(sorted(spec.query), owned(&[("n", "3"), ("name", "user-123"), ("verbose", "true")]));
    assert_eq!(spec.body, Some(json));
    assert!(spec.extract.is_some());
}

#[test]
fn first_failing_field_gives_the_error() {
    let t = table(vec![
        entry("method", text("GET")),
        entry("service", LuaValue::Integer(1)),
        entry("path", LuaValue::Boolean(false)),
    ]);
    let err = parse_http_spec(t).expect_err("service is checked before path");
    assert!(matches!(err, Error::FieldNotString { field: Field::Service, kind: LuaKind::Integer }));
}

#[test]
fn non_utf8_path_keeps_its_bytes() {
    let t = table(vec![
        entry("method", text("GET")),
        entry("service", text("auth")),
        entry("path", LuaValue::Str(Err(vec![0xff, 0x2f]))),
    ]);
    let err = parse_http_spec(t).expect_err("invalid UTF-8 should fail");
    assert!(matches!(err, Error::FieldStringValueNotUTF8 { field: Field::Path, ref value } if *value == vec![0xff, 0x2f]));
}

#[test]
fn map_keys_and_numbers_take_their_text() {
    let headers = LuaValue::Table(table(vec![
        LuaEntry { key: LuaKey::Index(-7), value: LuaValue::Integer(-12), json: Err(String::new()) },
        LuaEntry { key: LuaKey::Other(Ok("1.5".into())), value: LuaValue::Number("0.25".into()), json: Err(String::new()) },
    ]));
    let spec = parse_http_spec(with(required("GET"), entry("headers", headers))).expect("valid spec should parse");
    assert_eq!(spec.headers, owned(&[("-7", "-12"), ("1.5", "0.25")]));
}

#[test]
fn unconvertible_map_key_is_a_runtime_error() {
    let headers = LuaValue::Table(table(vec![LuaEntry {
        key: LuaKey::Other(Err("bad key".into())),
        value: text("x"),
        json: Err(String::new()),
    }]));
    let err = parse_http_spec(with(required("GET"), entry("headers", headers))).expect_err("the key has no text");
    assert!(matches!(err, Error::Lua(ref m) if m == "bad key"));
}

#[test]
fn static_spec_needs_a_protocol() {
    let err = parse_static_spec(table(required("GET"))).expect_err("protocol is required");
    assert!(matches!(err, Error::RequiredFieldMissing(Field::Protocol)));
}

#[test]
fn static_spec_protocol_is_case_insensitive() {
    let t = with(required("GET"), entry("protocol", text("HTTP")));
    let spec = parse_static_spec(t).expect("HTTP selects the http protocol");
    assert!(matches!(spec, RequestSpec::Http(ref h) if h.method == HttpMethod::Get));
}

#[test]
fn static_spec_rejects_unknown_protocol_lowercased() {
    let t = with(required("GET"), entry("protocol", text("GRPC")));
    let err = parse_static_spec(t).expect_err("grpc is not supported");
    assert!(matches!(err, Error::InvalidProtocol(ref p) if p == "grpc"));
}

#[test]
fn static_spec_rejects_non_string_protocol() {
    let t = with(required("GET"), entry("protocol", LuaValue::Integer(1)));
    let err = parse_static_spec(t).expect_err("protocol must be a string");
    assert!(matches!(err, Error::FieldNotString { field: Field::Protocol, kind: LuaKind::Integer }));
}

#[test]
fn anonymous_table_is_a_static_spec() {
    let t = with(required("GET"), entry("protocol", text("http")));
    let spec = parse_spec(LuaValue::Table(t)).expect("anonymous static spec");
    assert!(spec.name.is_none());
    assert!(matches!(spec.spec, SpecType::Static(RequestSpec::Http(_))));
}

#[test]
fn named_table_holds_its_spec_under_spec() {
    let inner = with(required("GET"), entry("protocol", text("http")));
    let t = table(vec![entry("name", text("login")), entry("spec", LuaValue::Table(inner))]);
    let spec = parse_spec(LuaValue::Table(t)).expect("named static spec");
    assert_eq!(spec.name.as_deref(), Some("login"));
    assert!(matches!(spec.spec, SpecType::Static(RequestSpec::Http(_))));
}

#[test]
fn named_function_is_a_dynamic_spec() {
    let t = table(vec![entry("name", text("next")), entry("spec", LuaValue::Function(4))]);
    let spec = parse_spec(LuaValue::Table(t)).expect("named dynamic spec");
    assert_eq!(spec.name.as_deref(), Some("next"));
    assert!(matches!(spec.spec, SpecType::Dynamic(4)));
}

#[test]
fn bare_function_is_an_anonymous_dynamic_spec() {
    let value: V = LuaValue::Function(2);
    let spec = parse_spec(value).expect("dynamic spec");
    assert!(spec.name.is_none());
    assert!(matches!(spec.spec, SpecType::Dynamic(2)));
}

#[test]
fn named_spec_with_invalid_spec_field_is_refused() {
    let t = table(vec![entry("name", text("x")), entry("spec", text("nope"))]);
    let err = parse_spec(LuaValue::Table(t)).expect_err("spec must be a table or function");
    assert!(matches!(err, Error::InvalidSpecType(LuaKind::Str)));
    let t = table(vec![entry("name", text("x"))]);
    let err = parse_spec(LuaValue::Table(t)).expect_err("a named spec needs a spec");
    assert!(matches!(err, Error::InvalidSpecType(LuaKind::Nil)));
}

#[test]
fn non_string_name_is_refused() {
    let t = table(vec![entry("name", LuaValue::Boolean(true)), entry("spec", LuaValue::Function(1))]);
    let err = parse_spec(LuaValue::Table(t)).expect_err("name must be a string");
    assert!(matches!(err, Error::FieldNotString { field: Field::Name, kind: LuaKind::Boolean }));
}

#[test]
fn string_is_not_a_request_spec() {
    let err = parse_spec(text("GET /")).expect_err("a string is no spec");
    assert!(matches!(err, Error::InvalidRequestSpec(LuaKind::Str)));
}
