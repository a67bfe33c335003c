use creo_bench::script::calls::{dynamic_resolve, top_level_specs, CallError, DynamicResolve};
use creo_bench::script::loader::{script_functions, LoadError, ScriptFn};
use creo_bench::script::lua::{LuaEntry, LuaKey, LuaKind, LuaTable, LuaValue};
use creo_bench::script::parser::{Error as SpecError, Field};
use creo_bench::script::spec::{RequestSpec, SpecType};
use creo_bench::script::HttpMethod;
use serde_json::Value;

type V = LuaValue<u32, Value>;

fn text(s: &str) -> V {
    LuaValue::Str(Ok(s.to_string()))
}

fn named(key: &str, value: V) -> LuaEntry<u32, Value> {
    LuaEntry { key: LuaKey::Name(key.to_string()), value, json: Err(String::new()) }
}

fn indexed(k: i64, value: V) -> LuaEntry<u32, Value> {
    LuaEntry { key: LuaKey::Index(k), value, json: Err(String::new()) }
}

fn table(entries: Vec<LuaEntry<u32, Value>>) -> V {
    LuaValue::Table(LuaTable { entries })
}

fn http(method: &str) -> V {
    table(vec![
        named("protocol", text("http")),
        named("method", text(method)),
        named("service", text("auth")),
        named("path", text("/login")),
    ])
}

fn method_of(spec: &SpecType<u32, Value>) -> HttpMethod {
    match spec {
        SpecType::Static(RequestSpec::Http(h)) => h.method,
        SpecType::Dynamic(_) => panic!("expected static HTTP spec"),
    }
}

#[test]
fn setup_succeeds_on_empty_table() {
    let specs = top_level_specs(Ok(table(vec![]))).expect("empty table gives no specs");
    assert!(specs.is_empty());
}

#[test]
fn setup_succeeds_for_array_style_table() {
    let ret = table(vec![indexed(1, http("GET")), indexed(2, http("POST")), indexed(3, http("DELETE"))]);
    let specs = top_level_specs(Ok(ret)).expect("setup should run");
    assert_eq!(specs.len(), 3);
    assert_eq!(method_of(&specs[0].spec), HttpMethod::Get);
    assert_eq!(method_of(&specs[1].spec), HttpMethod::Post);
    assert_eq!(method_of(&specs[2].spec), HttpMethod::Delete);
}

#[test]
fn sequence_stops_at_the_first_gap_and_ignores_other_keys() {
    let ret = table(vec![
        indexed(2, http("POST")),
        named("extra", http("PUT")),
        indexed(1, http("GET")),
        indexed(4, http("HEAD")),
    ]);
    let specs = top_level_specs(Ok(ret)).expect("sequence 1..=2");
    assert_eq!(specs.len(), 2);
    assert_eq!(method_of(&specs[0].spec), HttpMethod::Get);
    assert_eq!(method_of(&specs[1].spec), HttpMethod::Post);
}

#[test]
fn setup_fails_on_non_table_return() {
    let err = top_level_specs(Ok(text("not a table"))).expect_err("script should fail");
    assert!(matches!(err, CallError::NonTableReturn(LuaKind::Str)));
}

#[test]
fn setup_fails_on_function_error() {
    let err = top_level_specs::<u32, Value>(Err("boom".to_string())).expect_err("the call raised an error");
    assert!(matches!(err, CallError::Call(ref m) if m == "boom"));
}

#[test]
fn setup_fails_on_string_request_spec() {
    let err = top_level_specs(Ok(table(vec![indexed(1, text("GET /"))]))).expect_err("script should fail");
    assert!(matches!(
        err,
        CallError::InvalidSpec { index: 1, source: SpecError::InvalidRequestSpec(LuaKind::Str) }
    ));
}

#[test]
fn setup_fails_on_invalid_request_spec() {
    let bad = table(vec![named("protocol", text("http")), named("service", text("auth")), named("path", text("/"))]);
    let err = top_level_specs(Ok(table(vec![indexed(1, http("GET")), indexed(2, bad)]))).expect_err("script should fail");
    assert!(matches!(
        err,
        CallError::InvalidSpec { index: 2, source: SpecError::RequiredFieldMissing(Field::Method) }
    ));
}

#[test]
fn dynamic_table_is_a_spec_for_this_request() {
    let r = dynamic_resolve(3, Ok(http("PATCH"))).expect("static spec");
    assert!(matches!(r, DynamicResolve::Spec(RequestSpec::Http(ref h)) if h.method == HttpMethod::Patch));
}

#[test]
fn dynamic_string_number_or_boolean_is_a_jump() {
    assert!(matches!(dynamic_resolve(0, Ok(text("login"))), Ok(DynamicResolve::Jump(ref s)) if s == "login"));
    assert!(matches!(dynamic_resolve::<u32, Value>(0, Ok(LuaValue::Integer(-3))), Ok(DynamicResolve::Jump(ref s)) if s == "-3"));
    assert!(matches!(dynamic_resolve::<u32, Value>(0, Ok(LuaValue::Boolean(false))), Ok(DynamicResolve::Jump(ref s)) if s == "false"));
}

#[test]
fn dynamic_errors_carry_the_value_and_index() {
    assert!(matches!(
        dynamic_resolve::<u32, Value>(0, Ok(LuaValue::Function(1))),
        Err(CallError::NotStringCoercible { value: LuaValue::Function(1), kind: LuaKind::Function })
    ));
    assert!(matches!(
        dynamic_resolve::<u32, Value>(0, Ok(LuaValue::Str(Err(vec![0xc3])))),
        Err(CallError::NonUTF8String { value: LuaValue::Str(Err(_)) })
    ));
    assert!(matches!(
        dynamic_resolve(5, Ok(table(vec![]))),
        Err(CallError::InvalidSpec { index: 5, source: SpecError::RequiredFieldMissing(Field::Protocol) })
    ));
    assert!(matches!(dynamic_resolve::<u32, Value>(5, Err("x".into())), Err(CallError::Call(_))));
}

#[test]
fn load_valid_script() {
    let module = table(vec![named("setup", LuaValue::Function(1)), named("requests", LuaValue::Function(2))]);
    let script = script_functions(Ok(module)).expect("valid script should load");
    assert_eq!(script.setup, 1);
    assert_eq!(script.requests, 2);
}

#[test]
fn load_fails_on_non_table_return() {
    let err = script_functions(Ok(text("not a table"))).expect_err("non-table module should fail");
    assert!(matches!(err, LoadError::ModuleReturn(_)));
}

#[test]
fn load_fails_on_missing_setup_fn() {
    let module = table(vec![named("requests", LuaValue::Function(2))]);
    let err = script_functions(Ok(module)).expect_err("missing setup function should fail");
    assert!(matches!(err, LoadError::MissingFn(ScriptFn::Setup)));
}

#[test]
fn load_fails_on_non_function_setup_fn() {
    let module = table(vec![named("setup", LuaValue::Integer(42)), named("requests", LuaValue::Function(2))]);
    let err = script_functions(Ok(module)).expect_err("non-function setup should fail");
    assert!(matches!(err, LoadError::TableValueNotFunction { key: ScriptFn::Setup, .. }));
}

#[test]
fn load_fails_on_missing_requests_fn() {
    let module = table(vec![named("setup", LuaValue::Function(1))]);
    let err = script_functions(Ok(module)).expect_err("missing requests function should fail");
    assert!(matches!(err, LoadError::MissingFn(ScriptFn::Requests)));
}

#[test]
fn load_fails_on_non_function_requests_fn() {
    let module = table(vec![named("setup", LuaValue::Function(1)), named("requests", text("invalid"))]);
    let err = script_functions(Ok(module)).expect_err("non-function requests should fail");
    assert!(matches!(err, LoadError::TableValueNotFunction { key: ScriptFn::Requests, .. }));
}

#[test]
fn load_fails_when_the_chunk_does_not_compile() {
    let err = script_functions::<u32, Value>(Err("syntax error".into())).expect_err("compile error");
    assert!(matches!(err, LoadError::ModuleLoad(ref m) if m == "syntax error"));
}

fn login_spec() -> V {
    let headers = table(vec![named("Content-Type", text("application/json"))]);
    let body = table(vec![named("username", text("demo")), named("password", text("secret"))]);
    let mut object = serde_json::Map::new();
    object.insert("username".into(), Value::String("demo".into()));
    object.insert("password".into(), Value::String("secret".into()));
    table(vec![
        named("protocol", text("http")),
        named("method", text("POST")),
        named("service", text("auth")),
        named("path", text("/login")),
        named("headers", headers),
        LuaEntry { key: LuaKey::Name("body".into()), value: body, json: Ok(Value::Object(object)) },
        named("extract", LuaValue::Function(8)),
    ])
}

fn check_login(specs: &[creo_bench::script::spec::LuaRequestSpec<u32, Value>]) {
    assert_eq!(specs.len(), 1);
    let SpecType::Static(RequestSpec::Http(http_spec)) = &specs[0].spec else {
        panic!("expected static HTTP spec");
    };
    assert_eq!(http_spec.method, HttpMethod::Post);
    assert_eq!(http_spec.service, "auth");
    assert_eq!(http_spec.path, "/login");
    assert_eq!(http_spec.headers, vec![("Content-Type".to_string(), "application/json".to_string())]);
    assert!(http_spec.query.is_empty());
    let body = http_spec.body.as_ref().expect("a body");
    assert_eq!(body["username"], Value::String("demo".into()));
    assert_eq!(body["password"], Value::String("secret".into()));
    assert!(http_spec.extract.is_some());
}

#[test]
fn setup_succeeds_on_static_setup_table() {
    let specs = top_level_specs(Ok(table(vec![indexed(1, login_spec())]))).expect("setup should run");
    check_login(&specs);
}

#[test]
fn requests_succeeds_on_static_setup_table() {
    let specs = top_level_specs(Ok(table(vec![indexed(1, login_spec())]))).expect("requests should run");
    check_login(&specs);
}

#[test]
fn setup_succeeds_on_dynamic_setup_table() {
    let specs = top_level_specs(Ok(table(vec![indexed(1, LuaValue::Function(3))]))).expect("setup should run");
    assert_eq!(specs.len(), 1);
    assert!(matches!(specs[0].spec, SpecType::Dynamic(3)));
}

#[test]
fn requests_succeeds_on_dynamic_setup_table() {
    let specs = top_level_specs(Ok(table(vec![indexed(1, LuaValue::Function(4))]))).expect("requests should run");
    assert_eq!(specs.len(), 1);
    assert!(matches!(specs[0].spec, SpecType::Dynamic(4)));
}

#[test]
fn requests_succeeds_on_empty_table() {
    let specs = top_level_specs(Ok(table(vec![]))).expect("empty table gives no specs");
    assert!(specs.is_empty());
}

#[test]
fn requests_succeeds_for_array_style_table() {
    let ret = table(vec![indexed(1, http("GET")), indexed(2, http("POST")), indexed(3, http("DELETE"))]);
    let specs = top_level_specs(Ok(ret)).expect("requests should run");
    assert_eq!(method_of(&specs[0].spec), HttpMethod::Get);
    assert_eq!(method_of(&specs[1].spec), HttpMethod::Post);
    assert_eq!(method_of(&specs[2].spec), HttpMethod::Delete);
}

#[test]
fn requests_fails_on_non_table_return() {
    let err = top_level_specs::<u32, Value>(Ok(LuaValue::Integer(5))).expect_err("script should fail");
    assert!(matches!(err, CallError::NonTableReturn(LuaKind::Integer)));
}

#[test]
fn requests_fails_on_function_error() {
    let err = top_level_specs::<u32, Value>(Err("fail".to_string())).expect_err("the call raised an error");
    assert!(matches!(err, CallError::Call(_)));
}

#[test]
fn requests_fails_on_string_request_spec() {
    let err = top_level_specs(Ok(table(vec![indexed(1, text("nope"))]))).expect_err("script should fail");
    assert!(matches!(err, CallError::InvalidSpec { index: 1, source: SpecError::InvalidRequestSpec(_) }));
}

#[test]
fn requests_fails_on_invalid_request_spec() {
    let bad = table(vec![named("protocol", text("ftp")), named("method", text("GET"))]);
    let err = top_level_specs(Ok(table(vec![indexed(1, bad)]))).expect_err("script should fail");
    assert!(matches!(err, CallError::InvalidSpec { index: 1, source: SpecError::InvalidProtocol(ref p) } if p == "ftp"));
}
