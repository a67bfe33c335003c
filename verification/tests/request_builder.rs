use creo_bench::test_utils::request::{json_to_lua_literal, Dynamic, JsonBody, RequestBuilder, Static};
use creo_bench::test_utils::ScriptBuilder;

#[test]
fn default_request_is_a_get_of_the_test_path() {
    let entry = RequestBuilder::<Static>::default().build();
    assert_eq!(entry, r#"{ protocol = "http", method = "GET", service = "api", path = "/test" }"#);
}

#[test]
fn static_request_lists_its_fields_in_order() {
    let entry = RequestBuilder::new_static("POST", "users", "/create")
        .with_headers(vec![("Accept", "application/json")])
        .with_query(vec![("n", "3"), ("v", "x")])
        .with_body(JsonBody::Object(vec![
            ("title".to_string(), JsonBody::Str("Hello".to_string())),
            ("tags".to_string(), JsonBody::Array(vec![JsonBody::Number("1".to_string()), JsonBody::Bool(true)])),
        ]))
        .with_extract("function(store, response) end")
        .build();
    assert_eq!(
        entry,
        r#"{ protocol = "http", method = "POST", service = "users", path = "/create", headers = { ["Accept"] = "application/json" }, query = { ["n"] = "3", ["v"] = "x" }, body = { ["title"] = "Hello", ["tags"] = { 1, true } }, extract = function(store, response) end }"#
    );
}

#[test]
fn named_entries_wrap_their_spec() {
    let entry = RequestBuilder::new_static("GET", "api", "/").with_name("login").build();
    assert_eq!(entry, r#"{ name = "login", spec = { protocol = "http", method = "GET", service = "api", path = "/" } }"#);
    let entry = RequestBuilder::<Dynamic>::dynamic("function() return \"login\" end").with_name("jump").build();
    assert_eq!(entry, r#"{ name = "jump", spec = function() return "login" end }"#);
    assert_eq!(RequestBuilder::<Dynamic>::dynamic("f").build(), "f");
}

#[test]
fn json_literals_follow_lua_syntax() {
    assert_eq!(json_to_lua_literal(&JsonBody::Null), "nil");
    assert_eq!(json_to_lua_literal(&JsonBody::Array(vec![])), "{  }");
    assert_eq!(json_to_lua_literal(&JsonBody::Number("2.5".into())), "2.5");
}

#[test]
fn builder_getters_return_the_fields() {
    let b = RequestBuilder::new_static("PUT", "svc", "/p").with_query(vec![("a", "b")]);
    assert_eq!(b.method(), "PUT");
    assert_eq!(b.service(), "svc");
    assert_eq!(b.path(), "/p");
    assert_eq!(b.query(), &[("a", "b")]);
    assert!(b.headers().is_empty());
    assert!(b.body().is_none());
    let b = b.with_method("GET").with_service("other").with_path("/q");
    assert_eq!((b.method(), b.service(), b.path()), ("GET", "other", "/q"));
}

#[test]
fn default_script_runs_the_default_request() {
    let script = ScriptBuilder::default().build();
    assert!(script.contains(r#"return {{ protocol = "http", method = "GET", service = "api", path = "/test" }}"#));
    assert!(script.starts_with("local function setup()\n    return {}"));
}
