use creo_bench::script::response::Response;
use creo_bench::script::store::Store;

fn headers(pairs: &[(&str, &str)]) -> Vec<(String, String)> {
    pairs.iter().map(|(a, b)| (a.to_string(), b.to_string())).collect()
}

#[test]
fn rust_set_then_get_round_trip() {
    let mut state: Store<mlua::Value> = Store::new();
    state.set("k", mlua::Value::Integer(0));
    assert_eq!(state.get("k").cloned(), Some(mlua::Value::Integer(0)));
}

#[test]
fn rust_get_returns_none_for_absent_key() {
    let state: Store<mlua::Value> = Store::new();
    assert_eq!(state.get("missing"), None);
}

#[test]
fn rust_set_overwrites_existing_key() {
    let lua = mlua::Lua::new();
    let mut state: Store<mlua::Value> = Store::new();
    state.set("k", mlua::Value::String(lua.create_string("first").unwrap()));
    let second = mlua::Value::String(lua.create_string("second").unwrap());
    state.set("k", second.clone());
    assert_eq!(state.get("k").cloned(), Some(second));
}

#[test]
fn rust_two_states_do_not_share_keys() {
    let mut state1: Store<mlua::Value> = Store::new();
    let mut state2: Store<mlua::Value> = Store::new();
    state1.set("k", mlua::Value::Integer(1));
    state2.set("k", mlua::Value::Integer(2));
    state1.set("only_in_1", mlua::Value::Boolean(true));
    assert_eq!(state1.get("k").cloned(), Some(mlua::Value::Integer(1)));
    assert_eq!(state2.get("k").cloned(), Some(mlua::Value::Integer(2)));
    assert_eq!(state1.get("only_in_1").cloned(), Some(mlua::Value::Boolean(true)));
    assert_eq!(state2.get("only_in_1"), None);
}

#[test]
fn userdata_round_trips_null() {
    let mut state: Store<mlua::Value> = Store::new();
    state.set("nothing", mlua::Value::Nil);
    assert_eq!(state.get("nothing").cloned(), Some(mlua::Value::Nil));
}

#[test]
fn store_keeps_other_names_on_write() {
    let mut state: Store<u32> = Store::new();
    state.set("a", 1);
    state.set("b", 2);
    state.set("a", 3);
    assert_eq!(state.get("a"), Some(&3));
    assert_eq!(state.get("b"), Some(&2));
    assert_eq!(state.get("c"), None);
}

#[test]
fn status_returns_the_status_code() {
    let response = Response::new(404, Vec::new(), None);
    assert_eq!(response.status(), 404);
}

#[test]
fn header_returns_value_for_existing_header() {
    let response = Response::new(200, headers(&[("Content-Type", "application/json")]), None);
    assert_eq!(response.header("Content-Type").as_deref(), Some("application/json"));
}

#[test]
fn header_is_case_insensitive() {
    let response = Response::new(200, headers(&[("Content-Type", "application/json")]), None);
    assert_eq!(response.header("content-type").as_deref(), Some("application/json"));
    assert_eq!(response.header("CONTENT-TYPE").as_deref(), Some("application/json"));
    assert_eq!(response.header("cOnTeNt-TyPe").as_deref(), Some("application/json"));
}

#[test]
fn header_returns_nil_for_missing_header() {
    let response = Response::new(200, headers(&[("Content-Type", "application/json")]), None);
    assert_eq!(response.header("X-Missing"), None);
}

#[test]
fn header_joins_duplicate_values_with_comma_space() {
    let response = Response::new(
        200,
        headers(&[("Set-Cookie", "a=1"), ("Set-Cookie", "b=2"), ("Set-Cookie", "c=3")]),
        None,
    );
    assert_eq!(response.header("Set-Cookie").as_deref(), Some("a=1,b=2,c=3"));
}

#[test]
fn header_skips_other_names_between_duplicates() {
    let response = Response::new(
        200,
        headers(&[("Accept", "x"), ("Other", "y"), ("accept", "z")]),
        Some(bytes::Bytes::from_static(b"{}")),
    );
    assert_eq!(response.header("ACCEPT").as_deref(), Some("x,z"));
    assert_eq!(response.body().map(|b| b.as_ref()), Some(&b"{}"[..]));
}
