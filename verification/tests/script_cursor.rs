use creo_bench::script::runner::{CallOutcome, ResolveError, RevertHandle, ScriptCursor, SpecTable, Step};
use creo_bench::script::spec::{HTTPStaticRequestSpec, LuaRequestSpec, RequestSpec, SpecType};
use creo_bench::script::HttpMethod;
use creo_bench::transaction::SpecId;

type Spec = LuaRequestSpec<u32, ()>;

fn get(path: &str) -> Spec {
    LuaRequestSpec {
        name: None,
        spec: SpecType::Static(RequestSpec::Http(HTTPStaticRequestSpec {
            method: HttpMethod::Get,
            service: "api".into(),
            path: path.into(),
            headers: vec![],
            query: vec![],
            body: None,
            extract: None,
        })),
    }
}

fn named(name: &str, mut spec: Spec) -> Spec {
    spec.name = Some(name.into());
    spec
}

fn dynamic(f: u32) -> Spec {
    LuaRequestSpec { name: None, spec: SpecType::Dynamic(f) }
}

fn path_of(spec: &Spec) -> String {
    match &spec.spec {
        SpecType::Static(RequestSpec::Http(h)) => h.path.clone(),
        SpecType::Dynamic(_) => panic!("a dynamic spec has no path"),
    }
}

/// Drives the steps of one user spec choice; `call` stands for the script's
/// dynamic functions: it maps a function handle to the name it jumps to.
fn next_user(
    cursor: &mut ScriptCursor,
    specs: &[Spec],
    call: &dyn Fn(u32) -> String,
) -> Result<(RevertHandle, SpecId, String), ResolveError<()>> {
    let mut step = cursor.next_user();
    loop {
        match step {
            Step::Use { index } | Step::Produced { index } => {
                let (handle, id) = cursor.commit_user(index);
                return Ok((handle, id, path_of(&specs[index])));
            },
            Step::Call { index } => {
                let SpecType::Dynamic(f) = specs[index].spec else { unreachable!() };
                step = cursor.user_table().after_call(index, CallOutcome::Jump(call(f)))?;
            },
        }
    }
}

fn cursor_for(setup: &[Spec], user: &[Spec]) -> ScriptCursor {
    ScriptCursor::new(SpecTable::new(&setup.to_vec()), SpecTable::new(&user.to_vec())).expect("user specs")
}

fn two_gets() -> Vec<Spec> {
    vec![get("/first"), get("/second")]
}

fn no_call(_: u32) -> String {
    panic!("no dynamic spec")
}

#[test]
fn setup_fails_on_empty_user_requests_table() {
    let empty: Vec<Spec> = Vec::new();
    assert!(ScriptCursor::new(SpecTable::new(&empty), SpecTable::new(&empty)).is_err());
}

#[test]
fn next_setup_spec_returns_none_on_empty_table() {
    let cursor = cursor_for(&[], &two_gets());
    assert_eq!(cursor.next_setup(), None);
}

#[test]
fn setup_specs_run_once_in_order() {
    let mut cursor = cursor_for(&[get("/a"), get("/b")], &two_gets());
    assert_eq!(cursor.next_setup(), Some(Step::Use { index: 0 }));
    assert_eq!(cursor.commit_setup(0).get(), 0);
    assert_eq!(cursor.next_setup(), Some(Step::Use { index: 1 }));
    cursor.commit_setup(1);
    assert_eq!(cursor.next_setup(), None);
}

#[test]
fn next_user_request_wraps() {
    let specs = two_gets();
    let mut cursor = cursor_for(&[], &specs);
    let paths: Vec<String> = (0..5).map(|_| next_user(&mut cursor, &specs, &no_call).unwrap().2).collect();
    assert_eq!(paths, vec!["/first", "/second", "/first", "/second", "/first"]);
}

#[test]
fn revert_handle_drop_commits_cursor_advance() {
    let specs = two_gets();
    let mut cursor = cursor_for(&[], &specs);
    let (_handle, _, path) = next_user(&mut cursor, &specs, &no_call).unwrap();
    assert_eq!(path, "/first");
    let (_, _, path) = next_user(&mut cursor, &specs, &no_call).unwrap();
    assert_eq!(path, "/second");
}

#[test]
fn revert_handle_revert_rolls_back_to_pre_call_position() {
    let specs = two_gets();
    let mut cursor = cursor_for(&[], &specs);
    let (handle, _, path) = next_user(&mut cursor, &specs, &no_call).unwrap();
    assert_eq!(path, "/first");
    handle.revert(&mut cursor);
    let (_, _, path) = next_user(&mut cursor, &specs, &no_call).unwrap();
    assert_eq!(path, "/first");
}

#[test]
fn revert_handle_preserves_last_index_at_wraparound() {
    let specs = two_gets();
    let mut cursor = cursor_for(&[], &specs);
    next_user(&mut cursor, &specs, &no_call).unwrap();
    let (handle, _, path) = next_user(&mut cursor, &specs, &no_call).unwrap();
    assert_eq!(path, "/second");
    handle.revert(&mut cursor);
    let (_, _, path) = next_user(&mut cursor, &specs, &no_call).unwrap();
    assert_eq!(path, "/second");
}

#[test]
fn revert_handle_restores_pre_jump_cursor_on_dynamic_dispatch() {
    let specs = vec![dynamic(1), get("/before-target"), named("target", get("/target"))];
    let mut cursor = cursor_for(&[], &specs);
    let jump = |_: u32| "target".to_string();
    let (handle, id, path) = next_user(&mut cursor, &specs, &jump).unwrap();
    assert_eq!(path, "/target");
    assert_eq!(id.get(), 2);
    handle.revert(&mut cursor);
    let (_, _, path) = next_user(&mut cursor, &specs, &jump).unwrap();
    assert_eq!(path, "/target");
}

#[test]
fn cursor_jumps_to_named_static_spec() {
    let specs = vec![named("login", get("/login")), dynamic(1), get("/other")];
    let mut cursor = cursor_for(&[], &specs);
    let jump = |_: u32| "login".to_string();
    let paths: Vec<String> = (0..4).map(|_| next_user(&mut cursor, &specs, &jump).unwrap().2).collect();
    assert_eq!(paths, vec!["/login", "/login", "/login", "/login"]);
}

#[test]
fn cursor_follows_each_dynamic_jump() {
    let specs = vec![dynamic(1), named("a", get("/a")), dynamic(2), named("b", get("/b"))];
    let mut cursor = cursor_for(&[], &specs);
    let jump = |f: u32| if f == 1 { "b".to_string() } else { "a".to_string() };
    let (_, id, path) = next_user(&mut cursor, &specs, &jump).unwrap();
    assert_eq!((id.get(), path.as_str()), (3, "/b"));
    let (_, id, path) = next_user(&mut cursor, &specs, &jump).unwrap();
    assert_eq!((id.get(), path.as_str()), (3, "/b"));
}

#[test]
fn resolve_errors_on_invalid_jump() {
    let specs = vec![dynamic(1), get("/x")];
    let mut cursor = cursor_for(&[], &specs);
    let jump = |_: u32| "deleteUser".to_string();
    let err = next_user(&mut cursor, &specs, &jump).map(|_| ()).unwrap_err();
    assert!(matches!(err, ResolveError::UnknownJump { index: 1, ref jump } if jump == "deleteUser"));
}
