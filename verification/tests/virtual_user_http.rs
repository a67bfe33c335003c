use creo_bench::virtual_user::pool::IdleUsers;
use rand::SeedableRng;
use creo_bench::load::{RelativeLoadTestTime, ResponseTime, ServiceTime, StartTime};
use creo_bench::script::spec::HTTPStaticRequestSpec;
use creo_bench::script::HttpMethod;
use creo_bench::test_utils::RegistryBuilder;
use creo_bench::transaction::{
    DroppedCode, FailedCode, LoadGeneratorId, SpecId, TimeoutCode, Transaction, TransactionResult,
};
use creo_bench::virtual_user::http::{
    check_response, fail_setup_with, map_execution_error, resolve_url, waited_too_long,
    HttpExecuteError, RequestError, UrlError, UrlParseError, UserError,
};
use creo_bench::virtual_user::VirtualUserId;

fn spec(service: &str, path: &str, query: Vec<(&str, &str)>) -> HTTPStaticRequestSpec<u32, ()> {
    HTTPStaticRequestSpec {
        method: HttpMethod::Get,
        service: service.to_string(),
        path: path.to_string(),
        headers: Vec::new(),
        query: query.into_iter().map(|(a, b)| (a.to_string(), b.to_string())).collect(),
        body: None,
        extract: None,
    }
}

fn transaction() -> Transaction {
    Transaction::new(
        LoadGeneratorId::new(2),
        StartTime::from_relative(RelativeLoadTestTime::from_millis(5)),
        RelativeLoadTestTime::from_millis(7),
    )
}

#[test]
fn resolve_url_joins_base_query_and_path() {
    let registry = RegistryBuilder::new()
        .with_service("api".to_string(), "http://api.example.com".to_string())
        .build();
    let url = resolve_url(&spec("api", "/items", vec![("n", "3"), ("q", "a b")]), &registry).expect("registered service");
    assert_eq!(url.as_str(), "http://api.example.com/items?n=3&q=a+b");
    let url = resolve_url(&spec("api", "/login", vec![]), &registry).expect("registered service");
    assert_eq!(url.as_str(), "http://api.example.com/login");
}

#[test]
fn resolve_url_reports_unknown_service() {
    let registry = RegistryBuilder::new().build();
    let err = resolve_url(&spec("auth", "/", vec![]), &registry).expect_err("no such service");
    assert_eq!(err, UrlError::ServiceNotFound("auth".to_string()));
    assert_eq!(err.message(), "service `auth` is not in the service registry");
}

#[test]
fn resolve_url_reports_unparsable_base() {
    let registry = RegistryBuilder::new().with_service("api".to_string(), "not a url".to_string()).build();
    let err = resolve_url(&spec("api", "/", vec![]), &registry).expect_err("relative base");
    assert_eq!(
        err,
        UrlError::InvalidUrl { service: "api".to_string(), source: UrlParseError::RelativeUrlWithoutBase }
    );
    assert_eq!(err.message(), "invalid URL for service `api`: relative URL without a base");
}

#[test]
fn check_response_judges_status_and_errors() {
    let st = ServiceTime::from_millis(12);
    assert!(check_response::<()>(Ok(200), st).is_ok());
    assert!(check_response::<()>(Ok(399), st).is_ok());
    assert!(matches!(check_response::<()>(Ok(400), st), Err(HttpExecuteError::Status { code: 400, .. })));
    assert!(matches!(check_response::<()>(Ok(503), st), Err(HttpExecuteError::Status { code: 503, .. })));
    assert!(matches!(
        check_response::<()>(Err(RequestError::Timeout("slow".into())), st),
        Err(HttpExecuteError::Timeout { ref message, service_time }) if message == "slow" && service_time == st
    ));
    assert!(matches!(
        check_response::<()>(Err(RequestError::Failed("reset".into())), st),
        Err(HttpExecuteError::Failed { ref message, .. }) if message == "reset"
    ));
}

#[test]
fn execution_errors_become_transaction_outcomes() {
    let id = VirtualUserId::new(4);
    let spec_id = SpecId::new(1);
    let st = ServiceTime::from_millis(3);
    match map_execution_error(transaction(), id, spec_id, HttpExecuteError::Timeout { message: "t".into(), service_time: st }) {
        TransactionResult::Timeout { code, service_time, .. } => {
            assert_eq!(code, TimeoutCode::Error("t".into()));
            assert_eq!(service_time, st);
        },
        other => panic!("expected a timeout, got {other:?}"),
    }
    match map_execution_error(transaction(), id, spec_id, HttpExecuteError::Status { code: 404, service_time: st }) {
        TransactionResult::Failed { code, .. } => assert_eq!(code, FailedCode::Status(404)),
        other => panic!("expected a failure, got {other:?}"),
    }
    match map_execution_error(transaction(), id, spec_id, HttpExecuteError::Extract { source: "bad".into(), service_time: st }) {
        TransactionResult::Failed { code, .. } => assert_eq!(code, FailedCode::Extract("bad".into())),
        other => panic!("expected a failure, got {other:?}"),
    }
    match map_execution_error(transaction(), id, spec_id, HttpExecuteError::Failed { message: "f".into(), service_time: st }) {
        TransactionResult::Failed { code, .. } => assert_eq!(code, FailedCode::Send("f".into())),
        other => panic!("expected a failure, got {other:?}"),
    }
    match map_execution_error(transaction(), id, spec_id, HttpExecuteError::Url(UrlError::ServiceNotFound("x".into()))) {
        TransactionResult::Dropped { code, metadata, .. } => {
            assert_eq!(code, DroppedCode::Error("service `x` is not in the service registry".into()));
            assert_eq!(metadata.virtual_user_id, id);
        },
        other => panic!("expected a drop, got {other:?}"),
    }
}

#[test]
fn setup_failures_keep_their_cause() {
    let st = ServiceTime::from_millis(1);
    let id = SpecId::new(2);
    assert!(matches!(
        fail_setup_with::<&str>(id, HttpExecuteError::Status { code: 500, service_time: st }),
        UserError::Status(500)
    ));
    assert!(matches!(
        fail_setup_with::<&str>(id, HttpExecuteError::Timeout { message: "m".into(), service_time: st }),
        UserError::Http(RequestError::Timeout(ref m)) if m == "m"
    ));
    assert!(matches!(
        fail_setup_with(id, HttpExecuteError::Extract { source: "boom", service_time: st }),
        UserError::Extract { id: i, source: "boom" } if i == id
    ));
}

#[test]
fn waiting_longer_than_the_timeout_drops() {
    assert!(waited_too_long(1_000, ResponseTime::from_nanos(1_001)));
    assert!(!waited_too_long(1_000, ResponseTime::from_nanos(1_000)));
    assert!(!waited_too_long(0, ResponseTime::from_nanos(u64::MAX)));
}

#[test]
fn idle_users_hand_out_each_user_once() {
    let mut rng = rand::rngs::StdRng::seed_from_u64(7);
    let mut pool = IdleUsers::new(vec![10, 20, 30]);
    let mut taken = vec![pool.take(&mut rng), pool.take(&mut rng), pool.take(&mut rng)];
    assert_eq!(pool.len(), 0);
    taken.sort();
    assert_eq!(taken, vec![10, 20, 30]);
    pool.put(20);
    assert_eq!(pool.len(), 1);
    assert_eq!(pool.take(&mut rng), 20);
}
