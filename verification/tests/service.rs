use status_service::backend::MemoryBackend;
use status_service::error::{ErrorCode, ServiceError};
use status_service::pool_model::{PoolConfig, Slot};
use status_service::record::{GetRequest, GetResponse, SetRequest, SetResponse};
use status_service::service::{Service, BORROWER};
use status_service::session::{Reply, Request};

fn service(max_size: usize) -> Service {
    let config = PoolConfig { max_size, acquire_timeout: 10, connect_attempts: 3 };
    Service::new(config, MemoryBackend::new())
}

fn get(id: &str) -> GetRequest {
    GetRequest { id: id.to_string() }
}

fn set(id: &str, status: &str) -> SetRequest {
    SetRequest { id: id.to_string(), status: status.to_string() }
}

fn unavailable() -> ServiceError {
    ServiceError { code: ErrorCode::BackendUnavailable, message: "redis error".to_string() }
}

#[test]
fn get_for_an_unknown_id_returns_empty_fields_and_no_error() {
    let mut service = service(2);
    assert_eq!(
        service.handle_get(get("missing")),
        Ok(GetResponse { id: String::new(), status: String::new() })
    );
    assert_eq!(service.pool().idle(), 1);
    assert_eq!(service.pool().in_use(), 0);
}

#[test]
fn get_returns_what_set_has_stored() {
    let mut service = service(2);
    assert_eq!(service.handle_set(set("42", "ready")), Ok(SetResponse {}));
    assert_eq!(
        service.handle_get(get("42")),
        Ok(GetResponse { id: "42".to_string(), status: "ready".to_string() })
    );
    assert_eq!(
        service.handle_get(get("43")),
        Ok(GetResponse { id: String::new(), status: String::new() })
    );
    assert_eq!(service.handle_set(set("42", "done")), Ok(SetResponse {}));
    assert_eq!(
        service.handle_get(get("42")),
        Ok(GetResponse { id: "42".to_string(), status: "done".to_string() })
    );
    let names = vec!["id".to_string(), "status".to_string()];
    let stored = service.backend().read_fields("status_42", &names).unwrap();
    assert_eq!(stored.get("id"), Some("42".to_string()));
    assert_eq!(stored.get("status"), Some("done".to_string()));
}

#[test]
fn set_twice_leaves_the_record_as_set_once() {
    let mut once = service(1);
    let mut twice = service(1);
    once.handle_set(set("7", "open")).unwrap();
    twice.handle_set(set("7", "open")).unwrap();
    twice.handle_set(set("7", "open")).unwrap();
    assert_eq!(once.handle_get(get("7")), twice.handle_get(get("7")));
    let names = vec!["id".to_string(), "status".to_string(), "other".to_string()];
    let a = once.backend().read_fields("status_7", &names).unwrap();
    let b = twice.backend().read_fields("status_7", &names).unwrap();
    for name in ["id", "status", "other"] {
        assert_eq!(a.get(name), b.get(name));
    }
}

#[test]
fn requests_reuse_one_connection() {
    let mut service = service(3);
    for i in 0..5 {
        service.handle_set(set(&i.to_string(), "x")).unwrap();
        assert_eq!(service.pool().idle(), 1);
        assert_eq!(service.pool().in_use(), 0);
        assert_eq!(service.pool().pending(), 0);
        assert_eq!(service.pool().waiting(), 0);
    }
    assert_eq!(service.pool().slot(0), Some(Slot::Idle));
    assert_eq!(service.pool().slot(1), None);
}

#[test]
fn a_backend_that_is_off_makes_requests_unavailable_and_nothing_is_written() {
    let mut service = service(2);
    service.handle_set(set("1", "kept")).unwrap();
    service.set_up(false);
    assert_eq!(service.handle_set(set("1", "lost")), Err(unavailable()));
    assert_eq!(service.handle_get(get("1")), Err(unavailable()));
    service.set_up(true);
    assert_eq!(
        service.handle_get(get("1")),
        Ok(GetResponse { id: "1".to_string(), status: "kept".to_string() })
    );
}

#[test]
fn a_connection_whose_operation_failed_is_not_idle_afterwards() {
    let mut service = service(2);
    service.handle_get(get("1")).unwrap();
    assert_eq!(service.pool().slot(0), Some(Slot::Idle));
    service.set_up(false);
    assert_eq!(service.handle_get(get("1")), Err(unavailable()));
    assert_eq!(service.pool().slot(0), Some(Slot::Vacant));
    assert_eq!(service.pool().idle(), 0);
    assert_eq!(service.handle_get(get("1")), Err(unavailable()));
    assert_eq!(service.pool().slot(0), Some(Slot::Vacant));
    assert_eq!(service.pool().pending(), 0);
    service.set_up(true);
    service.handle_get(get("1")).unwrap();
    assert_eq!(service.pool().slot(0), Some(Slot::Idle));
    assert_eq!(service.pool().slot(1), None);
}

#[test]
fn a_pool_without_room_serves_nothing() {
    let mut service = service(0);
    assert_eq!(service.handle_get(get("1")), Err(unavailable()));
    assert_eq!(service.handle_set(set("1", "x")), Err(unavailable()));
    assert_eq!(service.pool().waiting(), 0);
    assert_eq!(service.pool().slot(0), None);
    assert!(service.backend().read_fields("status_1", &vec!["id".to_string()]).unwrap().is_empty());
}

#[test]
fn serve_answers_either_kind_of_request() {
    assert_eq!(BORROWER, 0);
    let mut service = service(1);
    assert_eq!(
        service.serve(Request::Store(set("a", "b"))),
        Ok(Reply::Stored(SetResponse {}))
    );
    assert_eq!(
        service.serve(Request::Fetch(get("a"))),
        Ok(Reply::Fetched(GetResponse { id: "a".to_string(), status: "b".to_string() }))
    );
    service.set_up(false);
    assert_eq!(service.serve(Request::Fetch(get("a"))), Err(unavailable()));
}
