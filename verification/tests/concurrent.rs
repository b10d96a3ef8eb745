use status_service::acquire::{Borrower, Next, Signal, Turn};
use status_service::backend::{BackendError, MemoryBackend};
use status_service::pool::{Pool, Wake};
use status_service::pool_model::{Health, PoolConfig, PoolError, Slot};
use status_service::record::{GetRequest, GetResponse, SetRequest};
use status_service::session::{get_handler, set_handler, Command, Event, Phase, Reply, Session};

/// One request with the borrower that acquires for it.
struct Task {
    session: Session,
    borrower: Option<Borrower>,
}

fn begin(session: Session, label: u64) -> Task {
    let (session, command) = session.step(Event::Begin);
    assert!(matches!(command, Command::Acquire));
    Task { session, borrower: Some(Borrower::new(label)) }
}

/// Carries out a backend operation and reports what came of it.
fn operate(backend: &mut MemoryBackend, command: Command) -> Event {
    match command {
        Command::Read { key, names } => match backend.read_fields(&key, &names) {
            Ok(fields) => Event::Read(fields),
            Err(error) => Event::BackendFailed(error),
        },
        Command::Write { key, pairs } => match backend.write_fields(&key, &pairs) {
            Ok(()) => Event::Written,
            Err(error) => Event::BackendFailed(error),
        },
        other => panic!("not a backend operation: {:?}", other),
    }
}

/// Runs a session that has its connection to its response; returns the
/// response and the wake-up that its release caused.
fn finish(
    pool: &mut Pool,
    backend: &mut MemoryBackend,
    session: Session,
    operation: Command,
) -> (Result<Reply, status_service::error::ServiceError>, Option<Wake>) {
    let event = operate(backend, operation);
    let (session, command) = session.step(event);
    let wake = match command {
        Command::Release { lease, health } => pool.release(lease, health).unwrap().wake,
        other => panic!("the connection must be released, got {:?}", other),
    };
    let (session, command) = session.step(Event::Released);
    let verdict = match command {
        Command::Respond(verdict) => verdict,
        other => panic!("expected a response, got {:?}", other),
    };
    let (session, _) = session.step(Event::Responded);
    assert_eq!(session.phase(), Phase::Done);
    (verdict, wake)
}

#[test]
fn with_one_connection_two_gets_complete_one_after_the_other() {
    let config = PoolConfig { max_size: 1, acquire_timeout: 100, connect_attempts: 1 };
    let mut pool = Pool::new(config);
    let mut backend = MemoryBackend::new();
    backend
        .write_fields(
            "status_a",
            &vec![("id".to_string(), "a".to_string()), ("status".to_string(), "up".to_string())],
        )
        .unwrap();

    let first = begin(get_handler(GetRequest { id: "a".to_string() }), 1);
    let second = begin(get_handler(GetRequest { id: "b".to_string() }), 2);

    let turn = first.borrower.unwrap().step(&mut pool, Signal::Begin { now: 0 });
    assert!(matches!(turn.next, Next::Connect));
    let waiting = second.borrower.unwrap().step(&mut pool, Signal::Begin { now: 1 });
    assert!(matches!(waiting.next, Next::Wait { deadline: 101 }));
    assert_eq!(pool.waiting(), 1);

    let Turn { next, .. } = turn.borrower.step(&mut pool, Signal::Connected);
    let lease = match next {
        Next::Ready(lease) => lease,
        other => panic!("unexpected {:?}", other),
    };
    let (session, operation) = first.session.step(Event::Acquired(lease));
    assert_eq!(second.session.phase(), Phase::Acquiring);
    assert_eq!(pool.in_use() + pool.idle() + pool.pending(), 1);

    let (verdict, wake) = finish(&mut pool, &mut backend, session, operation);
    assert_eq!(
        verdict,
        Ok(Reply::Fetched(GetResponse { id: "a".to_string(), status: "up".to_string() }))
    );
    let wake = wake.expect("the waiting request must be woken");
    assert!(matches!(wake, Wake::Lend { waiter: 2, .. }));
    assert_eq!(pool.in_use(), 1);

    let Turn { next, .. } = waiting.borrower.step(&mut pool, Signal::Woken(wake));
    let lease = match next {
        Next::Ready(lease) => lease,
        other => panic!("unexpected {:?}", other),
    };
    assert_eq!(lease.slot(), 0);
    let (session, operation) = second.session.step(Event::Acquired(lease));
    let (verdict, wake) = finish(&mut pool, &mut backend, session, operation);
    assert_eq!(
        verdict,
        Ok(Reply::Fetched(GetResponse { id: String::new(), status: String::new() }))
    );
    assert!(wake.is_none());
    assert_eq!(pool.idle(), 1);
    assert_eq!(pool.in_use(), 0);
    assert_eq!(pool.waiting(), 0);
}

#[test]
fn a_request_that_waits_too_long_ends_unavailable_and_borrows_nothing() {
    let config = PoolConfig { max_size: 1, acquire_timeout: 100, connect_attempts: 1 };
    let mut pool = Pool::new(config);
    let holder = Borrower::new(1).step(&mut pool, Signal::Begin { now: 0 });
    let holder = holder.borrower.step(&mut pool, Signal::Connected);
    assert!(matches!(holder.next, Next::Ready(_)));

    let task = begin(set_handler(SetRequest { id: "a".to_string(), status: "s".to_string() }), 2);
    let turn = task.borrower.unwrap().step(&mut pool, Signal::Begin { now: 10 });
    assert!(matches!(turn.next, Next::Wait { deadline: 110 }));
    let turn = turn.borrower.step(&mut pool, Signal::Deadline { now: 110 });
    let error = match turn.next {
        Next::Failed(error) => error,
        other => panic!("unexpected {:?}", other),
    };
    assert_eq!(error, PoolError::PoolExhausted);
    let (session, command) = task.session.step(Event::AcquireFailed(error));
    assert_eq!(session.phase(), Phase::Failed);
    match command {
        Command::Respond(Err(error)) => {
            assert_eq!(error.code, status_service::error::ErrorCode::BackendUnavailable);
            assert_eq!(error.message, "redis error");
        }
        other => panic!("unexpected {:?}", other),
    }
    assert_eq!(pool.in_use(), 1);
    assert_eq!(pool.waiting(), 0);
}

#[test]
fn a_connection_that_failed_is_replaced_for_the_request_that_waits() {
    let config = PoolConfig { max_size: 1, acquire_timeout: 100, connect_attempts: 1 };
    let mut pool = Pool::new(config);
    let mut backend = MemoryBackend::new();

    let first = begin(set_handler(SetRequest { id: "a".to_string(), status: "s".to_string() }), 1);
    let second = begin(get_handler(GetRequest { id: "a".to_string() }), 2);
    let turn = first.borrower.unwrap().step(&mut pool, Signal::Begin { now: 0 });
    let turn = turn.borrower.step(&mut pool, Signal::Connected);
    let lease = match turn.next {
        Next::Ready(lease) => lease,
        other => panic!("unexpected {:?}", other),
    };
    let waiting = second.borrower.unwrap().step(&mut pool, Signal::Begin { now: 0 });
    assert!(matches!(waiting.next, Next::Wait { .. }));

    let (session, _operation) = first.session.step(Event::Acquired(lease));
    let (session, command) = session.step(Event::BackendFailed(BackendError {}));
    let released = match command {
        Command::Release { lease, health } => {
            assert_eq!(health, Health::Broken);
            pool.release(lease, health).unwrap()
        }
        other => panic!("unexpected {:?}", other),
    };
    assert!(released.close);
    assert_eq!(pool.idle(), 0);
    assert_eq!(pool.slot(0), Some(Slot::Pending));
    let (_, command) = session.step(Event::Released);
    assert!(matches!(command, Command::Respond(Err(_))));

    let wake = released.wake.expect("the waiting request must be woken");
    assert!(matches!(wake, Wake::Create { waiter: 2, .. }));
    let turn = waiting.borrower.step(&mut pool, Signal::Woken(wake));
    assert!(matches!(turn.next, Next::Connect));
    let turn = turn.borrower.step(&mut pool, Signal::Connected);
    let lease = match turn.next {
        Next::Ready(lease) => lease,
        other => panic!("unexpected {:?}", other),
    };
    let (session, operation) = second.session.step(Event::Acquired(lease));
    let (verdict, _) = finish(&mut pool, &mut backend, session, operation);
    assert_eq!(
        verdict,
        Ok(Reply::Fetched(GetResponse { id: String::new(), status: String::new() }))
    );
    assert_eq!(pool.idle(), 1);
}
