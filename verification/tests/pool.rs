use status_service::pool::{deadline, Admission, Lease, Patience, Permit, Pool, Setback, Wake};
use status_service::pool_model::{Health, PoolConfig, PoolError, Slot};

fn config(max_size: usize) -> PoolConfig {
    PoolConfig { max_size, acquire_timeout: 50, connect_attempts: 3 }
}

fn permit_of(admission: Admission) -> Permit {
    match admission {
        Admission::Create(permit) => permit,
        other => panic!("expected a permit, got {:?}", other),
    }
}

fn lease_of(admission: Admission) -> Lease {
    match admission {
        Admission::Lend(lease) => lease,
        other => panic!("expected a lease, got {:?}", other),
    }
}

fn open_one(pool: &mut Pool, waiter: u64, now: u64) -> Lease {
    let permit = permit_of(pool.request(waiter, now));
    pool.connected(permit).unwrap()
}

#[test]
fn new_pool_holds_nothing() {
    let pool = Pool::new(config(4));
    assert_eq!(pool.in_use(), 0);
    assert_eq!(pool.idle(), 0);
    assert_eq!(pool.pending(), 0);
    assert_eq!(pool.waiting(), 0);
    assert_eq!(pool.slot(0), None);
    assert_eq!(pool.config(), config(4));
}

#[test]
fn first_request_opens_a_connection() {
    let mut pool = Pool::new(config(2));
    let permit = permit_of(pool.request(1, 0));
    assert_eq!(permit.slot(), 0);
    assert_eq!(permit.failures(), 0);
    assert_eq!(pool.pending(), 1);
    assert_eq!(pool.slot(0), Some(Slot::Pending));
    let lease = pool.connected(permit).unwrap();
    assert_eq!(lease.slot(), 0);
    assert_eq!(pool.in_use(), 1);
    assert_eq!(pool.pending(), 0);
    assert_eq!(pool.slot(0), Some(Slot::InUse));
}

#[test]
fn pool_never_exceeds_max_size() {
    let mut pool = Pool::new(config(2));
    let a = open_one(&mut pool, 1, 0);
    let b = permit_of(pool.request(2, 1));
    assert_eq!((a.slot(), b.slot()), (0, 1));
    for waiter in 3..10u64 {
        match pool.request(waiter, 2) {
            Admission::Wait { deadline } => assert_eq!(deadline, 52),
            other => panic!("expected a wait, got {:?}", other),
        }
        assert!(pool.in_use() + pool.idle() + pool.pending() <= 2);
    }
    assert_eq!(pool.in_use(), 1);
    assert_eq!(pool.pending(), 1);
    assert_eq!(pool.waiting(), 7);
}

#[test]
fn healthy_release_makes_the_connection_idle_and_it_is_lent_again() {
    let mut pool = Pool::new(config(2));
    let lease = open_one(&mut pool, 1, 0);
    let released = pool.release(lease, Health::Healthy).unwrap();
    assert!(!released.close);
    assert!(released.wake.is_none());
    assert_eq!(pool.idle(), 1);
    assert_eq!(pool.in_use(), 0);
    let again = lease_of(pool.request(2, 5));
    assert_eq!(again.slot(), 0);
    assert_eq!(pool.idle(), 0);
    assert_eq!(pool.in_use(), 1);
}

#[test]
fn broken_release_evicts_and_the_next_borrower_opens_a_new_connection() {
    let mut pool = Pool::new(config(1));
    let lease = open_one(&mut pool, 1, 0);
    let released = pool.release(lease, Health::Broken).unwrap();
    assert!(released.close);
    assert!(released.wake.is_none());
    assert_eq!(pool.slot(0), Some(Slot::Vacant));
    assert_eq!(pool.idle(), 0);
    assert_eq!(pool.in_use(), 0);
    match pool.request(2, 1) {
        Admission::Create(permit) => assert_eq!((permit.slot(), permit.failures()), (0, 0)),
        other => panic!("the broken connection must not be lent: {:?}", other),
    }
}

#[test]
fn broken_release_lets_the_first_waiter_open_the_replacement() {
    let mut pool = Pool::new(config(1));
    let lease = open_one(&mut pool, 1, 0);
    assert!(matches!(pool.request(2, 3), Admission::Wait { deadline: 53 }));
    let released = pool.release(lease, Health::Broken).unwrap();
    assert!(released.close);
    match released.wake {
        Some(Wake::Create { waiter, permit }) => {
            assert_eq!(waiter, 2);
            assert_eq!((permit.slot(), permit.failures()), (0, 0));
            assert_eq!(pool.slot(0), Some(Slot::Pending));
            assert_eq!(pool.waiting(), 0);
            let fresh = pool.connected(permit).unwrap();
            assert_eq!(fresh.slot(), 0);
        }
        other => panic!("expected a permit for the waiter, got {:?}", other),
    }
}

#[test]
fn a_lease_that_is_not_lent_is_refused() {
    let mut lender = Pool::new(config(1));
    let mut other = Pool::new(config(1));
    let lease = open_one(&mut lender, 1, 0);
    assert_eq!(other.release(lease, Health::Healthy).unwrap_err(), PoolError::DoubleRelease);
    assert_eq!(other.in_use(), 0);
    assert_eq!(other.idle(), 0);
    assert_eq!(other.slot(0), None);

    let stale = open_one(&mut other, 1, 0);
    let current = open_one(&mut Pool::new(config(1)), 1, 0);
    other.release(stale, Health::Healthy).unwrap();
    assert_eq!(other.idle(), 1);
    assert_eq!(other.release(current, Health::Healthy).unwrap_err(), PoolError::DoubleRelease);
    assert_eq!(other.idle(), 1);
    assert_eq!(other.slot(0), Some(Slot::Idle));
}

#[test]
fn a_permit_that_is_not_pending_is_refused() {
    let mut pool = Pool::new(config(1));
    let mut other = Pool::new(config(1));
    let permit = permit_of(other.request(1, 0));
    assert_eq!(pool.connected(permit).unwrap_err(), PoolError::DoubleRelease);
    let permit = permit_of(Pool::new(config(1)).request(1, 0));
    assert_eq!(pool.connect_failed(permit).unwrap_err(), PoolError::DoubleRelease);
    let permit = permit_of(Pool::new(config(1)).request(1, 0));
    assert_eq!(pool.abandon(permit).unwrap_err(), PoolError::DoubleRelease);
    assert_eq!(pool.pending(), 0);
    assert_eq!(pool.slot(0), None);
}

#[test]
fn with_one_connection_two_borrowers_are_served_in_turn() {
    let mut pool = Pool::new(config(1));
    let first = open_one(&mut pool, 10, 0);
    match pool.request(20, 1) {
        Admission::Wait { deadline } => assert_eq!(deadline, 51),
        other => panic!("the second borrower must wait, got {:?}", other),
    }
    assert_eq!(pool.expire(20, 2), Ok(Patience::Waiting { deadline: 51 }));
    let released = pool.release(first, Health::Healthy).unwrap();
    assert!(!released.close);
    let second = match released.wake {
        Some(Wake::Lend { waiter, lease }) => {
            assert_eq!(waiter, 20);
            lease
        }
        other => panic!("the connection must go to the waiter, got {:?}", other),
    };
    assert_eq!(second.slot(), 0);
    assert_eq!(pool.in_use(), 1);
    assert_eq!(pool.waiting(), 0);
    assert_eq!(pool.expire(20, 1000), Ok(Patience::Served));
    let released = pool.release(second, Health::Healthy).unwrap();
    assert!(released.wake.is_none());
    assert_eq!(pool.idle(), 1);
    assert_eq!(pool.in_use(), 0);
}

#[test]
fn waiters_are_served_first_come_first_served() {
    let mut pool = Pool::new(config(2));
    let a = open_one(&mut pool, 1, 0);
    let b = open_one(&mut pool, 2, 0);
    assert!(matches!(pool.request(30, 1), Admission::Wait { .. }));
    assert!(matches!(pool.request(40, 2), Admission::Wait { .. }));
    assert!(matches!(pool.request(50, 3), Admission::Wait { .. }));
    match pool.release(b, Health::Healthy).unwrap().wake {
        Some(Wake::Lend { waiter, lease }) => assert_eq!((waiter, lease.slot()), (30, 1)),
        other => panic!("unexpected {:?}", other),
    }
    match pool.release(a, Health::Broken).unwrap().wake {
        Some(Wake::Create { waiter, permit }) => assert_eq!((waiter, permit.slot()), (40, 0)),
        other => panic!("unexpected {:?}", other),
    }
    assert_eq!(pool.waiting(), 1);
    assert_eq!(pool.expire(50, 4), Ok(Patience::Waiting { deadline: 53 }));
}

#[test]
fn a_wait_ends_with_pool_exhausted_at_its_deadline() {
    let mut pool = Pool::new(PoolConfig { max_size: 1, acquire_timeout: 30, connect_attempts: 1 });
    let _held = open_one(&mut pool, 1, 0);
    assert!(matches!(pool.request(2, 100), Admission::Wait { deadline: 130 }));
    assert_eq!(pool.expire(2, 100), Ok(Patience::Waiting { deadline: 130 }));
    assert_eq!(pool.expire(2, 129), Ok(Patience::Waiting { deadline: 130 }));
    assert_eq!(pool.waiting(), 1);
    assert_eq!(pool.expire(2, 130), Err(PoolError::PoolExhausted));
    assert_eq!(pool.waiting(), 0);
    assert_eq!(pool.expire(2, 131), Ok(Patience::Served));
    assert_eq!(pool.in_use(), 1);
}

#[test]
fn a_pool_without_room_only_lets_borrowers_wait() {
    let mut pool = Pool::new(config(0));
    assert!(matches!(pool.request(1, 7), Admission::Wait { deadline: 57 }));
    assert_eq!(pool.expire(1, 57), Err(PoolError::PoolExhausted));
    assert_eq!(pool.waiting(), 0);
}

#[test]
fn deadline_is_arrival_plus_timeout_and_stops_at_the_largest_time() {
    assert_eq!(deadline(100, 30), 130);
    assert_eq!(deadline(0, 0), 0);
    assert_eq!(deadline(u64::MAX - 5, 5), u64::MAX);
    assert_eq!(deadline(u64::MAX - 5, 6), u64::MAX);
    assert_eq!(deadline(u64::MAX, u64::MAX), u64::MAX);
}

#[test]
fn expire_takes_the_first_waiter_of_that_name_only() {
    let mut pool = Pool::new(config(0));
    pool.request(5, 0);
    pool.request(6, 10);
    pool.request(5, 20);
    assert_eq!(pool.expire(5, 60), Err(PoolError::PoolExhausted));
    assert_eq!(pool.waiting(), 2);
    assert_eq!(pool.expire(5, 60), Ok(Patience::Waiting { deadline: 70 }));
    assert_eq!(pool.expire(6, 60), Err(PoolError::PoolExhausted));
    assert_eq!(pool.expire(7, 60), Ok(Patience::Served));
    assert_eq!(pool.waiting(), 1);
}

#[test]
fn opening_is_retried_until_the_attempts_are_used_up() {
    let mut pool = Pool::new(config(1));
    let permit = permit_of(pool.request(1, 0));
    let permit = match pool.connect_failed(permit).unwrap() {
        Setback::Retry(permit) => permit,
        other => panic!("expected a retry, got {:?}", other),
    };
    assert_eq!((permit.slot(), permit.failures()), (0, 1));
    assert_eq!(pool.pending(), 1);
    let permit = match pool.connect_failed(permit).unwrap() {
        Setback::Retry(permit) => permit,
        other => panic!("expected a retry, got {:?}", other),
    };
    assert_eq!(permit.failures(), 2);
    match pool.connect_failed(permit).unwrap() {
        Setback::GaveUp(None) => {}
        other => panic!("expected the borrower to give up, got {:?}", other),
    }
    assert_eq!(pool.pending(), 0);
    assert_eq!(pool.slot(0), Some(Slot::Vacant));
}

#[test]
fn with_no_attempts_configured_the_first_failure_is_final() {
    let mut pool = Pool::new(PoolConfig { max_size: 1, acquire_timeout: 1, connect_attempts: 0 });
    let permit = permit_of(pool.request(1, 0));
    assert!(matches!(pool.connect_failed(permit).unwrap(), Setback::GaveUp(None)));
    let mut pool = Pool::new(PoolConfig { max_size: 1, acquire_timeout: 1, connect_attempts: 1 });
    let permit = permit_of(pool.request(1, 0));
    assert!(matches!(pool.connect_failed(permit).unwrap(), Setback::GaveUp(None)));
}

#[test]
fn a_place_given_up_goes_to_the_first_waiter() {
    let mut pool = Pool::new(config(1));
    let permit = permit_of(pool.request(1, 0));
    assert!(matches!(pool.request(2, 0), Admission::Wait { .. }));
    match pool.abandon(permit).unwrap() {
        Some(Wake::Create { waiter, permit }) => {
            assert_eq!((waiter, permit.slot(), permit.failures()), (2, 0, 0));
        }
        other => panic!("unexpected {:?}", other),
    }
    assert_eq!(pool.pending(), 1);
    assert_eq!(pool.waiting(), 0);
}

#[test]
fn a_vacant_place_is_filled_before_a_new_one_is_added() {
    let mut pool = Pool::new(config(3));
    let a = open_one(&mut pool, 1, 0);
    let _b = open_one(&mut pool, 2, 0);
    pool.release(a, Health::Broken).unwrap();
    assert_eq!(pool.slot(0), Some(Slot::Vacant));
    let permit = permit_of(pool.request(3, 0));
    assert_eq!(permit.slot(), 0);
    let permit = permit_of(pool.request(4, 0));
    assert_eq!(permit.slot(), 2);
    assert!(matches!(pool.request(5, 0), Admission::Wait { .. }));
}
