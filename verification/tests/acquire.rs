use status_service::acquire::{Borrower, Next, Signal, Turn};
use status_service::pool::{Admission, Lease, Pool, Wake};
use status_service::pool_model::{Health, PoolConfig, PoolError, Slot};

fn config(max_size: usize) -> PoolConfig {
    PoolConfig { max_size, acquire_timeout: 40, connect_attempts: 2 }
}

fn borrow(pool: &mut Pool, label: u64) -> Lease {
    let turn = Borrower::new(label).step(pool, Signal::Begin { now: 0 });
    let turn = match turn.next {
        Next::Connect => turn.borrower.step(pool, Signal::Connected),
        _ => turn,
    };
    match turn.next {
        Next::Ready(lease) => lease,
        other => panic!("expected a connection, got {:?}", other),
    }
}

#[test]
fn a_borrower_opens_its_connection_and_has_it() {
    let mut pool = Pool::new(config(1));
    let borrower = Borrower::new(9);
    assert_eq!(borrower.label(), 9);
    let Turn { borrower, next, wake } = borrower.step(&mut pool, Signal::Begin { now: 3 });
    assert!(matches!(next, Next::Connect));
    assert!(wake.is_none());
    assert_eq!(pool.pending(), 1);
    let Turn { borrower, next, wake } = borrower.step(&mut pool, Signal::Connected);
    assert!(wake.is_none());
    match next {
        Next::Ready(lease) => assert_eq!(lease.slot(), 0),
        other => panic!("unexpected {:?}", other),
    }
    assert_eq!(pool.in_use(), 1);
    let turn = borrower.step(&mut pool, Signal::Connected);
    assert!(matches!(turn.next, Next::Ignored));
    assert_eq!(pool.in_use(), 1);
}

#[test]
fn a_borrower_is_lent_an_idle_connection_at_once() {
    let mut pool = Pool::new(config(1));
    let lease = borrow(&mut pool, 1);
    pool.release(lease, Health::Healthy).unwrap();
    let turn = Borrower::new(2).step(&mut pool, Signal::Begin { now: 0 });
    match turn.next {
        Next::Ready(lease) => assert_eq!(lease.slot(), 0),
        other => panic!("unexpected {:?}", other),
    }
}

#[test]
fn a_queued_borrower_gives_up_at_its_deadline_and_not_before() {
    let mut pool = Pool::new(config(1));
    let _held = borrow(&mut pool, 1);
    let turn = Borrower::new(2).step(&mut pool, Signal::Begin { now: 10 });
    assert!(matches!(turn.next, Next::Wait { deadline: 50 }));
    let turn = turn.borrower.step(&mut pool, Signal::Deadline { now: 49 });
    assert!(matches!(turn.next, Next::Wait { deadline: 50 }));
    assert_eq!(pool.waiting(), 1);
    let turn = turn.borrower.step(&mut pool, Signal::Deadline { now: 50 });
    assert!(matches!(turn.next, Next::Failed(PoolError::PoolExhausted)));
    assert_eq!(pool.waiting(), 0);
    assert_eq!(pool.in_use(), 1);
}

#[test]
fn a_queued_borrower_is_woken_with_the_released_connection() {
    let mut pool = Pool::new(config(1));
    let held = borrow(&mut pool, 1);
    let second = Borrower::new(2).step(&mut pool, Signal::Begin { now: 0 });
    assert!(matches!(second.next, Next::Wait { deadline: 40 }));
    let wake = pool.release(held, Health::Healthy).unwrap().wake.unwrap();
    assert!(matches!(wake, Wake::Lend { waiter: 2, .. }));
    let turn = second.borrower.step(&mut pool, Signal::Woken(wake));
    match turn.next {
        Next::Ready(lease) => {
            assert_eq!(lease.slot(), 0);
            pool.release(lease, Health::Healthy).unwrap();
        }
        other => panic!("unexpected {:?}", other),
    }
    assert_eq!(pool.idle(), 1);
}

#[test]
fn a_borrower_woken_after_a_broken_release_opens_the_replacement() {
    let mut pool = Pool::new(config(1));
    let held = borrow(&mut pool, 1);
    let second = Borrower::new(2).step(&mut pool, Signal::Begin { now: 0 });
    let wake = pool.release(held, Health::Broken).unwrap().wake.unwrap();
    let turn = second.borrower.step(&mut pool, Signal::Woken(wake));
    assert!(matches!(turn.next, Next::Connect));
    let turn = turn.borrower.step(&mut pool, Signal::Connected);
    assert!(matches!(turn.next, Next::Ready(_)));
    assert_eq!(pool.in_use(), 1);
}

#[test]
fn a_borrower_whose_deadline_fires_after_it_was_served_awaits_its_wake() {
    let mut pool = Pool::new(config(1));
    let held = borrow(&mut pool, 1);
    let second = Borrower::new(2).step(&mut pool, Signal::Begin { now: 0 });
    let wake = pool.release(held, Health::Healthy).unwrap().wake.unwrap();
    let turn = second.borrower.step(&mut pool, Signal::Deadline { now: 40 });
    assert!(matches!(turn.next, Next::Await));
    let turn = turn.borrower.step(&mut pool, Signal::Woken(wake));
    assert!(matches!(turn.next, Next::Ready(_)));
}

#[test]
fn repeated_failures_to_open_end_with_backend_unreachable() {
    let mut pool = Pool::new(config(1));
    let turn = Borrower::new(1).step(&mut pool, Signal::Begin { now: 0 });
    assert!(matches!(turn.next, Next::Connect));
    let turn = turn.borrower.step(&mut pool, Signal::ConnectFailed);
    assert!(matches!(turn.next, Next::Connect));
    assert_eq!(pool.pending(), 1);
    let turn = turn.borrower.step(&mut pool, Signal::ConnectFailed);
    assert!(matches!(turn.next, Next::Failed(PoolError::BackendUnreachable)));
    assert!(turn.wake.is_none());
    assert_eq!(pool.pending(), 0);
    assert_eq!(pool.slot(0), Some(Slot::Vacant));
}

#[test]
fn a_borrower_that_gives_up_opening_passes_its_place_to_the_waiter() {
    let mut pool = Pool::new(PoolConfig { max_size: 1, acquire_timeout: 40, connect_attempts: 1 });
    let first = Borrower::new(1).step(&mut pool, Signal::Begin { now: 0 });
    let second = Borrower::new(2).step(&mut pool, Signal::Begin { now: 0 });
    assert!(matches!(second.next, Next::Wait { .. }));
    let turn = first.borrower.step(&mut pool, Signal::ConnectFailed);
    assert!(matches!(turn.next, Next::Failed(PoolError::BackendUnreachable)));
    match turn.wake {
        Some(Wake::Create { waiter, permit }) => {
            assert_eq!((waiter, permit.slot()), (2, 0));
            let turn = second.borrower.step(&mut pool, Signal::Woken(Wake::Create { waiter, permit }));
            assert!(matches!(turn.next, Next::Connect));
        }
        other => panic!("unexpected {:?}", other),
    }
}

#[test]
fn a_cancelled_borrower_leaves_nothing_behind() {
    let mut pool = Pool::new(config(1));
    let turn = Borrower::new(1).step(&mut pool, Signal::Begin { now: 0 });
    let turn = turn.borrower.step(&mut pool, Signal::Cancelled);
    assert!(matches!(turn.next, Next::Stopped));
    assert_eq!(pool.pending(), 0);
    assert_eq!(pool.slot(0), Some(Slot::Vacant));

    let _held = borrow(&mut pool, 2);
    let queued = Borrower::new(3).step(&mut pool, Signal::Begin { now: 0 });
    assert_eq!(pool.waiting(), 1);
    let turn = queued.borrower.step(&mut pool, Signal::Cancelled);
    assert!(matches!(turn.next, Next::Stopped));
    assert_eq!(pool.waiting(), 0);

    let turn = Borrower::new(4).step(&mut pool, Signal::Cancelled);
    assert!(matches!(turn.next, Next::Stopped));
    let turn = turn.borrower.step(&mut pool, Signal::Begin { now: 0 });
    assert!(matches!(turn.next, Next::Ignored));
    assert_eq!(pool.waiting(), 0);
}

#[test]
fn a_wake_that_reaches_the_wrong_borrower_goes_back_to_the_pool() {
    let mut pool = Pool::new(config(1));
    let held = borrow(&mut pool, 1);
    assert!(matches!(pool.request(2, 0), Admission::Wait { .. }));
    let wake = pool.release(held, Health::Healthy).unwrap().wake.unwrap();
    let stranger = Borrower::new(7);
    let turn = stranger.step(&mut pool, Signal::Woken(wake));
    assert!(matches!(turn.next, Next::Ignored));
    assert!(turn.wake.is_none());
    assert_eq!(pool.in_use(), 0);
    assert_eq!(pool.idle(), 1);
}
