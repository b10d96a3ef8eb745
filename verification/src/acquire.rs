//! Borrowing a connection, one decision at a time.
//!
//! To borrow a connection may take opening one, more than once, or waiting
//! for another borrower. An [`Borrower`] holds how far one borrower has
//! come. Its caller opens connections, sleeps and delivers wake-ups, and
//! tells it each time what happened.

use crate::pool::{wake_view, Admission, Lease, Patience, Permit, Pool, Setback, Wake};
use crate::pool_model::{
    AdmissionView, Health, PatienceView, PermitView, PoolError, PoolOp, PoolState, SetbackView,
    WakeView,
};
use vstd::prelude::*;

verus! {

/// How far a borrower has come.
#[derive(Debug)]
enum Stage {
    Fresh,
    Connecting(Permit),
    Waiting,
    Finished,
}

/// How far a borrower has come, as a plain value.
pub enum StageView {
    /// It has not asked the pool yet.
    Fresh,
    /// It is opening a connection under this permit.
    Connecting(PermitView),
    /// It is queued.
    Waiting,
    /// It has its connection, or has given up.
    Finished,
}

/// One borrower on its way to a connection.
#[derive(Debug)]
pub struct Borrower {
    label: u64,
    stage: Stage,
}

/// A borrower as a plain value.
pub struct BorrowerView {
    /// The name under which the borrower is queued and woken.
    pub label: u64,
    pub stage: StageView,
}

impl View for Borrower {
    type V = BorrowerView;

    closed spec fn view(&self) -> BorrowerView {
        BorrowerView {
            label: self.label,
            stage: match self.stage {
                Stage::Fresh => StageView::Fresh,
                Stage::Connecting(permit) => StageView::Connecting(permit@),
                Stage::Waiting => StageView::Waiting,
                Stage::Finished => StageView::Finished,
            },
        }
    }
}

/// What the borrower learns from its caller.
#[derive(Debug)]
pub enum Signal {
    /// The borrower starts, at this time.
    Begin { now: u64 },
    /// The connection it was opening is open.
    Connected,
    /// The connection it was opening could not be opened.
    ConnectFailed,
    /// Another borrower's release has woken it.
    Woken(Wake),
    /// It has slept until this time.
    Deadline { now: u64 },
    /// Its caller has gone away.
    Cancelled,
}

/// A signal as a plain value.
pub enum SignalView {
    Begin { now: u64 },
    Connected,
    ConnectFailed,
    Woken(WakeView),
    Deadline { now: u64 },
    Cancelled,
}

impl View for Signal {
    type V = SignalView;

    open spec fn view(&self) -> SignalView {
        match *self {
            Signal::Begin { now } => SignalView::Begin { now },
            Signal::Connected => SignalView::Connected,
            Signal::ConnectFailed => SignalView::ConnectFailed,
            Signal::Woken(wake) => SignalView::Woken(wake@),
            Signal::Deadline { now } => SignalView::Deadline { now },
            Signal::Cancelled => SignalView::Cancelled,
        }
    }
}

/// What the borrower's caller does next.
#[derive(Debug)]
pub enum Next {
    /// Open a connection, and signal `Connected` or `ConnectFailed`.
    Connect,
    /// Sleep until woken, or until `deadline`, and signal which.
    Wait { deadline: u64 },
    /// Sleep until woken: a wake-up is on its way.
    Await,
    /// The borrower has this connection.
    Ready(Lease),
    /// The borrower gets no connection.
    Failed(PoolError),
    /// The borrower has withdrawn.
    Stopped,
    /// Nothing: the signal was not expected and changes nothing for this
    /// borrower.
    Ignored,
}

/// The caller's next task as a plain value.
pub enum NextView {
    Connect,
    Wait { deadline: u64 },
    Await,
    Ready(int),
    Failed(PoolError),
    Stopped,
    Ignored,
}

impl View for Next {
    type V = NextView;

    open spec fn view(&self) -> NextView {
        match *self {
            Next::Connect => NextView::Connect,
            Next::Wait { deadline } => NextView::Wait { deadline },
            Next::Await => NextView::Await,
            Next::Ready(lease) => NextView::Ready(lease@),
            Next::Failed(error) => NextView::Failed(error),
            Next::Stopped => NextView::Stopped,
            Next::Ignored => NextView::Ignored,
        }
    }
}

/// What one signal comes to.
#[derive(Debug)]
pub struct Turn {
    /// The borrower after the signal.
    pub borrower: Borrower,
    /// What its caller does next.
    pub next: Next,
    /// Another borrower to wake, and with what.
    pub wake: Option<Wake>,
}

/// What one signal comes to, as a plain value.
pub struct TurnView {
    pub borrower: BorrowerView,
    /// The pool after the signal.
    pub pool: PoolState,
    pub next: NextView,
    pub wake: Option<WakeView>,
}

/// The pool after a handle that nobody can use was given back to it: a
/// lease as after a healthy release, a permit as after giving it up.
pub open spec fn returned(pool: PoolState, wake: WakeView) -> PoolState {
    match wake {
        WakeView::Lend { waiter, slot } => pool.apply(
            PoolOp::Release { slot, health: Health::Healthy },
        ),
        WakeView::Create { waiter, permit } => pool.apply(PoolOp::Abandon { slot: permit.slot }),
    }
}

/// The wake-up that follows when a handle that nobody can use is given
/// back to the pool.
pub open spec fn passed_on(pool: PoolState, wake: WakeView) -> Option<WakeView> {
    match wake {
        WakeView::Lend { waiter, slot } => match pool.released(slot, Health::Healthy) {
            Ok(released) => released.wake,
            Err(_) => None,
        },
        WakeView::Create { waiter, permit } => match pool.abandoned(permit) {
            Ok(wake) => wake,
            Err(_) => None,
        },
    }
}

impl BorrowerView {
    /// A borrower that has not asked yet.
    pub open spec fn fresh(label: u64) -> BorrowerView {
        BorrowerView { label, stage: StageView::Fresh }
    }

    /// This borrower at another stage.
    pub open spec fn at(self, stage: StageView) -> BorrowerView {
        BorrowerView { label: self.label, stage }
    }

    /// The outcome in which the signal changes nothing.
    pub open spec fn ignored(self, pool: PoolState) -> TurnView {
        TurnView { borrower: self, pool, next: NextView::Ignored, wake: None }
    }

    /// The outcome with which the borrower is through.
    pub open spec fn finished(self, pool: PoolState, next: NextView, wake: Option<WakeView>) -> TurnView {
        TurnView { borrower: self.at(StageView::Finished), pool, next, wake }
    }

    /// What `signal` comes to for a borrower that has not asked yet:
    /// beginning, it asks the pool and does what the pool tells it.
    pub open spec fn step_fresh(self, pool: PoolState, signal: SignalView) -> TurnView {
        match signal {
            SignalView::Begin { now } => {
                let after = pool.apply(PoolOp::Request { waiter: self.label, now });
                match pool.admission(now) {
                    AdmissionView::Lend(slot) => self.finished(after, NextView::Ready(slot), None),
                    AdmissionView::Create(permit) => TurnView {
                        borrower: self.at(StageView::Connecting(permit)),
                        pool: after,
                        next: NextView::Connect,
                        wake: None,
                    },
                    AdmissionView::Wait { deadline } => TurnView {
                        borrower: self.at(StageView::Waiting),
                        pool: after,
                        next: NextView::Wait { deadline },
                        wake: None,
                    },
                }
            },
            SignalView::Cancelled => self.finished(pool, NextView::Stopped, None),
            _ => self.ignored(pool),
        }
    }

    /// What `signal` comes to for a borrower that is opening a connection
    /// under `permit`: the open connection is its own; after a failure it
    /// tries again or gives up, as the pool decides; withdrawing, it gives
    /// the permit up.
    pub open spec fn step_connecting(self, permit: PermitView, pool: PoolState, signal: SignalView) -> TurnView {
        match signal {
            SignalView::Connected => match pool.connection(permit) {
                Ok(slot) => self.finished(
                    pool.apply(PoolOp::Connected { slot: permit.slot }),
                    NextView::Ready(slot),
                    None,
                ),
                Err(error) => self.finished(pool, NextView::Failed(error), None),
            },
            SignalView::ConnectFailed => match pool.setback(permit) {
                Ok(SetbackView::Retry(again)) => TurnView {
                    borrower: self.at(StageView::Connecting(again)),
                    pool,
                    next: NextView::Connect,
                    wake: None,
                },
                Ok(SetbackView::GaveUp(wake)) => self.finished(
                    pool.apply(PoolOp::ConnectFailed { permit }),
                    NextView::Failed(PoolError::BackendUnreachable),
                    wake,
                ),
                Err(error) => self.finished(pool, NextView::Failed(error), None),
            },
            SignalView::Cancelled => match pool.abandoned(permit) {
                Ok(wake) => self.finished(
                    pool.apply(PoolOp::Abandon { slot: permit.slot }),
                    NextView::Stopped,
                    wake,
                ),
                Err(_) => self.finished(pool, NextView::Stopped, None),
            },
            _ => self.ignored(pool),
        }
    }

    /// What `signal` comes to for a queued borrower: woken, it takes the
    /// connection or the permit; at its deadline it gives up; before that
    /// it waits on; withdrawing, it leaves the queue whatever its
    /// deadline.
    pub open spec fn step_waiting(self, pool: PoolState, signal: SignalView) -> TurnView {
        match signal {
            SignalView::Woken(WakeView::Lend { waiter, slot }) => self.finished(
                pool,
                NextView::Ready(slot),
                None,
            ),
            SignalView::Woken(WakeView::Create { waiter, permit }) => TurnView {
                borrower: self.at(StageView::Connecting(permit)),
                pool,
                next: NextView::Connect,
                wake: None,
            },
            SignalView::Deadline { now } => {
                let after = pool.apply(PoolOp::Expire { waiter: self.label, now });
                match pool.patience(self.label, now) {
                    Err(error) => self.finished(after, NextView::Failed(error), None),
                    Ok(PatienceView::Waiting { deadline }) => TurnView {
                        borrower: self,
                        pool: after,
                        next: NextView::Wait { deadline },
                        wake: None,
                    },
                    Ok(PatienceView::Served) => TurnView {
                        borrower: self,
                        pool: after,
                        next: NextView::Await,
                        wake: None,
                    },
                }
            },
            SignalView::Cancelled => self.finished(
                pool.apply(PoolOp::Expire { waiter: self.label, now: u64::MAX }),
                NextView::Stopped,
                None,
            ),
            _ => self.ignored(pool),
        }
    }

    /// What `signal` comes to.
    ///
    /// A wake-up that reaches a borrower that is not queued is given back
    /// to the pool, and with it the connection or the permit it carries.
    pub open spec fn step(self, pool: PoolState, signal: SignalView) -> TurnView {
        match self.stage {
            StageView::Waiting => self.step_waiting(pool, signal),
            _ => match signal {
                SignalView::Woken(wake) => TurnView {
                    borrower: self,
                    pool: returned(pool, wake),
                    next: NextView::Ignored,
                    wake: passed_on(pool, wake),
                },
                _ => match self.stage {
                    StageView::Fresh => self.step_fresh(pool, signal),
                    StageView::Connecting(permit) => self.step_connecting(permit, pool, signal),
                    _ => self.ignored(pool),
                },
            },
        }
    }
}

/// Gives a handle that nobody can use back to the pool.
fn give_back(pool: &mut Pool, wake: Wake) -> (next: Option<Wake>)
    ensures
        final(pool)@ == returned(old(pool)@, wake@),
        wake_view(next) == passed_on(old(pool)@, wake@),
{
    match wake {
        Wake::Lend { waiter, lease } => match pool.release(lease, Health::Healthy) {
            Ok(released) => released.wake,
            Err(_) => None,
        },
        Wake::Create { waiter, permit } => match pool.abandon(permit) {
            Ok(wake) => wake,
            Err(_) => None,
        },
    }
}

impl Borrower {
    /// A borrower that will be queued and woken under `label`.
    pub fn new(label: u64) -> (borrower: Borrower)
        ensures
            borrower@ == BorrowerView::fresh(label),
    {
        Borrower { label, stage: Stage::Fresh }
    }

    /// The name under which the borrower is queued and woken.
    pub fn label(&self) -> (label: u64)
        ensures
            label == self@.label,
    {
        self.label
    }

    /// Takes `signal` in, does on `pool` what it calls for, and says what
    /// to do next; see [`BorrowerView::step`].
    pub fn step(self, pool: &mut Pool, signal: Signal) -> (turn: Turn)
        ensures
            final(pool)@ == self@.step(old(pool)@, signal@).pool,
            turn.borrower@ == self@.step(old(pool)@, signal@).borrower,
            turn.next@ == self@.step(old(pool)@, signal@).next,
            wake_view(turn.wake) == self@.step(old(pool)@, signal@).wake,
    {
        let Borrower { label, stage } = self;
        match stage {
            Stage::Waiting => match signal {
                Signal::Woken(Wake::Lend { waiter, lease }) => Turn {
                    borrower: Borrower { label, stage: Stage::Finished },
                    next: Next::Ready(lease),
                    wake: None,
                },
                Signal::Woken(Wake::Create { waiter, permit }) => Turn {
                    borrower: Borrower { label, stage: Stage::Connecting(permit) },
                    next: Next::Connect,
                    wake: None,
                },
                Signal::Deadline { now } => match pool.expire(label, now) {
                    Err(error) => Turn {
                        borrower: Borrower { label, stage: Stage::Finished },
                        next: Next::Failed(error),
                        wake: None,
                    },
                    Ok(Patience::Waiting { deadline }) => Turn {
                        borrower: Borrower { label, stage: Stage::Waiting },
                        next: Next::Wait { deadline },
                        wake: None,
                    },
                    Ok(Patience::Served) => Turn {
                        borrower: Borrower { label, stage: Stage::Waiting },
                        next: Next::Await,
                        wake: None,
                    },
                },
                Signal::Cancelled => {
                    let _ = pool.expire(label, u64::MAX);
                    Turn {
                        borrower: Borrower { label, stage: Stage::Finished },
                        next: Next::Stopped,
                        wake: None,
                    }
                },
                _ => Turn {
                    borrower: Borrower { label, stage: Stage::Waiting },
                    next: Next::Ignored,
                    wake: None,
                },
            },
            stage => match signal {
                Signal::Woken(wake) => {
                    let next = give_back(pool, wake);
                    Turn { borrower: Borrower { label, stage }, next: Next::Ignored, wake: next }
                },
                signal => match stage {
                    Stage::Fresh => match signal {
                        Signal::Begin { now } => match pool.request(label, now) {
                            Admission::Lend(lease) => Turn {
                                borrower: Borrower { label, stage: Stage::Finished },
                                next: Next::Ready(lease),
                                wake: None,
                            },
                            Admission::Create(permit) => Turn {
                                borrower: Borrower { label, stage: Stage::Connecting(permit) },
                                next: Next::Connect,
                                wake: None,
                            },
                            Admission::Wait { deadline } => Turn {
                                borrower: Borrower { label, stage: Stage::Waiting },
                                next: Next::Wait { deadline },
                                wake: None,
                            },
                        },
                        Signal::Cancelled => Turn {
                            borrower: Borrower { label, stage: Stage::Finished },
                            next: Next::Stopped,
                            wake: None,
                        },
                        _ => Turn {
                            borrower: Borrower { label, stage: Stage::Fresh },
                            next: Next::Ignored,
                            wake: None,
                        },
                    },
                    Stage::Connecting(permit) => match signal {
                        Signal::Connected => match pool.connected(permit) {
                            Ok(lease) => Turn {
                                borrower: Borrower { label, stage: Stage::Finished },
                                next: Next::Ready(lease),
                                wake: None,
                            },
                            Err(error) => Turn {
                                borrower: Borrower { label, stage: Stage::Finished },
                                next: Next::Failed(error),
                                wake: None,
                            },
                        },
                        Signal::ConnectFailed => match pool.connect_failed(permit) {
                            Ok(Setback::Retry(again)) => Turn {
                                borrower: Borrower { label, stage: Stage::Connecting(again) },
                                next: Next::Connect,
                                wake: None,
                            },
                            Ok(Setback::GaveUp(wake)) => Turn {
                                borrower: Borrower { label, stage: Stage::Finished },
                                next: Next::Failed(PoolError::BackendUnreachable),
                                wake,
                            },
                            Err(error) => Turn {
                                borrower: Borrower { label, stage: Stage::Finished },
                                next: Next::Failed(error),
                                wake: None,
                            },
                        },
                        Signal::Cancelled => match pool.abandon(permit) {
                            Ok(wake) => Turn {
                                borrower: Borrower { label, stage: Stage::Finished },
                                next: Next::Stopped,
                                wake,
                            },
                            Err(_) => Turn {
                                borrower: Borrower { label, stage: Stage::Finished },
                                next: Next::Stopped,
                                wake: None,
                            },
                        },
                        _ => Turn {
                            borrower: Borrower { label, stage: Stage::Connecting(permit) },
                            next: Next::Ignored,
                            wake: None,
                        },
                    },
                    stage => Turn {
                        borrower: Borrower { label, stage },
                        next: Next::Ignored,
                        wake: None,
                    },
                },
            },
        }
    }
}

} // verus!
