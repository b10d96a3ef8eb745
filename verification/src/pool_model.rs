//! The pool as a mathematical state machine: what it holds, and what each
//! operation makes of it.

use crate::search::{count, first_index};
use vstd::prelude::*;

verus! {

/// Whether a connection may be reused after its borrower is done with it.
#[derive(Clone, Copy, Debug, PartialEq, Eq, Structural)]
pub enum Health {
    /// The last operation went through; the connection may serve again.
    Healthy,
    /// The last operation failed; the session must be closed.
    Broken,
}

/// What one place of the pool holds.
#[derive(Clone, Copy, Debug, PartialEq, Eq, Structural)]
pub enum Slot {
    /// No connection, and nobody is opening one.
    Vacant,
    /// A borrower is opening a connection for this place.
    Pending,
    /// An open connection that nobody has borrowed.
    Idle,
    /// An open connection in the hands of one borrower.
    InUse,
}

/// A borrower that is suspended until a connection is free.
#[derive(Clone, Copy, Debug, PartialEq, Eq, Structural)]
pub struct Waiter {
    /// The name by which the borrower recognises its wake-up.
    pub label: u64,
    /// The time after which the borrower gives up.
    pub deadline: u64,
}

/// The limits a pool is made with.
#[derive(Clone, Copy, Debug, PartialEq, Eq, Structural)]
pub struct PoolConfig {
    /// The most connections that may be open, or being opened, at one time.
    pub max_size: usize,
    /// How long a borrower waits for a connection before it gives up.
    pub acquire_timeout: u64,
    /// How often in a row opening a connection may fail before the borrower
    /// is told that the backend cannot be reached.
    pub connect_attempts: u32,
}

/// Why the pool turned a call down.
#[derive(Clone, Copy, Debug, PartialEq, Eq, Structural)]
pub enum PoolError {
    /// No connection became free before the borrower's deadline.
    PoolExhausted,
    /// Opening a connection failed as often as the pool allows.
    BackendUnreachable,
    /// The handle presented is not outstanding: it was handed back before,
    /// or this pool never gave it out.
    DoubleRelease,
}

/// The right to open the connection of one place, as a plain value.
pub struct PermitView {
    /// The place that the new connection is for.
    pub slot: int,
    /// How often opening the connection has failed so far.
    pub failures: nat,
}

/// What a suspended borrower is woken with, as a plain value.
pub enum WakeView {
    /// The open connection of place `slot` now belongs to `waiter`.
    Lend { waiter: u64, slot: int },
    /// `waiter` may open a connection for the place that `permit` names.
    Create { waiter: u64, permit: PermitView },
}

/// The answer to a new borrower, as a plain value.
pub enum AdmissionView {
    /// The idle connection of this place is the borrower's.
    Lend(int),
    /// The borrower opens a connection under this permit.
    Create(PermitView),
    /// The borrower is queued until `deadline`.
    Wait { deadline: u64 },
}

/// What handing a connection back comes to, as a plain value.
pub struct ReleasedView {
    /// The session behind the lease must be closed.
    pub close: bool,
    /// The borrower to wake, and with what.
    pub wake: Option<WakeView>,
}

/// What a failed attempt to open a connection comes to, as a plain value.
pub enum SetbackView {
    /// The borrower tries again under this permit.
    Retry(PermitView),
    /// The borrower gives up; the place goes to the borrower to wake, if
    /// there is one.
    GaveUp(Option<WakeView>),
}

/// What is left of a borrower's wait, as a plain value.
pub enum PatienceView {
    /// The borrower is not queued: it was never suspended or has been woken.
    Served,
    /// The borrower stays queued until `deadline`.
    Waiting { deadline: u64 },
}

/// What the pool can do for a borrower that arrives now.
pub enum Offer {
    /// Lend the idle connection of this place.
    Lend(int),
    /// Let the borrower open a connection for this place.
    Create(int),
    /// Nothing: every place is taken.
    Wait,
}

/// An operation on the pool.
pub enum PoolOp {
    /// A borrower that calls itself `waiter` arrives at `now`.
    Request { waiter: u64, now: u64 },
    /// The connection that was being opened for place `slot` is open.
    Connected { slot: int },
    /// An attempt to open a connection under `permit` has failed.
    ConnectFailed { permit: PermitView },
    /// The borrower that was to open the connection of place `slot` has
    /// given up.
    Abandon { slot: int },
    /// The borrower of the connection of place `slot` hands it back.
    Release { slot: int, health: Health },
    /// The borrower called `waiter` asks at `now` whether its wait is
    /// over.
    Expire { waiter: u64, now: u64 },
}

/// The time at which a wait that starts at `now` ends; it stops at the
/// largest time there is.
pub open spec fn deadline_after(now: u64, timeout: u64) -> u64 {
    if now + timeout > u64::MAX {
        u64::MAX
    } else {
        (now + timeout) as u64
    }
}

/// The labels of the waiters, in their order.
pub open spec fn labels(waiters: Seq<Waiter>) -> Seq<u64> {
    waiters.map_values(|w: Waiter| w.label)
}

/// Everything the pool knows.
#[verifier::ext_equal]
pub struct PoolState {
    pub config: PoolConfig,
    /// The places that were ever used, each with what it holds now.
    pub slots: Seq<Slot>,
    /// The suspended borrowers, first come first.
    pub waiters: Seq<Waiter>,
}

impl PoolState {
    /// A pool that has not been used yet.
    pub open spec fn fresh(config: PoolConfig) -> PoolState {
        PoolState { config, slots: Seq::empty(), waiters: Seq::empty() }
    }

    /// Place `i` exists and holds `slot`.
    pub open spec fn is(self, i: int, slot: Slot) -> bool {
        0 <= i < self.slots.len() && self.slots[i] == slot
    }

    /// How many connections are borrowed.
    pub open spec fn in_use(self) -> nat {
        count(self.slots, Slot::InUse)
    }

    /// How many connections are open and not borrowed.
    pub open spec fn idle(self) -> nat {
        count(self.slots, Slot::Idle)
    }

    /// How many connections are being opened.
    pub open spec fn pending(self) -> nat {
        count(self.slots, Slot::Pending)
    }

    /// Every place is borrowed or being opened, and no further place may be
    /// added.
    pub open spec fn full(self) -> bool {
        &&& self.slots.len() == self.config.max_size
        &&& forall|i: int|
            0 <= i < self.slots.len() ==> self.slots[i] == Slot::InUse || self.slots[i]
                == Slot::Pending
    }

    /// The pool never has more places than `max_size`, and a borrower waits
    /// only while the pool is full.
    pub open spec fn wf(self) -> bool {
        &&& self.slots.len() <= self.config.max_size
        &&& self.waiters.len() > 0 ==> self.full()
    }

    /// What a borrower that arrives now is offered: the first idle
    /// connection; failing that the first vacant place, or a new place
    /// while there are fewer than `max_size`; failing that a wait.
    pub open spec fn offer(self) -> Offer {
        match first_index(self.slots, Slot::Idle) {
            Some(i) => Offer::Lend(i),
            None => match first_index(self.slots, Slot::Vacant) {
                Some(i) => Offer::Create(i),
                None => if self.slots.len() < self.config.max_size {
                    Offer::Create(self.slots.len() as int)
                } else {
                    Offer::Wait
                },
            },
        }
    }

    /// The pool with `slot` in place `i`, which is an existing place or the
    /// one after the last.
    pub open spec fn put(self, i: int, slot: Slot) -> PoolState {
        PoolState {
            slots: if i == self.slots.len() {
                self.slots.push(slot)
            } else {
                self.slots.update(i, slot)
            },
            ..self
        }
    }

    /// The suspended borrower that is served next, if any.
    pub open spec fn next_waiter(self) -> Option<u64> {
        if self.waiters.len() > 0 {
            Some(self.waiters[0].label)
        } else {
            None
        }
    }

    /// The pool after the first waiter has left the queue.
    pub open spec fn served(self) -> PoolState {
        PoolState { waiters: self.waiters.remove(0), ..self }
    }

    /// The pool after place `i` has lost its connection: the first waiter
    /// may open a new one for it, and without a waiter it falls vacant.
    pub open spec fn pass_on(self, i: int) -> PoolState {
        if self.waiters.len() > 0 {
            self.put(i, Slot::Pending).served()
        } else {
            self.put(i, Slot::Vacant)
        }
    }

    /// The wake-up that follows when place `i` has lost its connection.
    pub open spec fn heir(self, i: int) -> Option<WakeView> {
        match self.next_waiter() {
            Some(waiter) => Some(
                WakeView::Create { waiter, permit: PermitView { slot: i, failures: 0 } },
            ),
            None => None,
        }
    }

    /// Whether one more failure on `permit` stays under the limit, so that
    /// the borrower tries again.
    pub open spec fn retries(self, permit: PermitView) -> bool {
        permit.failures + 1 < self.config.connect_attempts
    }

    /// The position in the queue of the first waiter called `waiter` whose
    /// deadline has passed at `now`, if the first waiter of that name is
    /// such a one.
    pub open spec fn overdue(self, waiter: u64, now: u64) -> Option<int> {
        match first_index(labels(self.waiters), waiter) {
            Some(k) => if self.waiters[k].deadline <= now {
                Some(k)
            } else {
                None
            },
            None => None,
        }
    }

    /// The pool after `op`.
    pub open spec fn apply(self, op: PoolOp) -> PoolState {
        match op {
            PoolOp::Request { waiter, now } => match self.offer() {
                Offer::Lend(i) => self.put(i, Slot::InUse),
                Offer::Create(i) => self.put(i, Slot::Pending),
                Offer::Wait => PoolState {
                    waiters: self.waiters.push(
                        Waiter {
                            label: waiter,
                            deadline: deadline_after(now, self.config.acquire_timeout),
                        },
                    ),
                    ..self
                },
            },
            PoolOp::Connected { slot } => if self.is(slot, Slot::Pending) {
                self.put(slot, Slot::InUse)
            } else {
                self
            },
            PoolOp::ConnectFailed { permit } => if self.is(permit.slot, Slot::Pending)
                && !self.retries(permit) {
                self.pass_on(permit.slot)
            } else {
                self
            },
            PoolOp::Abandon { slot } => if self.is(slot, Slot::Pending) {
                self.pass_on(slot)
            } else {
                self
            },
            PoolOp::Release { slot, health } => if !self.is(slot, Slot::InUse) {
                self
            } else if health == Health::Broken {
                self.pass_on(slot)
            } else if self.waiters.len() > 0 {
                self.served()
            } else {
                self.put(slot, Slot::Idle)
            },
            PoolOp::Expire { waiter, now } => match self.overdue(waiter, now) {
                Some(k) => PoolState { waiters: self.waiters.remove(k), ..self },
                None => self,
            },
        }
    }

    /// What a borrower that arrives at `now` is told.
    pub open spec fn admission(self, now: u64) -> AdmissionView {
        match self.offer() {
            Offer::Lend(i) => AdmissionView::Lend(i),
            Offer::Create(i) => AdmissionView::Create(PermitView { slot: i, failures: 0 }),
            Offer::Wait => AdmissionView::Wait {
                deadline: deadline_after(now, self.config.acquire_timeout),
            },
        }
    }

    /// What the borrower that opened the connection of place `slot` is
    /// given: the lease of that place.
    pub open spec fn connection(self, permit: PermitView) -> Result<int, PoolError> {
        if self.is(permit.slot, Slot::Pending) {
            Ok(permit.slot)
        } else {
            Err(PoolError::DoubleRelease)
        }
    }

    /// What a failed attempt on `permit` comes to.
    pub open spec fn setback(self, permit: PermitView) -> Result<SetbackView, PoolError> {
        if !self.is(permit.slot, Slot::Pending) {
            Err(PoolError::DoubleRelease)
        } else if self.retries(permit) {
            Ok(
                SetbackView::Retry(
                    PermitView { slot: permit.slot, failures: permit.failures + 1 },
                ),
            )
        } else {
            Ok(SetbackView::GaveUp(self.heir(permit.slot)))
        }
    }

    /// What giving `permit` up comes to.
    pub open spec fn abandoned(self, permit: PermitView) -> Result<Option<WakeView>, PoolError> {
        if self.is(permit.slot, Slot::Pending) {
            Ok(self.heir(permit.slot))
        } else {
            Err(PoolError::DoubleRelease)
        }
    }

    /// What handing back the lease of place `slot` comes to.
    pub open spec fn released(self, slot: int, health: Health) -> Result<
        ReleasedView,
        PoolError,
    > {
        if !self.is(slot, Slot::InUse) {
            Err(PoolError::DoubleRelease)
        } else if health == Health::Broken {
            Ok(ReleasedView { close: true, wake: self.heir(slot) })
        } else {
            Ok(
                ReleasedView {
                    close: false,
                    wake: match self.next_waiter() {
                        Some(waiter) => Some(WakeView::Lend { waiter, slot }),
                        None => None,
                    },
                },
            )
        }
    }

    /// What a waiter called `waiter` is told at `now`.
    pub open spec fn patience(self, waiter: u64, now: u64) -> Result<PatienceView, PoolError> {
        match first_index(labels(self.waiters), waiter) {
            Some(k) => if self.waiters[k].deadline <= now {
                Err(PoolError::PoolExhausted)
            } else {
                Ok(PatienceView::Waiting { deadline: self.waiters[k].deadline })
            },
            None => Ok(PatienceView::Served),
        }
    }
}

} // verus!
