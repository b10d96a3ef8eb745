//! The pool's bookkeeping: which place holds what, who waits, and what each
//! borrower is told. The pool opens no connection and never sleeps; its
//! caller does both and reports back.

use crate::pool_model::{
    deadline_after, labels, AdmissionView, Health, PatienceView, PermitView, PoolConfig, PoolError,
    PoolOp, PoolState, ReleasedView, SetbackView, Slot, Waiter, WakeView,
};
use crate::search::{count, first_index, lemma_first_index, lemma_first_index_prefix};
use vstd::prelude::*;

verus! {

/// A borrowed connection. It cannot be copied, and handing it back uses it
/// up.
#[derive(Debug)]
pub struct Lease {
    slot: usize,
}

impl View for Lease {
    type V = int;

    closed spec fn view(&self) -> int {
        self.slot as int
    }
}

impl Lease {
    /// The place whose connection this lease stands for.
    pub fn slot(&self) -> (slot: usize)
        ensures
            slot == self@,
    {
        self.slot
    }
}

/// The right to open the connection of one place. It cannot be copied, and
/// reporting what came of the attempt uses it up.
#[derive(Debug)]
pub struct Permit {
    slot: usize,
    failures: u32,
}

impl View for Permit {
    type V = PermitView;

    closed spec fn view(&self) -> PermitView {
        PermitView { slot: self.slot as int, failures: self.failures as nat }
    }
}

impl Permit {
    /// The place that the new connection is for.
    pub fn slot(&self) -> (slot: usize)
        ensures
            slot == self@.slot,
    {
        self.slot
    }

    /// How often opening the connection has failed so far.
    pub fn failures(&self) -> (failures: u32)
        ensures
            failures == self@.failures,
    {
        self.failures
    }
}

/// What a suspended borrower is woken with.
#[derive(Debug)]
pub enum Wake {
    /// The open connection of the lease now belongs to `waiter`.
    Lend { waiter: u64, lease: Lease },
    /// `waiter` may open a connection under the permit.
    Create { waiter: u64, permit: Permit },
}

impl View for Wake {
    type V = WakeView;

    open spec fn view(&self) -> WakeView {
        match *self {
            Wake::Lend { waiter, lease } => WakeView::Lend { waiter, slot: lease@ },
            Wake::Create { waiter, permit } => WakeView::Create { waiter, permit: permit@ },
        }
    }
}

/// The view of a wake-up that may be absent.
pub open spec fn wake_view(wake: Option<Wake>) -> Option<WakeView> {
    match wake {
        Some(w) => Some(w@),
        None => None,
    }
}

/// The answer to a new borrower.
#[derive(Debug)]
pub enum Admission {
    /// An idle connection, now the borrower's.
    Lend(Lease),
    /// The borrower opens a connection itself and reports what came of it.
    Create(Permit),
    /// The borrower is queued until it is woken or `deadline` has passed.
    Wait { deadline: u64 },
}

impl View for Admission {
    type V = AdmissionView;

    open spec fn view(&self) -> AdmissionView {
        match *self {
            Admission::Lend(lease) => AdmissionView::Lend(lease@),
            Admission::Create(permit) => AdmissionView::Create(permit@),
            Admission::Wait { deadline } => AdmissionView::Wait { deadline },
        }
    }
}

/// What handing a connection back comes to.
#[derive(Debug)]
pub struct Released {
    /// The session behind the lease must be closed.
    pub close: bool,
    /// The borrower to wake, and with what.
    pub wake: Option<Wake>,
}

impl View for Released {
    type V = ReleasedView;

    open spec fn view(&self) -> ReleasedView {
        ReleasedView { close: self.close, wake: wake_view(self.wake) }
    }
}

/// What a failed attempt to open a connection comes to.
#[derive(Debug)]
pub enum Setback {
    /// Try again under this permit.
    Retry(Permit),
    /// The borrower is told that the backend cannot be reached; the place
    /// goes to the borrower to wake, if there is one.
    GaveUp(Option<Wake>),
}

impl View for Setback {
    type V = SetbackView;

    open spec fn view(&self) -> SetbackView {
        match *self {
            Setback::Retry(permit) => SetbackView::Retry(permit@),
            Setback::GaveUp(wake) => SetbackView::GaveUp(wake_view(wake)),
        }
    }
}

/// What is left of a borrower's wait.
#[derive(Clone, Copy, Debug, PartialEq, Eq, Structural)]
pub enum Patience {
    /// The borrower is not queued: it was never suspended or has been woken.
    Served,
    /// The borrower stays queued until `deadline`.
    Waiting { deadline: u64 },
}

impl View for Patience {
    type V = PatienceView;

    open spec fn view(&self) -> PatienceView {
        match *self {
            Patience::Served => PatienceView::Served,
            Patience::Waiting { deadline } => PatienceView::Waiting { deadline },
        }
    }
}

/// The pool's books: what each place holds, and who waits.
#[derive(Debug)]
struct Ledger {
    config: PoolConfig,
    slots: Vec<Slot>,
    waiters: Vec<Waiter>,
}

impl View for Ledger {
    type V = PoolState;

    closed spec fn view(&self) -> PoolState {
        PoolState { config: self.config, slots: self.slots@, waiters: self.waiters@ }
    }
}

/// A bounded pool of connections, as seen by its bookkeeper.
///
/// A pool keeps to its limits at all times: it never has more places than
/// `max_size`, and a borrower waits only while every place is taken.
#[derive(Debug)]
pub struct Pool {
    ledger: Ledger,
}

impl View for Pool {
    type V = PoolState;

    closed spec fn view(&self) -> PoolState {
        self.ledger@
    }
}

/// The time at which a wait that starts at `now` ends.
pub fn deadline(now: u64, timeout: u64) -> (end: u64)
    ensures
        end == deadline_after(now, timeout),
{
    match now.checked_add(timeout) {
        Some(end) => end,
        None => u64::MAX,
    }
}

impl Ledger {
    /// Books without connections and without waiters.
    fn new(config: PoolConfig) -> (ledger: Ledger)
        ensures
            ledger@ == PoolState::fresh(config),
    {
        Ledger { config, slots: Vec::new(), waiters: Vec::new() }
    }

    /// How many places hold `want`.
    fn tally(&self, want: Slot) -> (n: usize)
        ensures
            n == count(self@.slots, want),
    {
        let mut n: usize = 0;
        let mut i: usize = 0;
        while i < self.slots.len()
            invariant
                i <= self.slots.len(),
                n <= i,
                n == count(self.slots@.take(i as int), want),
            decreases self.slots.len() - i,
        {
            proof {
                assert(self.slots@.take(i as int + 1).drop_last() == self.slots@.take(i as int));
            }
            if self.slots[i] == want {
                n += 1;
            }
            i += 1;
        }
        proof {
            assert(self.slots@.take(i as int) == self.slots@);
        }
        n
    }

    /// The first place that holds `want`.
    fn find(&self, want: Slot) -> (found: Option<usize>)
        ensures
            match found {
                Some(i) => first_index(self@.slots, want) == Some(i as int),
                None => first_index(self@.slots, want) is None,
            },
    {
        let mut i: usize = 0;
        while i < self.slots.len()
            invariant
                i <= self.slots.len(),
                first_index(self.slots@.take(i as int), want) is None,
            decreases self.slots.len() - i,
        {
            proof {
                assert(self.slots@.take(i as int + 1).drop_last() == self.slots@.take(i as int));
            }
            if self.slots[i] == want {
                proof {
                    lemma_first_index_prefix(self.slots@, i as int + 1, want);
                }
                return Some(i);
            }
            i += 1;
        }
        proof {
            assert(self.slots@.take(i as int) == self.slots@);
        }
        None
    }

    /// Whether place `i` exists and holds `slot`.
    fn holds(&self, i: usize, slot: Slot) -> (yes: bool)
        ensures
            yes == self@.is(i as int, slot),
    {
        i < self.slots.len() && self.slots[i] == slot
    }

    /// The queue position of the first waiter called `waiter`.
    fn queued(&self, waiter: u64) -> (found: Option<usize>)
        ensures
            match found {
                Some(k) => first_index(labels(self@.waiters), waiter) == Some(k as int),
                None => first_index(labels(self@.waiters), waiter) is None,
            },
    {
        let mut k: usize = 0;
        while k < self.waiters.len()
            invariant
                k <= self.waiters.len(),
                first_index(labels(self.waiters@).take(k as int), waiter) is None,
            decreases self.waiters.len() - k,
        {
            proof {
                let names = labels(self.waiters@);
                assert(names.take(k as int + 1).drop_last() == names.take(k as int));
            }
            if self.waiters[k].label == waiter {
                proof {
                    lemma_first_index_prefix(labels(self.waiters@), k as int + 1, waiter);
                }
                return Some(k);
            }
            k += 1;
        }
        proof {
            assert(labels(self.waiters@).take(k as int) == labels(self.waiters@));
        }
        None
    }

    /// Takes the first waiter out of the queue, if there is one.
    fn serve(&mut self) -> (waiter: Option<u64>)
        ensures
            waiter == old(self)@.next_waiter(),
            final(self)@ == (if old(self)@.waiters.len() > 0 {
                old(self)@.served()
            } else {
                old(self)@
            }),
    {
        if self.waiters.len() > 0 {
            let first = self.waiters.remove(0);
            Some(first.label)
        } else {
            None
        }
    }

    /// Frees place `slot`, which has lost its connection, for the first
    /// waiter, or leaves it vacant.
    fn hand_down(&mut self, slot: usize) -> (wake: Option<Wake>)
        requires
            (slot as int) < old(self)@.slots.len(),
        ensures
            final(self)@ == old(self)@.pass_on(slot as int),
            wake_view(wake) == old(self)@.heir(slot as int),
    {
        match self.serve() {
            Some(waiter) => {
                self.slots.set(slot, Slot::Pending);
                Some(Wake::Create { waiter, permit: Permit { slot, failures: 0 } })
            },
            None => {
                self.slots.set(slot, Slot::Vacant);
                None
            },
        }
    }

    fn request(&mut self, waiter: u64, now: u64) -> (admission: Admission)
        requires
            old(self)@.wf(),
        ensures
            final(self)@.wf(),
            final(self)@ == old(self)@.apply(PoolOp::Request { waiter, now }),
            admission@ == old(self)@.admission(now),
    {
        proof {
            lemma_first_index(self@.slots, Slot::Idle);
            lemma_first_index(self@.slots, Slot::Vacant);
        }
        if let Some(i) = self.find(Slot::Idle) {
            self.slots.set(i, Slot::InUse);
            return Admission::Lend(Lease { slot: i });
        }
        if let Some(i) = self.find(Slot::Vacant) {
            self.slots.set(i, Slot::Pending);
            return Admission::Create(Permit { slot: i, failures: 0 });
        }
        if self.slots.len() < self.config.max_size {
            let i = self.slots.len();
            self.slots.push(Slot::Pending);
            return Admission::Create(Permit { slot: i, failures: 0 });
        }
        let end = deadline(now, self.config.acquire_timeout);
        self.waiters.push(Waiter { label: waiter, deadline: end });
        Admission::Wait { deadline: end }
    }

    fn connected(&mut self, permit: Permit) -> (outcome: Result<Lease, PoolError>)
        requires
            old(self)@.wf(),
        ensures
            final(self)@.wf(),
            final(self)@ == old(self)@.apply(PoolOp::Connected { slot: permit@.slot }),
            match outcome {
                Ok(lease) => old(self)@.connection(permit@) == Ok::<int, PoolError>(lease@),
                Err(e) => old(self)@.connection(permit@) == Err::<int, PoolError>(e),
            },
    {
        if !self.holds(permit.slot, Slot::Pending) {
            return Err(PoolError::DoubleRelease);
        }
        self.slots.set(permit.slot, Slot::InUse);
        Ok(Lease { slot: permit.slot })
    }

    fn connect_failed(&mut self, permit: Permit) -> (outcome: Result<Setback, PoolError>)
        requires
            old(self)@.wf(),
        ensures
            final(self)@.wf(),
            final(self)@ == old(self)@.apply(PoolOp::ConnectFailed { permit: permit@ }),
            match outcome {
                Ok(setback) => old(self)@.setback(permit@) == Ok::<SetbackView, PoolError>(
                    setback@,
                ),
                Err(e) => old(self)@.setback(permit@) == Err::<SetbackView, PoolError>(e),
            },
    {
        if !self.holds(permit.slot, Slot::Pending) {
            return Err(PoolError::DoubleRelease);
        }
        if permit.failures < u32::MAX && permit.failures + 1 < self.config.connect_attempts {
            return Ok(Setback::Retry(Permit { slot: permit.slot, failures: permit.failures + 1 }));
        }
        let wake = self.hand_down(permit.slot);
        Ok(Setback::GaveUp(wake))
    }

    fn abandon(&mut self, permit: Permit) -> (outcome: Result<Option<Wake>, PoolError>)
        requires
            old(self)@.wf(),
        ensures
            final(self)@.wf(),
            final(self)@ == old(self)@.apply(PoolOp::Abandon { slot: permit@.slot }),
            match outcome {
                Ok(wake) => old(self)@.abandoned(permit@) == Ok::<Option<WakeView>, PoolError>(
                    wake_view(wake),
                ),
                Err(e) => old(self)@.abandoned(permit@) == Err::<Option<WakeView>, PoolError>(e),
            },
    {
        if !self.holds(permit.slot, Slot::Pending) {
            return Err(PoolError::DoubleRelease);
        }
        let wake = self.hand_down(permit.slot);
        Ok(wake)
    }

    fn release(&mut self, lease: Lease, health: Health) -> (outcome: Result<Released, PoolError>)
        requires
            old(self)@.wf(),
        ensures
            final(self)@.wf(),
            final(self)@ == old(self)@.apply(PoolOp::Release { slot: lease@, health }),
            match outcome {
                Ok(released) => old(self)@.released(lease@, health) == Ok::<
                    ReleasedView,
                    PoolError,
                >(released@),
                Err(e) => old(self)@.released(lease@, health) == Err::<ReleasedView, PoolError>(e),
            },
    {
        if !self.holds(lease.slot, Slot::InUse) {
            return Err(PoolError::DoubleRelease);
        }
        match health {
            Health::Broken => {
                let wake = self.hand_down(lease.slot);
                Ok(Released { close: true, wake })
            },
            Health::Healthy => {
                match self.serve() {
                    Some(waiter) => Ok(
                        Released { close: false, wake: Some(Wake::Lend { waiter, lease }) },
                    ),
                    None => {
                        self.slots.set(lease.slot, Slot::Idle);
                        Ok(Released { close: false, wake: None })
                    },
                }
            },
        }
    }

    fn expire(&mut self, waiter: u64, now: u64) -> (outcome: Result<Patience, PoolError>)
        requires
            old(self)@.wf(),
        ensures
            final(self)@.wf(),
            final(self)@ == old(self)@.apply(PoolOp::Expire { waiter, now }),
            match outcome {
                Ok(patience) => old(self)@.patience(waiter, now) == Ok::<PatienceView, PoolError>(
                    patience@,
                ),
                Err(e) => old(self)@.patience(waiter, now) == Err::<PatienceView, PoolError>(e),
            },
    {
        proof {
            lemma_first_index(labels(self@.waiters), waiter);
        }
        match self.queued(waiter) {
            Some(k) => {
                let end = self.waiters[k].deadline;
                if end <= now {
                    self.waiters.remove(k);
                    Err(PoolError::PoolExhausted)
                } else {
                    Ok(Patience::Waiting { deadline: end })
                }
            },
            None => Ok(Patience::Served),
        }
    }
}

impl Pool {
    /// The pool keeps to its limits; see [`PoolState::wf`]. This holds of
    /// every pool at all times.
    #[verifier::type_invariant]
    pub open spec fn wf(&self) -> bool {
        self@.wf()
    }

    /// A pool without connections and without waiters.
    pub fn new(config: PoolConfig) -> (pool: Pool)
        ensures
            pool@ == PoolState::fresh(config),
    {
        Pool { ledger: Ledger::new(config) }
    }

    /// Takes the books out, leaving empty ones, so that they can be
    /// written.
    fn open_books(&mut self) -> (ledger: Ledger)
        ensures
            ledger@ == old(self)@,
            final(self)@ == PoolState::fresh(old(self)@.config),
    {
        let mut ledger = Ledger::new(self.ledger.config);
        std::mem::swap(&mut ledger, &mut self.ledger);
        ledger
    }

    /// The limits that the pool was made with.
    pub fn config(&self) -> (config: PoolConfig)
        ensures
            config == self@.config,
    {
        self.ledger.config
    }

    /// How many connections are borrowed.
    pub fn in_use(&self) -> (n: usize)
        ensures
            n == self@.in_use(),
    {
        self.ledger.tally(Slot::InUse)
    }

    /// How many connections are open and not borrowed.
    pub fn idle(&self) -> (n: usize)
        ensures
            n == self@.idle(),
    {
        self.ledger.tally(Slot::Idle)
    }

    /// How many connections are being opened.
    pub fn pending(&self) -> (n: usize)
        ensures
            n == self@.pending(),
    {
        self.ledger.tally(Slot::Pending)
    }

    /// How many borrowers are queued.
    pub fn waiting(&self) -> (n: usize)
        ensures
            n == self@.waiters.len(),
    {
        self.ledger.waiters.len()
    }

    /// What place `i` holds, if the pool has such a place.
    pub fn slot(&self, i: usize) -> (slot: Option<Slot>)
        ensures
            slot == (if i < self@.slots.len() {
                Some(self@.slots[i as int])
            } else {
                None
            }),
    {
        if i < self.ledger.slots.len() {
            Some(self.ledger.slots[i])
        } else {
            None
        }
    }

    /// Admits a borrower that arrives at `now` and calls itself `waiter`.
    ///
    /// The borrower gets the first idle connection. Where none is idle it
    /// may open one, in the first vacant place or in a new place while the
    /// pool has fewer than `max_size`. Otherwise it joins the end of the
    /// queue, with a deadline `acquire_timeout` after `now`.
    pub fn request(&mut self, waiter: u64, now: u64) -> (admission: Admission)
        ensures
            final(self)@ == old(self)@.apply(PoolOp::Request { waiter, now }),
            admission@ == old(self)@.admission(now),
    {
        proof {
            use_type_invariant(&*self);
        }
        let mut ledger = self.open_books();
        let admission = ledger.request(waiter, now);
        self.ledger = ledger;
        admission
    }

    /// Records that the connection under `permit` is open, and lends it to
    /// the borrower that opened it.
    ///
    /// A permit whose place is not being opened is refused with
    /// `DoubleRelease`, and the pool stays as it is.
    pub fn connected(&mut self, permit: Permit) -> (outcome: Result<Lease, PoolError>)
        ensures
            final(self)@ == old(self)@.apply(PoolOp::Connected { slot: permit@.slot }),
            match outcome {
                Ok(lease) => old(self)@.connection(permit@) == Ok::<int, PoolError>(lease@),
                Err(e) => old(self)@.connection(permit@) == Err::<int, PoolError>(e),
            },
    {
        proof {
            use_type_invariant(&*self);
        }
        let mut ledger = self.open_books();
        let outcome = ledger.connected(permit);
        self.ledger = ledger;
        outcome
    }

    /// Records that opening the connection under `permit` has failed.
    ///
    /// While the failures stay under `connect_attempts` the borrower tries
    /// again. After that it gives up, and the place goes to the first
    /// waiter or falls vacant. A permit whose place is not being opened is
    /// refused with `DoubleRelease`.
    pub fn connect_failed(&mut self, permit: Permit) -> (outcome: Result<Setback, PoolError>)
        ensures
            final(self)@ == old(self)@.apply(PoolOp::ConnectFailed { permit: permit@ }),
            match outcome {
                Ok(setback) => old(self)@.setback(permit@) == Ok::<SetbackView, PoolError>(
                    setback@,
                ),
                Err(e) => old(self)@.setback(permit@) == Err::<SetbackView, PoolError>(e),
            },
    {
        proof {
            use_type_invariant(&*self);
        }
        let mut ledger = self.open_books();
        let outcome = ledger.connect_failed(permit);
        self.ledger = ledger;
        outcome
    }

    /// Gives `permit` up without an attempt: the place goes to the first
    /// waiter or falls vacant.
    pub fn abandon(&mut self, permit: Permit) -> (outcome: Result<Option<Wake>, PoolError>)
        ensures
            final(self)@ == old(self)@.apply(PoolOp::Abandon { slot: permit@.slot }),
            match outcome {
                Ok(wake) => old(self)@.abandoned(permit@) == Ok::<Option<WakeView>, PoolError>(
                    wake_view(wake),
                ),
                Err(e) => old(self)@.abandoned(permit@) == Err::<Option<WakeView>, PoolError>(e),
            },
    {
        proof {
            use_type_invariant(&*self);
        }
        let mut ledger = self.open_books();
        let outcome = ledger.abandon(permit);
        self.ledger = ledger;
        outcome
    }

    /// Takes a connection back from its borrower.
    ///
    /// A healthy connection goes to the first waiter, or becomes idle. A
    /// broken one is to be closed, and its place goes to the first waiter,
    /// who opens a new connection, or falls vacant. A lease whose place is
    /// not borrowed is refused with `DoubleRelease`, and the pool stays as
    /// it is.
    pub fn release(&mut self, lease: Lease, health: Health) -> (outcome: Result<
        Released,
        PoolError,
    >)
        ensures
            final(self)@ == old(self)@.apply(PoolOp::Release { slot: lease@, health }),
            match outcome {
                Ok(released) => old(self)@.released(lease@, health) == Ok::<
                    ReleasedView,
                    PoolError,
                >(released@),
                Err(e) => old(self)@.released(lease@, health) == Err::<ReleasedView, PoolError>(e),
            },
    {
        proof {
            use_type_invariant(&*self);
        }
        let mut ledger = self.open_books();
        let outcome = ledger.release(lease, health);
        self.ledger = ledger;
        outcome
    }

    /// Tells the borrower called `waiter` at `now` whether its wait is
    /// over.
    ///
    /// A queued borrower whose deadline has passed leaves the queue and
    /// gets `PoolExhausted`. One whose deadline lies ahead stays queued. A
    /// borrower that is not queued is told so.
    pub fn expire(&mut self, waiter: u64, now: u64) -> (outcome: Result<Patience, PoolError>)
        ensures
            final(self)@ == old(self)@.apply(PoolOp::Expire { waiter, now }),
            match outcome {
                Ok(patience) => old(self)@.patience(waiter, now) == Ok::<PatienceView, PoolError>(
                    patience@,
                ),
                Err(e) => old(self)@.patience(waiter, now) == Err::<PatienceView, PoolError>(e),
            },
    {
        proof {
            use_type_invariant(&*self);
        }
        let mut ledger = self.open_books();
        let outcome = ledger.expire(waiter, now);
        self.ledger = ledger;
        outcome
    }
}

} // verus!
