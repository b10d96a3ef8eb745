//! The service in one piece: a pool, a backend in memory, and requests
//! that run from start to done one at a time.

use crate::acquire::{Borrower, BorrowerView, Next, NextView, Signal, StageView, Turn};
use crate::backend::{reading, writing, BackendState, MemoryBackend};
use crate::error::{unavailable, unavailable_view, Failure, ServiceError};
use crate::pool::{Lease, Pool};
use crate::pool_model::{labels, Offer, PoolConfig, PoolError, PoolState, Slot};
use crate::record::{
    field_or_empty, key_of, names, pairs_of, GetRequest, GetResponse, SetRequest, SetResponse,
    ID_ATTRIBUTE, STATUS_ATTRIBUTE,
};
use crate::search::lemma_first_index;
use crate::session::{
    verdict_view, Command, CommandView, Event, EventView, Reply, ReplyView, Request, RequestView,
    Session, VerdictView,
};
use vstd::prelude::*;

verus! {

/// The name under which the service borrows. It runs one request at a
/// time, so one name is enough.
pub const BORROWER: u64 = 0;

/// What the service is at one moment.
pub struct ServiceState {
    pub pool: PoolState,
    pub backend: BackendState,
}

impl ServiceState {
    /// Between two requests nothing is borrowed, nothing is being opened
    /// and nobody waits.
    pub open spec fn wf(self) -> bool {
        &&& self.pool.wf()
        &&& self.pool.waiters.len() == 0
        &&& forall|i: int|
            0 <= i < self.pool.slots.len() ==> self.pool.slots[i] == Slot::Idle
                || self.pool.slots[i] == Slot::Vacant
    }

    /// Whether a request goes through: the backend answers and the pool
    /// may hold a connection at all.
    pub open spec fn serves(self) -> bool {
        self.backend.up && self.pool.config.max_size > 0
    }

    /// The place whose connection a request borrows: an idle one, or one
    /// that it opens, which takes a backend that answers.
    pub open spec fn borrows(self) -> Result<int, PoolError> {
        match self.pool.offer() {
            Offer::Lend(i) => Ok(i),
            Offer::Create(i) => if self.backend.up {
                Ok(i)
            } else {
                Err(PoolError::BackendUnreachable)
            },
            Offer::Wait => Err(PoolError::PoolExhausted),
        }
    }

    /// The pool once the request has tried to borrow: the place it was
    /// offered is borrowed, or vacant again where no connection could be
    /// opened.
    pub open spec fn borrowed(self) -> PoolState {
        match self.pool.offer() {
            Offer::Lend(i) => self.pool.put(i, Slot::InUse),
            Offer::Create(i) => self.pool.put(
                i,
                if self.backend.up {
                    Slot::InUse
                } else {
                    Slot::Vacant
                },
            ),
            Offer::Wait => self.pool,
        }
    }

    /// The pool once the request is through: the place it was offered
    /// holds an idle connection where the backend answers, and none where
    /// it does not.
    pub open spec fn settled(self) -> PoolState {
        match self.pool.offer() {
            Offer::Lend(i) => self.pool.put(
                i,
                if self.backend.up {
                    Slot::Idle
                } else {
                    Slot::Vacant
                },
            ),
            Offer::Create(i) => self.pool.put(
                i,
                if self.backend.up {
                    Slot::Idle
                } else {
                    Slot::Vacant
                },
            ),
            Offer::Wait => self.pool,
        }
    }

    /// The answer to `request` where it goes through.
    pub open spec fn answer(self, request: RequestView) -> ReplyView {
        match request {
            RequestView::Fetch { id } => {
                let fields = reading(self.backend.records, key_of(id), names());
                ReplyView::Fetched {
                    id: field_or_empty(fields, ID_ATTRIBUTE@),
                    status: field_or_empty(fields, STATUS_ATTRIBUTE@),
                }
            },
            RequestView::Store { id, status } => ReplyView::Stored,
        }
    }

    /// How `request` ends: with its answer where the service serves, and
    /// with `BackendUnavailable` where it does not.
    pub open spec fn verdict(self, request: RequestView) -> VerdictView {
        if self.serves() {
            Ok(self.answer(request))
        } else {
            Err(unavailable_view())
        }
    }

    /// The backend after `request`: a request to store that goes through
    /// writes its two fields, and nothing else changes anything.
    pub open spec fn effect(self, request: RequestView) -> BackendState {
        match request {
            RequestView::Store { id, status } => if self.serves() {
                BackendState {
                    records: writing(self.backend.records, key_of(id), pairs_of(id, status)),
                    up: self.backend.up,
                }
            } else {
                self.backend
            },
            RequestView::Fetch { id } => self.backend,
        }
    }

    /// The service after `request`.
    pub open spec fn after(self, request: RequestView) -> ServiceState {
        ServiceState { pool: self.settled(), backend: self.effect(request) }
    }
}

/// Putting something in a place twice leaves what was put last.
proof fn lemma_put_twice(pool: PoolState, i: int, first: Slot, second: Slot)
    requires
        0 <= i <= pool.slots.len(),
    ensures
        pool.put(i, first).put(i, second) == pool.put(i, second),
{
    assert(pool.put(i, first).put(i, second).slots =~= pool.put(i, second).slots);
}

/// The place that a pool offers exists or is the one after the last.
proof fn lemma_offer_in_range(pool: PoolState)
    ensures
        match pool.offer() {
            Offer::Lend(i) => pool.is(i, Slot::Idle),
            Offer::Create(i) => pool.is(i, Slot::Vacant) || (i == pool.slots.len() && i
                < pool.config.max_size),
            Offer::Wait => true,
        },
{
    lemma_first_index(pool.slots, Slot::Idle);
    lemma_first_index(pool.slots, Slot::Vacant);
}

/// The request that runs is opening the connection of the place it was
/// offered, and has failed before only if the backend does not answer.
spec fn opening(start: ServiceState, pool: PoolState, borrower: BorrowerView) -> bool {
    match (start.pool.offer(), borrower.stage) {
        (Offer::Create(i), StageView::Connecting(permit)) => {
            &&& pool == start.pool.put(i, Slot::Pending)
            &&& permit.slot == i
            &&& permit.failures > 0 ==> !start.backend.up
        },
        _ => false,
    }
}

/// Borrows a connection for the one request that runs.
fn acquire(pool: &mut Pool, backend: &MemoryBackend) -> (outcome: Result<Lease, PoolError>)
    requires
        (ServiceState { pool: old(pool)@, backend: backend@ }).wf(),
    ensures
        final(pool)@ == (ServiceState { pool: old(pool)@, backend: backend@ }).borrowed(),
        match outcome {
            Ok(lease) => (ServiceState { pool: old(pool)@, backend: backend@ }).borrows() == Ok::<
                int,
                PoolError,
            >(lease@),
            Err(e) => (ServiceState { pool: old(pool)@, backend: backend@ }).borrows() == Err::<
                int,
                PoolError,
            >(e),
        },
{
    let ghost start = ServiceState { pool: pool@, backend: backend@ };
    proof {
        lemma_first_index(start.pool.slots, Slot::Idle);
        lemma_first_index(start.pool.slots, Slot::Vacant);
    }
    let mut turn = Borrower::new(BORROWER).step(pool, Signal::Begin { now: 0 });
    if let Next::Wait { deadline } = turn.next {
        proof {
            let names = labels(pool@.waiters);
            lemma_first_index(names, BORROWER);
            assert(names[0] == BORROWER);
            assert(pool@.waiters.remove(0) == start.pool.waiters);
        }
        turn = turn.borrower.step(pool, Signal::Deadline { now: deadline });
    }
    loop
        invariant
            start == (ServiceState { pool: old(pool)@, backend: backend@ }),
            start.wf(),
            match turn.next@ {
                NextView::Ready(slot) => start.borrows() == Ok::<int, PoolError>(slot) && pool@
                    == start.borrowed(),
                NextView::Failed(e) => start.borrows() == Err::<int, PoolError>(e) && pool@
                    == start.borrowed(),
                NextView::Connect => opening(start, pool@, turn.borrower@),
                _ => false,
            },
        decreases
                (match turn.next@ {
                    NextView::Connect => 1 + (match turn.borrower@.stage {
                        StageView::Connecting(permit) => if pool@.retries(permit) {
                            pool@.config.connect_attempts - permit.failures
                        } else {
                            0
                        },
                        _ => 0,
                    }),
                    _ => 0int,
                }),
    {
        let Turn { borrower, next, .. } = turn;
        match next {
            Next::Ready(lease) => {
                return Ok(lease);
            },
            Next::Failed(e) => {
                return Err(e);
            },
            Next::Connect => {
                proof {
                    lemma_offer_in_range(start.pool);
                    let i = start.pool.offer()->Create_0;
                    lemma_put_twice(start.pool, i, Slot::Pending, Slot::InUse);
                    lemma_put_twice(start.pool, i, Slot::Pending, Slot::Vacant);
                }
                let signal = match backend.connect() {
                    Ok(_) => Signal::Connected,
                    Err(_) => Signal::ConnectFailed,
                };
                turn = borrower.step(pool, signal);
            },
            _ => {
                return Err(PoolError::PoolExhausted);
            },
        }
    }
}

/// Runs the backend operation that `command` names.
fn operate(backend: &mut MemoryBackend, command: Command) -> (event: Event)
    requires
        command@ is Read || command@ is Write,
    ensures
        final(backend)@.up == old(backend)@.up,
        match command@ {
            CommandView::Read { key, names } => final(backend)@ == old(backend)@ && (if old(
                backend,
            )@.up {
                event@ == EventView::Read(reading(old(backend)@.records, key, names))
            } else {
                event@ == EventView::BackendFailed
            }),
            CommandView::Write { key, pairs } => if old(backend)@.up {
                event@ == EventView::Written && final(backend)@.records == writing(
                    old(backend)@.records,
                    key,
                    pairs,
                )
            } else {
                event@ == EventView::BackendFailed && final(backend)@ == old(backend)@
            },
            _ => true,
        },
{
    match command {
        Command::Read { key, names } => match backend.read_fields(key.as_str(), &names) {
            Ok(fields) => Event::Read(fields),
            Err(error) => Event::BackendFailed(error),
        },
        Command::Write { key, pairs } => match backend.write_fields(key.as_str(), &pairs) {
            Ok(_) => Event::Written,
            Err(error) => Event::BackendFailed(error),
        },
        _ => Event::Cancelled,
    }
}

/// Runs `request` from start to done on `pool` and `backend`.
fn run(pool: &mut Pool, backend: &mut MemoryBackend, request: Request) -> (verdict: Result<
    Reply,
    ServiceError,
>)
    requires
        (ServiceState { pool: old(pool)@, backend: old(backend)@ }).wf(),
    ensures
        (ServiceState { pool: final(pool)@, backend: final(backend)@ }) == (ServiceState {
            pool: old(pool)@,
            backend: old(backend)@,
        }).after(request@),
        (ServiceState { pool: final(pool)@, backend: final(backend)@ }).wf(),
        verdict_view(verdict) == (ServiceState {
            pool: old(pool)@,
            backend: old(backend)@,
        }).verdict(request@),
{
    let ghost start = ServiceState { pool: pool@, backend: backend@ };
    proof {
        lemma_first_index(start.pool.slots, Slot::Idle);
        lemma_first_index(start.pool.slots, Slot::Vacant);
    }
    let session = Session::new(request);
    let (session, command) = session.step(Event::Begin);
    let event = match command {
        Command::Acquire => match acquire(pool, backend) {
            Ok(lease) => Event::Acquired(lease),
            Err(error) => Event::AcquireFailed(error),
        },
        _ => Event::AcquireFailed(PoolError::PoolExhausted),
    };
    let (session, command) = session.step(event);
    let event = match command {
        Command::Respond(verdict) => {
            let _ = session.step(Event::Responded);
            return verdict;
        },
        command => operate(backend, command),
    };
    let (session, command) = session.step(event);
    proof {
        lemma_offer_in_range(start.pool);
        match start.pool.offer() {
            Offer::Lend(i) => {
                lemma_put_twice(start.pool, i, Slot::InUse, Slot::Idle);
                lemma_put_twice(start.pool, i, Slot::InUse, Slot::Vacant);
            },
            Offer::Create(i) => {
                lemma_put_twice(start.pool, i, Slot::InUse, Slot::Idle);
                lemma_put_twice(start.pool, i, Slot::InUse, Slot::Vacant);
            },
            Offer::Wait => {},
        }
    }
    match command {
        Command::Release { lease, health } => {
            let _ = pool.release(lease, health);
        },
        _ => {},
    }
    let (session, command) = session.step(Event::Released);
    let _ = session.step(Event::Responded);
    match command {
        Command::Respond(verdict) => verdict,
        _ => Err(unavailable(Failure::Pool(PoolError::PoolExhausted))),
    }
}

/// A service that runs its requests one at a time against a backend in
/// memory.
///
/// Between two requests nothing is borrowed, nothing is being opened and
/// nobody waits.
#[derive(Debug)]
pub struct Service {
    pool: Pool,
    backend: MemoryBackend,
}

impl View for Service {
    type V = ServiceState;

    closed spec fn view(&self) -> ServiceState {
        ServiceState { pool: self.pool@, backend: self.backend@ }
    }
}

impl Service {
    /// The service is between two requests; see [`ServiceState::wf`]. This
    /// holds of every service at all times.
    #[verifier::type_invariant]
    pub open spec fn wf(&self) -> bool {
        self@.wf()
    }

    /// A service with an empty pool on `backend`.
    pub fn new(config: PoolConfig, backend: MemoryBackend) -> (service: Service)
        ensures
            service@ == (ServiceState { pool: PoolState::fresh(config), backend: backend@ }),
    {
        Service { pool: Pool::new(config), backend }
    }

    /// The pool of the service.
    pub fn pool(&self) -> (pool: &Pool)
        ensures
            pool@ == self@.pool,
    {
        &self.pool
    }

    /// The backend of the service.
    pub fn backend(&self) -> (backend: &MemoryBackend)
        ensures
            backend@ == self@.backend,
    {
        &self.backend
    }

    /// Switches the backend on or off.
    pub fn set_up(&mut self, up: bool)
        ensures
            final(self)@.pool == old(self)@.pool,
            final(self)@.backend == (BackendState { records: old(self)@.backend.records, up }),
    {
        proof {
            use_type_invariant(&*self);
        }
        let mut backend = MemoryBackend::new();
        std::mem::swap(&mut backend, &mut self.backend);
        backend.set_up(up);
        self.backend = backend;
    }

    /// Runs `request` from start to done.
    ///
    /// The request borrows a connection, runs its one operation on it,
    /// hands the connection back, and answers. It goes through exactly
    /// where the backend answers and the pool may hold a connection;
    /// otherwise it ends with `BackendUnavailable` and writes nothing.
    /// Either way nothing stays borrowed.
    pub fn serve(&mut self, request: Request) -> (verdict: Result<Reply, ServiceError>)
        ensures
            final(self)@ == old(self)@.after(request@),
            verdict_view(verdict) == old(self)@.verdict(request@),
    {
        proof {
            use_type_invariant(&*self);
        }
        let mut pool = Pool::new(self.pool.config());
        let mut backend = MemoryBackend::new();
        std::mem::swap(&mut pool, &mut self.pool);
        std::mem::swap(&mut backend, &mut self.backend);
        let verdict = run(&mut pool, &mut backend, request);
        self.pool = pool;
        self.backend = backend;
        verdict
    }

    /// Fetches the record with the id of `request`. A field that the
    /// backend does not hold, as both are for an id that was never stored,
    /// comes back empty; that is no error.
    pub fn handle_get(&mut self, request: GetRequest) -> (outcome: Result<
        GetResponse,
        ServiceError,
    >)
        ensures
            final(self)@ == old(self)@.after(RequestView::Fetch { id: request.id@ }),
            final(self)@.backend == old(self)@.backend,
            outcome is Ok <==> old(self)@.serves(),
            match outcome {
                Ok(response) => old(self)@.answer(RequestView::Fetch { id: request.id@ })
                    == (ReplyView::Fetched { id: response.id@, status: response.status@ }),
                Err(error) => error@ == unavailable_view(),
            },
    {
        match self.serve(Request::Fetch(request)) {
            Ok(Reply::Fetched(response)) => Ok(response),
            Ok(Reply::Stored(_)) => Err(unavailable(Failure::Pool(PoolError::PoolExhausted))),
            Err(error) => Err(error),
        }
    }

    /// Stores the status of `request` under its id.
    pub fn handle_set(&mut self, request: SetRequest) -> (outcome: Result<
        SetResponse,
        ServiceError,
    >)
        ensures
            final(self)@ == old(self)@.after(
                RequestView::Store { id: request.id@, status: request.status@ },
            ),
            outcome is Ok <==> old(self)@.serves(),
            outcome matches Err(error) ==> error@ == unavailable_view(),
    {
        match self.serve(Request::Store(request)) {
            Ok(Reply::Stored(response)) => Ok(response),
            Ok(Reply::Fetched(_)) => Err(unavailable(Failure::Pool(PoolError::PoolExhausted))),
            Err(error) => Err(error),
        }
    }
}

} // verus!
