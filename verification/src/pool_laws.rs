//! What holds of the pool whatever its borrowers do.

use crate::pool_model::{
    deadline_after, labels, AdmissionView, Health, Offer, PatienceView, PermitView, PoolConfig,
    PoolError, PoolOp, PoolState, ReleasedView, Slot, Waiter, WakeView,
};
use crate::search::{count, first_index, lemma_count_update, lemma_count_zero, lemma_first_index};
use vstd::prelude::*;

verus! {

impl PoolState {
    /// The places whose connection is in a borrower's hands.
    pub open spec fn held(self) -> Set<int> {
        Set::new(|i: int| self.is(i, Slot::InUse))
    }

    /// The place whose lease `op` takes back from its borrower.
    pub open spec fn takes_back(self, op: PoolOp) -> Option<int> {
        match op {
            PoolOp::Release { slot, health } => if self.is(slot, Slot::InUse) {
                Some(slot)
            } else {
                None
            },
            _ => None,
        }
    }

    /// The place whose lease `op` gives to a borrower: to the one that
    /// asks, to the one that opened the connection, or to the first waiter.
    pub open spec fn gives_out(self, op: PoolOp) -> Option<int> {
        match op {
            PoolOp::Request { waiter, now } => match self.offer() {
                Offer::Lend(i) => Some(i),
                _ => None,
            },
            PoolOp::Connected { slot } => if self.is(slot, Slot::Pending) {
                Some(slot)
            } else {
                None
            },
            PoolOp::Release { slot, health } => if self.is(slot, Slot::InUse) && health
                == Health::Healthy && self.waiters.len() > 0 {
                Some(slot)
            } else {
                None
            },
            _ => None,
        }
    }

    /// The pool after the operations `ops`, one after the other.
    pub open spec fn run(self, ops: Seq<PoolOp>) -> PoolState
        decreases ops.len(),
    {
        if ops.len() == 0 {
            self
        } else {
            self.run(ops.drop_last()).apply(ops.last())
        }
    }
}

/// The borrowed, the idle and the pending connections are different
/// places, so together they are no more than there are places.
pub proof fn lemma_census(slots: Seq<Slot>)
    ensures
        count(slots, Slot::InUse) + count(slots, Slot::Idle) + count(slots, Slot::Pending) + count(
            slots,
            Slot::Vacant,
        ) == slots.len(),
    decreases slots.len(),
{
    if slots.len() > 0 {
        lemma_census(slots.drop_last());
    }
}

/// Every operation leaves a pool that keeps to its limits.
pub proof fn law_apply_keeps_limits(pool: PoolState, op: PoolOp)
    requires
        pool.wf(),
    ensures
        pool.apply(op).wf(),
        pool.apply(op).config == pool.config,
{
    lemma_first_index(pool.slots, Slot::Idle);
    lemma_first_index(pool.slots, Slot::Vacant);
    match op {
        PoolOp::Expire { waiter, now } => {
            lemma_first_index(labels(pool.waiters), waiter);
        },
        _ => {},
    }
}

/// Borrowed, idle and pending connections together never exceed
/// `max_size`, after any operations on a pool that keeps to its limits.
pub proof fn law_capacity(pool: PoolState, ops: Seq<PoolOp>)
    requires
        pool.wf(),
    ensures
        pool.run(ops).wf(),
        pool.run(ops).config == pool.config,
        pool.run(ops).in_use() + pool.run(ops).idle() + pool.run(ops).pending()
            <= pool.config.max_size,
    decreases ops.len(),
{
    if ops.len() > 0 {
        law_capacity(pool, ops.drop_last());
        law_apply_keeps_limits(pool.run(ops.drop_last()), ops.last());
    }
    lemma_census(pool.run(ops).slots);
}

/// A new pool keeps to its limits, so the bound holds of everything that
/// is ever done to it.
pub proof fn law_capacity_from_start(config: PoolConfig, ops: Seq<PoolOp>)
    ensures
        PoolState::fresh(config).run(ops).in_use() + PoolState::fresh(config).run(ops).idle()
            + PoolState::fresh(config).run(ops).pending() <= config.max_size,
{
    law_capacity(PoolState::fresh(config), ops);
}

/// No connection is in two hands: an operation gives out the lease of a
/// place only if nobody holds it, or if the same operation takes it back
/// from its holder; and the places held afterwards are those held before,
/// less the one taken back, plus the one given out.
pub proof fn law_one_holder(pool: PoolState, op: PoolOp)
    requires
        pool.wf(),
    ensures
        pool.gives_out(op) matches Some(i) ==> !pool.held().contains(i) || pool.takes_back(op)
            == Some(i),
        forall|i: int|
            pool.apply(op).held().contains(i) <==> pool.gives_out(op) == Some(i) || (
            pool.held().contains(i) && pool.takes_back(op) != Some(i)),
{
    lemma_first_index(pool.slots, Slot::Idle);
    lemma_first_index(pool.slots, Slot::Vacant);
}

/// A borrowed connection can always be handed back, and once is enough:
/// the release is accepted, and unless the connection went straight to a
/// waiter the place is no longer borrowed, so that a second release of the
/// same lease is refused and changes nothing.
pub proof fn law_release_once(pool: PoolState, slot: int, health: Health, again: Health)
    requires
        pool.wf(),
        pool.is(slot, Slot::InUse),
    ensures
        pool.released(slot, health) is Ok,
        pool.apply(PoolOp::Release { slot, health }).in_use() + (if pool.gives_out(
            PoolOp::Release { slot, health },
        ) is Some {
            0nat
        } else {
            1nat
        }) == pool.in_use(),
        pool.gives_out(PoolOp::Release { slot, health }) is None ==> {
            let after = pool.apply(PoolOp::Release { slot, health });
            &&& !after.held().contains(slot)
            &&& after.released(slot, again) == Err::<ReleasedView, PoolError>(
                PoolError::DoubleRelease,
            )
            &&& after.apply(PoolOp::Release { slot, health: again }) == after
        },
{
    lemma_count_update(pool.slots, slot, Slot::Idle, Slot::InUse);
    lemma_count_update(pool.slots, slot, Slot::Vacant, Slot::InUse);
    lemma_count_update(pool.slots, slot, Slot::Pending, Slot::InUse);
}

/// Handing a connection back touches its own place and the head of the
/// queue, and nothing else: every other place holds what it held, and the
/// waiters behind the first keep their order.
pub proof fn law_release_is_local(pool: PoolState, slot: int, health: Health, other: int)
    requires
        pool.wf(),
        0 <= other < pool.slots.len(),
        other != slot,
    ensures
        ({
            let after = pool.apply(PoolOp::Release { slot, health });
            &&& after.slots.len() == pool.slots.len()
            &&& after.slots[other] == pool.slots[other]
            &&& after.config == pool.config
            &&& after.waiters == pool.waiters || after.waiters == pool.waiters.remove(0)
        }),
{
}

/// A connection that is handed back broken is never idle again: its place
/// holds no connection until a borrower has opened a new one for it, and
/// no borrower is lent the place before that.
pub proof fn law_broken_is_replaced(pool: PoolState, slot: int, op: PoolOp, now: u64)
    requires
        pool.wf(),
        pool.is(slot, Slot::InUse),
    ensures
        ({
            let after = pool.apply(PoolOp::Release { slot, health: Health::Broken });
            &&& pool.released(slot, Health::Broken) == Ok::<ReleasedView, PoolError>(
                ReleasedView { close: true, wake: pool.heir(slot) },
            )
            &&& after.is(slot, Slot::Vacant) || after.is(slot, Slot::Pending)
            &&& after.admission(now) != AdmissionView::Lend(slot)
            &&& !after.apply(op).is(slot, Slot::Idle)
            &&& after.apply(op).is(slot, Slot::InUse) ==> op == PoolOp::Connected { slot }
        }),
{
    let after = pool.apply(PoolOp::Release { slot, health: Health::Broken });
    lemma_first_index(after.slots, Slot::Idle);
    lemma_first_index(after.slots, Slot::Vacant);
}

/// A place changes hands in one order only. It holds an idle connection
/// only if it held one before or a borrower has just handed one back
/// healthy. It holds a borrowed connection only if it held one before, or
/// its idle connection was just lent, or a borrower has just opened its
/// connection. A place without a connection gets one in no other way than
/// by being opened.
pub proof fn law_slot_life_cycle(pool: PoolState, op: PoolOp, i: int)
    requires
        pool.wf(),
    ensures
        ({
            let after = pool.apply(op);
            &&& after.is(i, Slot::Idle) ==> pool.is(i, Slot::Idle) || (pool.is(i, Slot::InUse)
                && op == PoolOp::Release { slot: i, health: Health::Healthy })
            &&& after.is(i, Slot::InUse) ==> pool.is(i, Slot::InUse) || (pool.is(i, Slot::Idle)
                && op is Request) || (pool.is(i, Slot::Pending) && op == PoolOp::Connected {
                slot: i,
            })
            &&& pool.is(i, Slot::Vacant) || pool.is(i, Slot::Pending) ==> after.is(i, Slot::Vacant)
                || after.is(i, Slot::Pending) || op == PoolOp::Connected { slot: i }
        }),
{
    lemma_first_index(pool.slots, Slot::Idle);
    lemma_first_index(pool.slots, Slot::Vacant);
}

/// Once a connection is gone from its place, the place holds none until
/// one is opened for it: whatever is done to the pool, short of reporting
/// that the place's new connection is open, the place is neither idle nor
/// borrowed.
pub proof fn law_gone_until_opened(pool: PoolState, slot: int, ops: Seq<PoolOp>)
    requires
        pool.wf(),
        pool.is(slot, Slot::Vacant) || pool.is(slot, Slot::Pending),
        forall|k: int| 0 <= k < ops.len() ==> ops[k] != (PoolOp::Connected { slot }),
    ensures
        pool.run(ops).is(slot, Slot::Vacant) || pool.run(ops).is(slot, Slot::Pending),
        !pool.run(ops).is(slot, Slot::Idle),
        !pool.run(ops).is(slot, Slot::InUse),
    decreases ops.len(),
{
    if ops.len() > 0 {
        let before = ops.drop_last();
        assert forall|k: int| 0 <= k < before.len() implies before[k] != (PoolOp::Connected {
            slot,
        }) by {
            assert(before[k] == ops[k]);
        }
        law_gone_until_opened(pool, slot, before);
        law_capacity(pool, before);
        law_slot_life_cycle(pool.run(before), ops.last(), slot);
        assert(ops.last() == ops[ops.len() - 1]);
    }
}

/// While anybody waits, a borrower that arrives is queued behind, and the
/// connection or the place that comes free goes to the one who has waited
/// longest.
pub proof fn law_first_come_first_served(pool: PoolState, slot: int, health: Health, now: u64)
    requires
        pool.wf(),
        pool.waiters.len() > 0,
    ensures
        pool.offer() == Offer::Wait,
        pool.admission(now) is Wait,
        pool.is(slot, Slot::InUse) ==> pool.released(slot, health) == Ok::<ReleasedView, PoolError>(
            ReleasedView {
                close: health == Health::Broken,
                wake: Some(
                    if health == Health::Healthy {
                        WakeView::Lend { waiter: pool.waiters[0].label, slot }
                    } else {
                        WakeView::Create {
                            waiter: pool.waiters[0].label,
                            permit: PermitView { slot, failures: 0 },
                        }
                    },
                ),
            },
        ),
        pool.is(slot, Slot::InUse) ==> pool.apply(PoolOp::Release { slot, health }).waiters
            == pool.waiters.remove(0),
{
    lemma_first_index(pool.slots, Slot::Idle);
    lemma_first_index(pool.slots, Slot::Vacant);
}

/// A borrower is made to wait only when no connection is idle and none
/// can be opened, and its wait ends with `PoolExhausted` exactly when the
/// time has reached its deadline, `acquire_timeout` after its arrival.
pub proof fn law_wait_ends_at_deadline(pool: PoolState, waiter: u64, arrival: u64, now: u64)
    requires
        pool.wf(),
        pool.admission(arrival) is Wait,
        !labels(pool.waiters).contains(waiter),
    ensures
        pool.idle() == 0,
        pool.in_use() + pool.pending() == pool.config.max_size,
        ({
            let queued = pool.apply(PoolOp::Request { waiter, now: arrival });
            let end = deadline_after(arrival, pool.config.acquire_timeout);
            &&& pool.admission(arrival) == AdmissionView::Wait { deadline: end }
            &&& now >= end ==> queued.patience(waiter, now) == Err::<PatienceView, PoolError>(
                PoolError::PoolExhausted,
            )
            &&& now < end ==> queued.patience(waiter, now) == Ok::<PatienceView, PoolError>(
                PatienceView::Waiting { deadline: end },
            )
            &&& now >= end ==> !labels(queued.apply(PoolOp::Expire { waiter, now }).waiters).contains(
                waiter,
            )
        }),
{
    lemma_first_index(pool.slots, Slot::Idle);
    lemma_first_index(pool.slots, Slot::Vacant);
    lemma_count_zero(pool.slots, Slot::Idle);
    lemma_count_zero(pool.slots, Slot::Vacant);
    lemma_census(pool.slots);
    let queued = pool.apply(PoolOp::Request { waiter, now: arrival });
    let end = deadline_after(arrival, pool.config.acquire_timeout);
    let names = labels(queued.waiters);
    lemma_first_index(names, waiter);
    let last = pool.waiters.len() as int;
    assert(names[last] == waiter);
    assert forall|j: int| 0 <= j < last implies names[j] != waiter by {
        assert(labels(pool.waiters)[j] == names[j]);
    }
    assert(first_index(names, waiter) == Some(last));
    if now >= end {
        let left = queued.apply(PoolOp::Expire { waiter, now });
        assert(left.waiters == pool.waiters);
    }
}

/// With room for one connection, two borrowers are served one after the
/// other: the first opens the connection, the second is queued and not
/// refused, and when the first hands the connection back it goes to the
/// second.
pub proof fn law_single_connection_serves_in_turn(
    config: PoolConfig,
    first: u64,
    second: u64,
    t1: u64,
    t2: u64,
)
    requires
        config.max_size == 1,
    ensures
        ({
            let s0 = PoolState::fresh(config);
            let s1 = s0.apply(PoolOp::Request { waiter: first, now: t1 });
            let s2 = s1.apply(PoolOp::Connected { slot: 0 });
            let s3 = s2.apply(PoolOp::Request { waiter: second, now: t2 });
            let s4 = s3.apply(PoolOp::Release { slot: 0, health: Health::Healthy });
            &&& s0.admission(t1) == AdmissionView::Create(PermitView { slot: 0, failures: 0 })
            &&& s1.connection(PermitView { slot: 0, failures: 0 }) == Ok::<int, PoolError>(0)
            &&& s2.admission(t2) == AdmissionView::Wait {
                deadline: deadline_after(t2, config.acquire_timeout),
            }
            &&& s3.released(0, Health::Healthy) == Ok::<ReleasedView, PoolError>(
                ReleasedView {
                    close: false,
                    wake: Some(WakeView::Lend { waiter: second, slot: 0 }),
                },
            )
            &&& s4.is(0, Slot::InUse)
            &&& s4.waiters.len() == 0
            &&& s4.apply(PoolOp::Release { slot: 0, health: Health::Healthy }).slots
                == seq![Slot::Idle]
        }),
{
    let s0 = PoolState::fresh(config);
    lemma_first_index(s0.slots, Slot::Idle);
    lemma_first_index(s0.slots, Slot::Vacant);
    let s1 = s0.apply(PoolOp::Request { waiter: first, now: t1 });
    assert(s1.slots == seq![Slot::Pending]);
    let s2 = s1.apply(PoolOp::Connected { slot: 0 });
    assert(s2.slots == seq![Slot::InUse]);
    lemma_first_index(s2.slots, Slot::Idle);
    lemma_first_index(s2.slots, Slot::Vacant);
    let s3 = s2.apply(PoolOp::Request { waiter: second, now: t2 });
    assert(s3.waiters.len() == 1);
    let s4 = s3.apply(PoolOp::Release { slot: 0, health: Health::Healthy });
    assert(s4.waiters == Seq::<Waiter>::empty());
}

} // verus!
