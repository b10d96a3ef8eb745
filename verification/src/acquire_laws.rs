//! What holds of every borrower on its way to a connection.

use crate::acquire::{BorrowerView, NextView, SignalView, StageView};
use crate::pool_laws::law_apply_keeps_limits;
use crate::pool_model::{
    labels, Health, PoolError, PoolOp, PoolState, Slot, WakeView,
};
use crate::search::{first_index, lemma_first_index};
use vstd::prelude::*;

verus! {

/// Whatever a borrower is told, the pool keeps to its limits.
pub proof fn law_step_keeps_limits(borrower: BorrowerView, pool: PoolState, signal: SignalView)
    requires
        pool.wf(),
    ensures
        borrower.step(pool, signal).pool.wf(),
        borrower.step(pool, signal).pool.config == pool.config,
        borrower.step(pool, signal).borrower.label == borrower.label,
{
    match signal {
        SignalView::Begin { now } => {
            law_apply_keeps_limits(pool, PoolOp::Request { waiter: borrower.label, now });
        },
        SignalView::Deadline { now } => {
            law_apply_keeps_limits(pool, PoolOp::Expire { waiter: borrower.label, now });
        },
        SignalView::Woken(WakeView::Lend { waiter, slot }) => {
            law_apply_keeps_limits(pool, PoolOp::Release { slot, health: Health::Healthy });
        },
        SignalView::Woken(WakeView::Create { waiter, permit }) => {
            law_apply_keeps_limits(pool, PoolOp::Abandon { slot: permit.slot });
        },
        SignalView::Cancelled => {
            law_apply_keeps_limits(pool, PoolOp::Expire { waiter: borrower.label, now: u64::MAX });
            match borrower.stage {
                StageView::Connecting(permit) => {
                    law_apply_keeps_limits(pool, PoolOp::Abandon { slot: permit.slot });
                },
                _ => {},
            }
        },
        SignalView::Connected => {
            match borrower.stage {
                StageView::Connecting(permit) => {
                    law_apply_keeps_limits(pool, PoolOp::Connected { slot: permit.slot });
                },
                _ => {},
            }
        },
        SignalView::ConnectFailed => {
            match borrower.stage {
                StageView::Connecting(permit) => {
                    law_apply_keeps_limits(pool, PoolOp::ConnectFailed { permit });
                },
                _ => {},
            }
        },
    }
}

/// A borrower fails in three ways only, each for its own reason. It is
/// told `PoolExhausted` only when it was queued and its deadline has
/// passed, and then no connection is idle and none can be opened. It is
/// told `BackendUnreachable` only when opening a connection has failed as
/// often as the pool allows. It is told `DoubleRelease` only when it
/// reports on a permit whose place is not being opened.
pub proof fn law_why_acquire_fails(borrower: BorrowerView, pool: PoolState, signal: SignalView)
    requires
        pool.wf(),
    ensures
        match borrower.step(pool, signal).next {
            NextView::Failed(PoolError::PoolExhausted) => {
                &&& borrower.stage == StageView::Waiting
                &&& signal matches SignalView::Deadline { now }
                &&& first_index(labels(pool.waiters), borrower.label) matches Some(k)
                &&& pool.waiters[k].deadline <= now
                &&& pool.full()
            },
            NextView::Failed(PoolError::BackendUnreachable) => {
                &&& borrower.stage matches StageView::Connecting(permit)
                &&& signal == SignalView::ConnectFailed
                &&& pool.is(permit.slot, Slot::Pending)
                &&& permit.failures + 1 >= pool.config.connect_attempts
            },
            NextView::Failed(PoolError::DoubleRelease) => {
                &&& borrower.stage matches StageView::Connecting(permit)
                &&& (signal == SignalView::ConnectFailed || signal == SignalView::Connected)
                &&& !pool.is(permit.slot, Slot::Pending)
            },
            _ => true,
        },
{
    lemma_first_index(labels(pool.waiters), borrower.label);
}

/// A borrower that is told it has a connection has one that is borrowed
/// and was not in anybody's hands before: the idle one it was offered, the
/// one it opened itself, or the one it was woken with, which the borrower
/// that released it no longer holds.
pub proof fn law_ready_means_borrowed(borrower: BorrowerView, pool: PoolState, signal: SignalView)
    requires
        pool.wf(),
        signal matches SignalView::Woken(WakeView::Lend { waiter, slot }) ==> pool.is(
            slot,
            Slot::InUse,
        ),
    ensures
        borrower.step(pool, signal).next matches NextView::Ready(slot) ==> {
            &&& borrower.step(pool, signal).pool.is(slot, Slot::InUse)
            &&& signal is Woken || !pool.is(slot, Slot::InUse)
        },
{
    lemma_first_index(pool.slots, Slot::Idle);
    lemma_first_index(pool.slots, Slot::Vacant);
}

} // verus!
