//! What holds of the service as a whole.

use crate::backend_laws::{
    law_round_trip, law_unwritten_reads_empty, law_write_idempotent, lemma_names_differ,
};
use crate::error::{unavailable_view, ServiceErrorView};
use crate::pool_model::{Offer, Slot};
use crate::record::{key_of, names, pairs_of};
use crate::search::{lemma_count_zero, lemma_first_index};
use crate::service::ServiceState;
use crate::session::{ReplyView, RequestView};
use vstd::prelude::*;

verus! {

/// A request leaves the service between two requests: nothing is
/// borrowed, nothing is being opened, nobody waits, and the limits are the
/// same.
pub proof fn law_nothing_stays_borrowed(service: ServiceState, request: RequestView)
    requires
        service.wf(),
    ensures
        service.after(request).wf(),
        service.after(request).pool.config == service.pool.config,
        service.after(request).backend.up == service.backend.up,
        service.after(request).pool.in_use() == 0,
        service.after(request).pool.pending() == 0,
{
    lemma_first_index(service.pool.slots, Slot::Idle);
    lemma_first_index(service.pool.slots, Slot::Vacant);
    let after = service.after(request);
    lemma_count_zero(after.pool.slots, Slot::InUse);
    lemma_count_zero(after.pool.slots, Slot::Pending);
}

/// Asking for an id that was never stored is no error: where the service
/// serves, the answer has an empty id and an empty status.
pub proof fn law_unknown_id_is_empty(service: ServiceState, id: Seq<char>)
    requires
        service.serves(),
        !service.backend.records.contains_key(key_of(id)),
    ensures
        service.verdict(RequestView::Fetch { id }) == Ok::<ReplyView, ServiceErrorView>(
            ReplyView::Fetched { id: Seq::empty(), status: Seq::empty() },
        ),
        service.after(RequestView::Fetch { id }).backend == service.backend,
{
    law_unwritten_reads_empty(service.backend.records, key_of(id), names());
}

/// Storing the same record twice leaves the backend as storing it once
/// does.
pub proof fn law_set_idempotent(service: ServiceState, id: Seq<char>, status: Seq<char>)
    ensures
        ({
            let request = RequestView::Store { id, status };
            service.after(request).after(request).backend == service.after(request).backend
        }),
{
    law_write_idempotent(service.backend.records, key_of(id), pairs_of(id, status));
}

/// What was stored is what is fetched: where the service serves, a fetch
/// after a store of the same id answers with the id and the status that
/// were stored.
pub proof fn law_get_returns_what_was_set(service: ServiceState, id: Seq<char>, status: Seq<char>)
    requires
        service.serves(),
    ensures
        service.after(RequestView::Store { id, status }).verdict(RequestView::Fetch { id })
            == Ok::<ReplyView, ServiceErrorView>(ReplyView::Fetched { id, status }),
{
    law_round_trip(service.backend.records, key_of(id), id, status);
    lemma_names_differ();
}

/// A request fails in one way only, and then writes nothing: where the
/// backend does not answer, or the pool may hold no connection, the
/// verdict is `BackendUnavailable` and the records are as before.
pub proof fn law_failure_changes_nothing(service: ServiceState, request: RequestView)
    requires
        !service.serves(),
    ensures
        service.verdict(request) == Err::<ReplyView, ServiceErrorView>(
            unavailable_view(),
        ),
        service.after(request).backend == service.backend,
{
}

/// A connection on which an operation failed does not stay in the pool:
/// where the backend does not answer, the place that the request borrowed
/// or tried to fill is vacant afterwards, not idle.
pub proof fn law_failed_connection_is_evicted(service: ServiceState, request: RequestView)
    requires
        service.wf(),
        !service.backend.up,
    ensures
        match service.pool.offer() {
            Offer::Lend(i) => service.after(request).pool.is(i, Slot::Vacant),
            Offer::Create(i) => service.after(request).pool.is(i, Slot::Vacant),
            Offer::Wait => service.after(request).pool == service.pool,
        },
{
    lemma_first_index(service.pool.slots, Slot::Idle);
    lemma_first_index(service.pool.slots, Slot::Vacant);
}

} // verus!
