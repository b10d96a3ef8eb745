//! What holds of every request, whatever its caller reports.

use crate::error::unavailable_view;
use crate::pool_model::Health;
use crate::session::{CommandView, EventView, Phase, RequestView, SessionView, StateView};
use vstd::prelude::*;

verus! {

impl SessionView {
    /// The session after `events`, one after the other.
    pub open spec fn run(self, events: Seq<EventView>) -> SessionView
        decreases events.len(),
    {
        if events.len() == 0 {
            self
        } else {
            self.run(events.drop_last()).step(events.last()).0
        }
    }

    /// What the session asks for in answer to each of `events`.
    pub open spec fn commands(self, events: Seq<EventView>) -> Seq<CommandView>
        decreases events.len(),
    {
        if events.len() == 0 {
            Seq::empty()
        } else {
            self.commands(events.drop_last()).push(
                self.run(events.drop_last()).step(events.last()).1,
            )
        }
    }

    /// What the session will tell its caller holds no more than the one
    /// error that failures are reported as.
    pub open spec fn discreet(self) -> bool {
        match self.state {
            StateView::Releasing(Err(error)) => error == unavailable_view(),
            _ => true,
        }
    }
}

/// How often `events` lend the connection of place `slot` to the session.
pub open spec fn lent(events: Seq<EventView>, slot: int) -> nat
    decreases events.len(),
{
    if events.len() == 0 {
        0
    } else {
        lent(events.drop_last(), slot) + if events.last() == EventView::Acquired(slot) {
            1nat
        } else {
            0nat
        }
    }
}

/// How often `commands` hand the connection of place `slot` back.
pub open spec fn handed_back(commands: Seq<CommandView>, slot: int) -> nat
    decreases commands.len(),
{
    if commands.len() == 0 {
        0
    } else {
        handed_back(commands.drop_last(), slot) + (match commands.last() {
            CommandView::Release { slot: s, health } => if s == slot {
                1nat
            } else {
                0nat
            },
            _ => 0nat,
        })
    }
}

/// One if the session holds the connection of place `slot`, else nought.
pub open spec fn holding(session: SessionView, slot: int) -> nat {
    if session.holds() == Some(slot) {
        1
    } else {
        0
    }
}

/// A session moves only along the arrows of its state machine: from start
/// to acquiring, from there to operating or to failed, then to releasing,
/// to responding and to done; or it stays where it is.
pub proof fn law_phases_in_order(session: SessionView, event: EventView)
    ensures
        ({
            let before = session.phase();
            let after = session.step(event).0.phase();
            ||| after == before
            ||| before == Phase::Start && after == Phase::Acquiring
            ||| before == Phase::Acquiring && (after == Phase::Operating || after == Phase::Failed)
            ||| before == Phase::Operating && after == Phase::Releasing
            ||| before == Phase::Releasing && after == Phase::Responding
            ||| before == Phase::Responding && after == Phase::Done
        }),
        session.step(event).0.request == session.request,
{
}

/// No way out of the operation leaves the connection behind: whatever
/// the caller reports while the operation runs, the session hands back the
/// connection it holds and goes on to releasing. The connection is handed
/// back healthy exactly when the report is the good end of the request's
/// own operation, and broken after a failure, a cancellation or anything
/// else. The one report that does not end the operation is a second
/// connection, which goes straight back while the first is kept.
pub proof fn law_release_on_every_path(session: SessionView, slot: int, event: EventView)
    requires
        session.state == StateView::Operating(slot),
    ensures
        event matches EventView::Acquired(other) ==> session.step(event) == (
            session,
            CommandView::Release { slot: other, health: Health::Healthy },
        ),
        !(event is Acquired) ==> {
            &&& session.step(event).0.phase() == Phase::Releasing
            &&& session.step(event).1 == CommandView::Release {
                slot,
                health: if session.request.answer(event) is Some {
                    Health::Healthy
                } else {
                    Health::Broken
                },
            }
        },
        event == EventView::BackendFailed || event == EventView::Cancelled ==> session.step(
            event,
        ).1 == (CommandView::Release { slot, health: Health::Broken }),
{
}

/// In one step the session gives back what it takes: the connection it is
/// lent and the one it held are the one it hands back and the one it
/// holds afterwards.
pub proof fn lemma_step_conserves(session: SessionView, event: EventView, slot: int)
    ensures
        lent(seq![event], slot) + holding(session, slot) == handed_back(
            seq![session.step(event).1],
            slot,
        ) + holding(session.step(event).0, slot),
{
    assert(seq![event].drop_last() == Seq::<EventView>::empty());
    assert(seq![session.step(event).1].drop_last() == Seq::<CommandView>::empty());
    reveal_with_fuel(lent, 2);
    reveal_with_fuel(handed_back, 2);
}

/// Every connection that a session is lent is handed back exactly once:
/// after any reports whatever, each place was handed back as often as it
/// was lent, less the one time that the session still holds it. A session
/// that is not operating holds nothing, so there the two numbers agree.
pub proof fn law_released_exactly_once(request: RequestView, events: Seq<EventView>, slot: int)
    ensures
        lent(events, slot) == handed_back(SessionView::fresh(request).commands(events), slot)
            + holding(SessionView::fresh(request).run(events), slot),
        SessionView::fresh(request).run(events).phase() != Phase::Operating ==> lent(events, slot)
            == handed_back(SessionView::fresh(request).commands(events), slot),
    decreases events.len(),
{
    let start = SessionView::fresh(request);
    if events.len() > 0 {
        let before = events.drop_last();
        law_released_exactly_once(request, before, slot);
        let session = start.run(before);
        lemma_step_conserves(session, events.last(), slot);
        assert(seq![events.last()].drop_last() == Seq::<EventView>::empty());
        assert(seq![session.step(events.last()).1].drop_last() == Seq::<CommandView>::empty());
        reveal_with_fuel(lent, 2);
        reveal_with_fuel(handed_back, 2);
        assert(start.commands(events).drop_last() == start.commands(before));
    }
}

/// A failed request tells its caller one thing only: every error that a
/// session ever responds with is `BackendUnavailable` with the one
/// message, whatever failed and whatever was reported.
pub proof fn law_failures_look_alike(request: RequestView, events: Seq<EventView>, i: int)
    requires
        0 <= i < events.len(),
    ensures
        SessionView::fresh(request).run(events).discreet(),
        SessionView::fresh(request).commands(events)[i] matches CommandView::Respond(Err(error))
            ==> error == unavailable_view(),
    decreases events.len(),
{
    let start = SessionView::fresh(request);
    let before = events.drop_last();
    lemma_run_discreet(request, before);
    lemma_run_discreet(request, events);
    lemma_commands_len(start, before);
    if i < events.len() - 1 {
        law_failures_look_alike(request, before, i);
        assert(start.commands(events)[i] == start.commands(before)[i]);
    }
}

/// The session answers each report with one command.
pub proof fn lemma_commands_len(session: SessionView, events: Seq<EventView>)
    ensures
        session.commands(events).len() == events.len(),
    decreases events.len(),
{
    if events.len() > 0 {
        lemma_commands_len(session, events.drop_last());
    }
}

/// See [`SessionView::discreet`]: it holds after any reports.
pub proof fn lemma_run_discreet(request: RequestView, events: Seq<EventView>)
    ensures
        SessionView::fresh(request).run(events).discreet(),
    decreases events.len(),
{
    if events.len() > 0 {
        lemma_run_discreet(request, events.drop_last());
    }
}

/// A request that is answered is answered with what its own operation
/// returned: the session responds with an answer only from releasing, and
/// it got there only by the good end of the request's operation.
pub proof fn law_answer_is_the_operations(session: SessionView, slot: int, event: EventView)
    requires
        session.state == StateView::Operating(slot),
        !(event is Acquired),
    ensures
        ({
            let (releasing, release) = session.step(event);
            let (responding, respond) = releasing.step(EventView::Released);
            &&& respond == CommandView::Respond(
                match session.request.answer(event) {
                    Some(reply) => Ok(reply),
                    None => Err(unavailable_view()),
                },
            )
            &&& responding.phase() == Phase::Responding
            &&& responding.step(EventView::Responded).0.phase() == Phase::Done
        }),
{
}

} // verus!
