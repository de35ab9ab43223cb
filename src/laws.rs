use vstd::prelude::*;
use crate::state::{Token, State, interest_for};
use crate::cell::{Coroutine, Registration, IoCell, rearmed, after_hup, hup_registration, finished, coherent, is_winding_down};
use crate::handle::{Reaction, Attempt, Step, reacts, steps};

verus! {

/// Whenever an event leaves a registration to perform, the cell's interest
/// afterwards is the one derived from the coroutine's state for the event's
/// token, and that is the interest handed to the reactor; a deregistration
/// leaves the cell with no interest at all, and, the cell being coherent with
/// its coroutine, only happens once that coroutine has finished.
pub proof fn lemma_rearm_follows_state(
    cell: IoCell,
    co: Coroutine,
    token: Token,
    readable: bool,
    hup: bool,
    cell2: IoCell,
    co2: Coroutine,
    r: Reaction,
)
    requires
        coherent(cell, co),
        reacts(cell, co, token, readable, hup, cell2, co2, r),
    ensures
        r matches Reaction::Register(Registration::Reregister(t, i)) ==> {
            &&& t == token
            &&& i == interest_for(co2.state, token)
            &&& cell2.interest == i
        },
        r == Reaction::Register(Registration::Deregister) ==> {
            &&& co.state == State::Finished
            &&& finished(cell2, co2)
        },
{
}

/// A coroutine is resumed only by an event of the direction it is blocked
/// in, for the token it is blocked on, and it is running when resumed; a
/// hang-up never resumes it.
pub proof fn lemma_resume_only_when_blocked_on_token(
    cell: IoCell,
    co: Coroutine,
    token: Token,
    readable: bool,
    hup: bool,
    cell2: IoCell,
    co2: Coroutine,
    r: Reaction,
)
    requires
        reacts(cell, co, token, readable, hup, cell2, co2, r),
        r == Reaction::Resume,
    ensures
        !hup,
        readable ==> co.state == State::BlockedOnRead(token),
        !readable ==> co.state == State::BlockedOnWrite(token),
        co2.state == State::Running,
        cell2 == cell,
{
}

/// An I/O that may be dropped (its coroutine finished, the I/O deregistered)
/// stays so, and asks for nothing, under every readiness event that follows,
/// a hang-up included.
pub proof fn lemma_finished_is_stable(
    cell: IoCell,
    co: Coroutine,
    token: Token,
    readable: bool,
    hup: bool,
    cell2: IoCell,
    co2: Coroutine,
    r: Reaction,
)
    requires
        finished(cell, co),
        reacts(cell, co, token, readable, hup, cell2, co2, r),
    ensures
        finished(cell2, co2),
        cell2 == cell,
        co2 == co,
        r == Reaction::Ignore,
{
}

/// Every cell of a finished coroutine that is still registered, whatever
/// interest it holds, is deregistered exactly once within its next two
/// hang-ups (at once if it was armed for the hang-up, else at the second),
/// and may then be dropped; no later hang-up asks for anything.
pub proof fn lemma_single_deregistration(cell: IoCell, co: Coroutine, first: Token, second: Token, later: Token)
    requires
        !cell.deregistered,
        co.state == State::Finished,
    ensures
        (hup_registration(cell, co.state, first) == Some(Registration::Deregister))
            != (hup_registration(after_hup(cell, co.state, first), co.state, second)
            == Some(Registration::Deregister)),
        is_winding_down(cell) ==> finished(after_hup(cell, co.state, first), co),
        finished(after_hup(after_hup(cell, co.state, first), co.state, second), co),
        hup_registration(after_hup(after_hup(cell, co.state, first), co.state, second), co.state, later)
            is None,
{
}

/// An attempt from inside the coroutine leaves it either running with the
/// transport's outcome in hand, or parked on its own token; so the body,
/// which runs only between a resumption and its next park, finds the
/// coroutine running.
pub proof fn lemma_body_sees_running<E>(
    co: Coroutine,
    token: Token,
    reading: bool,
    a: Attempt<E>,
    co2: Coroutine,
    r: Step<E>,
)
    requires
        co.state == State::Running,
        steps(co, token, reading, a, co2, r),
    ensures
        r is Ready ==> co2.state == State::Running,
        r is Park ==> co2.state == (if reading { State::BlockedOnRead(token) } else { State::BlockedOnWrite(token) }),
        r is Park ==> interest_for(co2.state, token) != interest_for(State::Finished, token),
{
}

/// Every readiness event keeps a cell coherent with its coroutine.
pub proof fn lemma_events_keep_coherence(
    cell: IoCell,
    co: Coroutine,
    token: Token,
    readable: bool,
    hup: bool,
    cell2: IoCell,
    co2: Coroutine,
    r: Reaction,
)
    requires
        coherent(cell, co),
        reacts(cell, co, token, readable, hup, cell2, co2, r),
    ensures
        coherent(cell2, co2),
{
}

/// Every attempt from inside the coroutine keeps each of its cells coherent
/// with it.
pub proof fn lemma_attempts_keep_coherence<E>(
    cell: IoCell,
    co: Coroutine,
    token: Token,
    reading: bool,
    a: Attempt<E>,
    co2: Coroutine,
    r: Step<E>,
)
    requires
        coherent(cell, co),
        co.state == State::Running,
        steps(co, token, reading, a, co2, r),
    ensures
        coherent(cell, co2),
{
}

/// A cell rearmed from a state is coherent with a coroutine in that state,
/// and a coroutine's finishing keeps every cell coherent with it.
pub proof fn lemma_rearm_and_finish_keep_coherence(cell: IoCell, co: Coroutine, token: Token)
    ensures
        !(co.state is Running) ==> coherent(rearmed(cell, co.state, token), co),
        coherent(cell, Coroutine { state: State::Finished }),
{
}

/// The reactor holds for a cell the interest its coroutine's state asks for
/// on the cell's own token, or the cell may be dropped; control is with the
/// reactor, so the coroutine is not running.
pub open spec fn settled(cell: IoCell, co: Coroutine) -> bool {
    &&& !(co.state is Running)
    &&& finished(cell, co) || cell.interest == interest_for(co.state, cell.token)
}

/// Once control is back with the reactor, a cell is settled: an event on its
/// own token that does not resume the coroutine keeps it settled, and one
/// that does is followed, once the coroutine has suspended or returned, by
/// the rearm that settles it again (as the first run of a coroutine is
/// followed by arming each of its cells).
pub proof fn lemma_events_keep_cells_settled(
    cell: IoCell,
    co: Coroutine,
    readable: bool,
    hup: bool,
    cell2: IoCell,
    co2: Coroutine,
    r: Reaction,
    co3: Coroutine,
)
    requires
        settled(cell, co),
        reacts(cell, co, cell.token, readable, hup, cell2, co2, r),
        !(co3.state is Running),
    ensures
        r != Reaction::Resume ==> settled(cell2, co2),
        settled(rearmed(cell2, co3.state, cell2.token), co3),
{
}

} // verus!
