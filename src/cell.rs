use vstd::prelude::*;
use crate::state::{Token, Interest, State, interest_for, mask};

verus! {

/// The shared record of one coroutine: its state. The host keeps the
/// coroutine's context beside it.
#[derive(Clone, Copy, Debug, PartialEq, Eq, Structural)]
pub struct Coroutine {
    pub state: State,
}

impl Coroutine {
    /// A record for a coroutine about to be spawned: it will be running.
    pub fn new() -> (r: Coroutine)
        ensures
            r.state == State::Running,
    {
        Coroutine { state: State::Running }
    }

    /// The body has returned, or the coroutine could not be resumed: no
    /// further transition happens.
    pub fn finish(&mut self)
        ensures
            final(self).state == State::Finished,
    {
        self.state = State::Finished;
    }

    /// Whether the body has returned.
    pub fn is_finished(&self) -> (r: bool)
        ensures
            r == (self.state == State::Finished),
    {
        match self.state {
            State::Finished => true,
            _ => false,
        }
    }
}

/// A reactor operation that the host must perform for one I/O.
#[derive(Clone, Copy, Debug, PartialEq, Eq, Structural)]
pub enum Registration {
    /// Rearm the I/O under the token with the interest, edge-triggered and
    /// one-shot.
    Reregister(Token, Interest),
    /// Remove the I/O from the reactor: it is dormant from now on.
    Deregister,
}

/// What the coupling keeps of one registered I/O: its token, the interest
/// last handed to the reactor, whether the peer hung up, and whether the I/O
/// has been deregistered.
#[derive(Clone, Copy, Debug, PartialEq, Eq, Structural)]
pub struct IoCell {
    pub token: Token,
    pub interest: Interest,
    pub peer_hup: bool,
    pub deregistered: bool,
}

/// The cell once rearmed for `token` while its coroutine is in state `s`.
pub open spec fn rearmed(cell: IoCell, s: State, token: Token) -> IoCell {
    IoCell { interest: interest_for(s, token), ..cell }
}

/// A cell whose interest is exactly hang-up belongs to a finished coroutine.
pub open spec fn is_winding_down(cell: IoCell) -> bool {
    cell.interest == mask(false, false, true)
}

/// The cell after a hang-up for `token` while its coroutine is in state `s`.
/// A cell already deregistered stays as it is.
pub open spec fn after_hup(cell: IoCell, s: State, token: Token) -> IoCell {
    if cell.deregistered {
        cell
    } else if is_winding_down(cell) {
        IoCell { interest: mask(false, false, false), deregistered: true, ..cell }
    } else {
        IoCell { peer_hup: true, ..rearmed(cell, s, token) }
    }
}

/// The reactor operation a hang-up for `token` asks for, if any.
pub open spec fn hup_registration(cell: IoCell, s: State, token: Token) -> Option<Registration> {
    if cell.deregistered {
        None
    } else if is_winding_down(cell) {
        Some(Registration::Deregister)
    } else {
        Some(Registration::Reregister(token, interest_for(s, token)))
    }
}

/// Hang-up interest is only ever derived from a finished coroutine.
pub open spec fn coherent(cell: IoCell, co: Coroutine) -> bool {
    is_winding_down(cell) ==> co.state == State::Finished
}

/// Whether the I/O may be dropped: its coroutine has finished and the I/O
/// has been deregistered, so the reactor will report nothing more for it.
pub open spec fn finished(cell: IoCell, co: Coroutine) -> bool {
    co.state == State::Finished && cell.deregistered
}

/// Whether the first run of a coroutine, ending in state `s`, calls for the
/// I/O under `token` to be rearmed: the coroutine finished, or it is parked
/// on that I/O. Any other I/O keeps the interest it was registered with.
pub open spec fn armed_after_start(s: State, token: Token) -> bool {
    s == State::Finished || s == State::BlockedOnRead(token) || s == State::BlockedOnWrite(token)
}

impl IoCell {
    /// A cell for an I/O just registered under `token`, before its
    /// coroutine has parked.
    pub fn new(token: Token) -> (r: IoCell)
        ensures
            r.token == token,
            r.interest == mask(false, false, false),
            !r.peer_hup,
            !r.deregistered,
    {
        IoCell { token, interest: Interest::none(), peer_hup: false, deregistered: false }
    }

    /// Derive the interest for `token` from the coroutine's state, and ask
    /// for the I/O to be rearmed with it.
    pub fn reregister(&mut self, co: &Coroutine, token: Token) -> (r: Registration)
        requires
            !(co.state is Running),
        ensures
            *final(self) == rearmed(*old(self), co.state, token),
            r == Registration::Reregister(token, final(self).interest),
    {
        self.interest = co.state.to_interest_for(token);
        Registration::Reregister(token, self.interest)
    }

    /// After the first run of a freshly spawned coroutine, rearm the cell
    /// for its own token where that run calls for it: a finished coroutine
    /// leaves the cell armed for the hang-up that deregisters it, and one
    /// parked on this I/O narrows its interest to the direction it waits in.
    /// Any other cell keeps its first registration and asks for nothing.
    pub fn arm(&mut self, co: &Coroutine) -> (r: Option<Registration>)
        requires
            !(co.state is Running),
        ensures
            armed_after_start(co.state, old(self).token) ==> {
                &&& *final(self) == rearmed(*old(self), co.state, old(self).token)
                &&& r == Some(Registration::Reregister(old(self).token, final(self).interest))
            },
            !armed_after_start(co.state, old(self).token) ==> *final(self) == *old(self) && r is None,
    {
        let token = self.token;
        let rearm = match co.state {
            State::Finished => true,
            State::BlockedOnRead(b) => b == token,
            State::BlockedOnWrite(b) => b == token,
            State::Running => false,
        };
        if rearm {
            Some(self.reregister(co, token))
        } else {
            None
        }
    }

    /// A hang-up was reported for `token`. A cell armed for the hang-up of
    /// its finished coroutine is deregistered; one already deregistered asks
    /// for nothing; any other records that the peer hung up and is rearmed.
    pub fn hup(&mut self, co: &Coroutine, token: Token) -> (r: Option<Registration>)
        requires
            old(self).deregistered || is_winding_down(*old(self)) || !(co.state is Running),
        ensures
            *final(self) == after_hup(*old(self), co.state, token),
            r == hup_registration(*old(self), co.state, token),
    {
        if self.deregistered {
            None
        } else if self.interest.is_hup_only() {
            self.interest = Interest::none();
            self.deregistered = true;
            Some(Registration::Deregister)
        } else {
            self.peer_hup = true;
            Some(self.reregister(co, token))
        }
    }

    /// Whether the I/O may be dropped, no more events being due for it.
    pub fn is_finished(&self, co: &Coroutine) -> (r: bool)
        ensures
            r == finished(*self, *co),
    {
        co.is_finished() && self.deregistered
    }
}

} // verus!
