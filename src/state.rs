use vstd::prelude::*;

verus! {

/// Identifier under which an I/O is registered with the reactor.
#[derive(Clone, Copy, Debug, PartialEq, Eq, Structural)]
pub struct Token(pub usize);

/// Set of readiness kinds the reactor is asked to report for one token.
#[derive(Clone, Copy, Debug, PartialEq, Eq, Structural)]
pub struct Interest {
    pub readable: bool,
    pub writable: bool,
    pub hup: bool,
}

/// The mask with the given readiness kinds.
pub open spec fn mask(readable: bool, writable: bool, hup: bool) -> Interest {
    Interest { readable, writable, hup }
}

impl Interest {
    /// No readiness at all: the reactor stays quiet for the token.
    pub fn none() -> (r: Interest)
        ensures
            r == mask(false, false, false),
    {
        Interest { readable: false, writable: false, hup: false }
    }

    /// Readability only.
    pub fn readable() -> (r: Interest)
        ensures
            r == mask(true, false, false),
    {
        Interest { readable: true, writable: false, hup: false }
    }

    /// Writability only.
    pub fn writable() -> (r: Interest)
        ensures
            r == mask(false, true, false),
    {
        Interest { readable: false, writable: true, hup: false }
    }

    /// Hang-up only: the sentinel interest of a finished coroutine.
    pub fn hup() -> (r: Interest)
        ensures
            r == mask(false, false, true),
    {
        Interest { readable: false, writable: false, hup: true }
    }

    /// Readability and writability, the interest an I/O is first registered with.
    pub fn read_write() -> (r: Interest)
        ensures
            r == mask(true, true, false),
    {
        Interest { readable: true, writable: true, hup: false }
    }

    /// Whether the mask is empty.
    pub fn is_none(&self) -> (r: bool)
        ensures
            r == (*self == mask(false, false, false)),
    {
        !self.readable && !self.writable && !self.hup
    }

    /// Whether the mask is exactly hang-up.
    pub fn is_hup_only(&self) -> (r: bool)
        ensures
            r == (*self == mask(false, false, true)),
    {
        !self.readable && !self.writable && self.hup
    }
}

/// State of a coroutine, as the reactor side sees it.
#[derive(Clone, Copy, Debug, PartialEq, Eq, Structural)]
pub enum State {
    /// Parked inside a write on the I/O registered under the token.
    BlockedOnWrite(Token),
    /// Parked inside a read on the I/O registered under the token.
    BlockedOnRead(Token),
    /// Executing its body.
    Running,
    /// Its body has returned. Terminal.
    Finished,
}

/// The interest that the I/O registered under `token` must carry while the
/// coroutine is in state `s` (not `Running`: a running coroutine is never
/// parked, so no interest is derived from it).
pub open spec fn interest_for(s: State, token: Token) -> Interest {
    match s {
        State::BlockedOnRead(b) => if b == token {
            mask(true, false, false)
        } else {
            mask(false, false, false)
        },
        State::BlockedOnWrite(b) => if b == token {
            mask(false, true, false)
        } else {
            mask(false, false, false)
        },
        State::Finished => mask(false, false, true),
        State::Running => mask(false, false, false),
    }
}

impl State {
    /// The interest for `token` in this state.
    pub fn to_interest_for(&self, token: Token) -> (r: Interest)
        requires
            !(*self is Running),
        ensures
            r == interest_for(*self, token),
    {
        match *self {
            State::BlockedOnRead(blocked) => if token == blocked {
                Interest::readable()
            } else {
                Interest::none()
            },
            State::BlockedOnWrite(blocked) => if token == blocked {
                Interest::writable()
            } else {
                Interest::none()
            },
            State::Finished => Interest::hup(),
            State::Running => Interest::none(),
        }
    }
}

} // verus!
