use vstd::prelude::*;
use crate::state::{Token, State, interest_for};
use crate::cell::{Coroutine, Registration, IoCell, rearmed, is_winding_down, after_hup, hup_registration};

verus! {

/// What the host does once a readiness event has been handed to the coupling.
#[derive(Clone, Copy, Debug, PartialEq, Eq, Structural)]
pub enum Reaction {
    /// Perform this reactor operation; the coroutine stays parked.
    Register(Registration),
    /// The coroutine is marked running: resume it, and once it has suspended
    /// or returned, rearm the I/O with `IoCell::reregister`.
    Resume,
    /// Nothing is due.
    Ignore,
}

/// Outcome of one non-blocking attempt on a transport.
#[derive(Debug, PartialEq, Eq)]
pub enum Attempt<E> {
    /// This many bytes were moved (zero at end of stream).
    Done(usize),
    /// The transport cannot proceed without waiting.
    WouldBlock,
    /// The transport failed.
    Failed(E),
}

/// What an internal handle does after one attempt.
#[derive(Debug, PartialEq, Eq)]
pub enum Step<E> {
    /// Hand this to the coroutine body.
    Ready(Result<usize, E>),
    /// The coroutine is marked blocked: suspend it, and attempt again once
    /// resumed.
    Park,
}

/// A transport that a coroutine can do I/O on: non-blocking reads and
/// writes that report when they would block.
pub trait ReadWrite {
    type Error;

    /// Read what is available into `buf`.
    fn try_read(&mut self, buf: &mut [u8]) -> Attempt<Self::Error>;

    /// Write what can be taken from `buf`.
    fn try_write(&mut self, buf: &[u8]) -> Attempt<Self::Error>;
}

/// What a readiness event for `token` does to the coroutine's state, the
/// cell, and the host, given the event's direction and whether it reports a
/// hang-up. A coroutine blocked on `token` in the event's direction is
/// resumed; one blocked on `token` in the other direction, or (in the
/// event's direction) on another token, is left parked and the cell rearmed.
/// A hang-up goes to `IoCell::hup`, which ignores an I/O already deregistered.
pub open spec fn reacts(
    cell: IoCell,
    co: Coroutine,
    token: Token,
    readable: bool,
    hup: bool,
    cell2: IoCell,
    co2: Coroutine,
    r: Reaction,
) -> bool {
    if hup {
        &&& co2 == co
        &&& cell2 == after_hup(cell, co.state, token)
        &&& r == match hup_registration(cell, co.state, token) {
            Some(op) => Reaction::Register(op),
            None => Reaction::Ignore,
        }
    } else if co.state == (if readable { State::BlockedOnRead(token) } else { State::BlockedOnWrite(token) }) {
        &&& co2.state == State::Running
        &&& cell2 == cell
        &&& r == Reaction::Resume
    } else if co.state is BlockedOnRead || co.state is BlockedOnWrite {
        let rearm = if readable {
            co.state is BlockedOnRead || co.state == State::BlockedOnWrite(token)
        } else {
            co.state is BlockedOnWrite || co.state == State::BlockedOnRead(token)
        };
        &&& co2 == co
        &&& if rearm {
            &&& cell2 == rearmed(cell, co.state, token)
            &&& r == Reaction::Register(Registration::Reregister(token, interest_for(co.state, token)))
        } else {
            &&& cell2 == cell
            &&& r == Reaction::Ignore
        }
    } else {
        &&& co2 == co
        &&& cell2 == cell
        &&& r == Reaction::Ignore
    }
}

fn react(cell: &mut IoCell, co: &mut Coroutine, token: Token, readable: bool) -> (r: Reaction)
    ensures
        reacts(*old(cell), *old(co), token, readable, false, *final(cell), *final(co), r),
{
    match co.state {
        State::BlockedOnRead(blocked) => {
            if readable && blocked == token {
                co.state = State::Running;
                Reaction::Resume
            } else if readable || blocked == token {
                Reaction::Register(cell.reregister(co, token))
            } else {
                Reaction::Ignore
            }
        },
        State::BlockedOnWrite(blocked) => {
            if !readable && blocked == token {
                co.state = State::Running;
                Reaction::Resume
            } else if !readable || blocked == token {
                Reaction::Register(cell.reregister(co, token))
            } else {
                Reaction::Ignore
            }
        },
        _ => Reaction::Ignore,
    }
}

/// A readable event for `token`, with the reactor's hang-up hint.
pub fn readable(cell: &mut IoCell, co: &mut Coroutine, token: Token, hup: bool) -> (r: Reaction)
    requires
        hup ==> (old(cell).deregistered || is_winding_down(*old(cell)) || !(old(co).state is Running)),
    ensures
        reacts(*old(cell), *old(co), token, true, hup, *final(cell), *final(co), r),
{
    if hup {
        match cell.hup(co, token) {
            Some(op) => Reaction::Register(op),
            None => Reaction::Ignore,
        }
    } else {
        react(cell, co, token, true)
    }
}

/// A writable event for `token`.
pub fn writable(cell: &mut IoCell, co: &mut Coroutine, token: Token) -> (r: Reaction)
    ensures
        reacts(*old(cell), *old(co), token, false, false, *final(cell), *final(co), r),
{
    react(cell, co, token, false)
}

/// What one attempt does inside the coroutine, for a read (`reading`) or a
/// write on the I/O registered under `token`: an attempt that would block
/// marks the coroutine blocked on `token` in that direction and parks it;
/// any other outcome goes back to the body as it is, the state untouched.
pub open spec fn steps<E>(co: Coroutine, token: Token, reading: bool, a: Attempt<E>, co2: Coroutine, r: Step<E>) -> bool {
    match a {
        Attempt::WouldBlock => {
            &&& r == Step::<E>::Park
            &&& co2.state == (if reading { State::BlockedOnRead(token) } else { State::BlockedOnWrite(token) })
        },
        Attempt::Done(n) => r == Step::<E>::Ready(Ok(n)) && co2 == co,
        Attempt::Failed(e) => r == Step::<E>::Ready(Err(e)) && co2 == co,
    }
}

/// Decide on the outcome of a read attempt made from the running coroutine.
pub fn after_read<E>(co: &mut Coroutine, token: Token, a: Attempt<E>) -> (r: Step<E>)
    requires
        old(co).state is Running,
    ensures
        steps(*old(co), token, true, a, *final(co), r),
{
    match a {
        Attempt::WouldBlock => {
            co.state = State::BlockedOnRead(token);
            Step::Park
        },
        Attempt::Done(n) => Step::Ready(Ok(n)),
        Attempt::Failed(e) => Step::Ready(Err(e)),
    }
}

/// Decide on the outcome of a write attempt made from the running coroutine.
pub fn after_write<E>(co: &mut Coroutine, token: Token, a: Attempt<E>) -> (r: Step<E>)
    requires
        old(co).state is Running,
    ensures
        steps(*old(co), token, false, a, *final(co), r),
{
    match a {
        Attempt::WouldBlock => {
            co.state = State::BlockedOnWrite(token);
            Step::Park
        },
        Attempt::Done(n) => Step::Ready(Ok(n)),
        Attempt::Failed(e) => Step::Ready(Err(e)),
    }
}

/// One read attempt on the transport from the running coroutine: it is
/// parked exactly when the attempt would block, and its state is otherwise
/// untouched.
pub fn read_once<T: ReadWrite>(io: &mut T, co: &mut Coroutine, token: Token, buf: &mut [u8]) -> (r: Step<T::Error>)
    requires
        old(co).state is Running,
    ensures
        r is Park <==> final(co).state == State::BlockedOnRead(token),
        !(r is Park) ==> *final(co) == *old(co),
{
    let a = io.try_read(buf);
    after_read(co, token, a)
}

/// One write attempt on the transport from the running coroutine: it is
/// parked exactly when the attempt would block, and its state is otherwise
/// untouched.
pub fn write_once<T: ReadWrite>(io: &mut T, co: &mut Coroutine, token: Token, buf: &[u8]) -> (r: Step<T::Error>)
    requires
        old(co).state is Running,
    ensures
        r is Park <==> final(co).state == State::BlockedOnWrite(token),
        !(r is Park) ==> *final(co) == *old(co),
{
    let a = io.try_write(buf);
    after_write(co, token, a)
}

} // verus!
