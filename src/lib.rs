//! Coupling of an edge-triggered, one-shot readiness reactor with stackful
//! coroutines.
//!
//! The library holds the decisions of that coupling: the state of a coroutine,
//! the interest that each registered I/O must carry for it, what an I/O cell
//! does on a hang-up, when a readiness event resumes the coroutine, and when
//! an attempt at I/O from inside the coroutine parks it. The host performs the
//! reactor calls, the context switches and the transport I/O that these
//! decisions ask for.

mod state;
mod cell;
mod handle;
mod laws;

pub use state::{Token, Interest, State, interest_for, mask};
pub use handle::{Reaction, Attempt, Step, ReadWrite, reacts, readable, writable, steps, after_read, after_write, read_once, write_once};
pub use cell::{Coroutine, Registration, IoCell, rearmed, is_winding_down, after_hup, hup_registration, finished, coherent, armed_after_start};
pub use laws::{lemma_rearm_follows_state, lemma_resume_only_when_blocked_on_token, lemma_finished_is_stable, lemma_single_deregistration, lemma_body_sees_running, lemma_events_keep_coherence, lemma_attempts_keep_coherence, lemma_rearm_and_finish_keep_coherence, settled, lemma_events_keep_cells_settled};
