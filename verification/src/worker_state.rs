//! The browser-driven state of a single worker script instance.
//!
//! The hosting browser owns and advances this state; the protocol only
//! observes it.  The normal path is
//! `Parsed -> Installing -> Installed -> Activating -> Activated`, with a
//! side transition to `Redundant` from any non-terminal state when a newer
//! registration supersedes the worker.

use vstd::prelude::*;

verus! {

/// The lifecycle state of one worker script instance, as reported by the
/// browser.  `Installed` is the installed-but-not-active state, also called
/// "waiting".
#[derive(Clone, Copy, Debug, PartialEq, Eq, Structural)]
pub enum WorkerState {
    Parsed,
    Installing,
    Installed,
    Activating,
    Activated,
    Redundant,
}

/// Whether the browser can move a worker from state `from` to state `to` in
/// one step: the next stage of the install pipeline, or supersession by a
/// newer worker.
pub open spec fn lifecycle_step(from: WorkerState, to: WorkerState) -> bool {
    ||| (from == WorkerState::Parsed && to == WorkerState::Installing)
    ||| (from == WorkerState::Installing && to == WorkerState::Installed)
    ||| (from == WorkerState::Installed && to == WorkerState::Activating)
    ||| (from == WorkerState::Activating && to == WorkerState::Activated)
    ||| (!is_terminal(from) && to == WorkerState::Redundant)
}

/// Whether a worker state has no successor: the worker either finished
/// activation or was superseded.
pub open spec fn is_terminal(s: WorkerState) -> bool {
    s == WorkerState::Activated || s == WorkerState::Redundant
}

/// Terminal states really are terminal: the browser never moves a worker
/// out of `Activated` or `Redundant`.
pub proof fn lemma_terminal_has_no_step(from: WorkerState, to: WorkerState)
    requires
        is_terminal(from),
    ensures
        !lifecycle_step(from, to),
{
}

} // verus!
