//! The client-side registrar: a sequential state machine that obtains a
//! ready, controlling worker for the page, or recovers by reloading it.
//!
//! The machine is driven from the page context.  [`start_registration`]
//! yields the first command; after performing each [`Command`] the driver
//! feeds the observed result back as an [`Event`] to [`step`], which decides
//! the next step and command.  Every asynchronous browser interaction —
//! registering, the update request, the readiness wait, the controller
//! query, re-fetching the ready registration, the fixed delay, unregister
//! and reload — stays in the driver; every decision is taken here.
//!
//! The flow, in order: register at the fixed scope; select the best
//! candidate worker; trigger an update when its recorded script URL differs
//! from the canonical requested URL; await readiness; recover by
//! unregister-and-reload when no controller is attached; then retrieve the
//! candidate worker with a bounded retry (immediately, after a re-fetch, and
//! once more after a fixed delay) and resolve it purely by its state.  A
//! reload is the universal recovery action whenever the worker is not in a
//! definitively good state.

use vstd::prelude::*;

use crate::error::Error;
use crate::worker_state::WorkerState;

verus! {

/// How long the driver waits before the third and last retrieval attempt,
/// in milliseconds.
pub const RETRY_DELAY_MS: u32 = 50;

/// One worker script instance as the registrar observes it: the URL it was
/// created from (immutable for the handle's lifetime) and its current
/// browser-driven state.
#[derive(Debug, Clone, PartialEq)]
pub struct WorkerHandle {
    pub script_url: String,
    pub state: WorkerState,
}

/// A point-in-time observation of the registration at the managed scope:
/// the worker occupying each of the three mutually exclusive roles, if any.
#[derive(Debug, Clone, PartialEq)]
pub struct RegistrationSnapshot {
    pub active: Option<WorkerHandle>,
    pub waiting: Option<WorkerHandle>,
    pub installing: Option<WorkerHandle>,
}

/// An asynchronous browser interaction the driver must perform before
/// feeding the next event to the machine.
#[derive(Clone, Copy, Debug, PartialEq, Eq, Structural)]
pub enum Command {
    /// Register the canonical script URL at the fixed scope and answer with
    /// [`Event::Registered`].
    Register,
    /// Ask the registration to check for an updated script, await
    /// completion, and answer with [`Event::Updated`].
    Update,
    /// Await the registration's readiness signal and answer with
    /// [`Event::Ready`].
    AwaitReady,
    /// Report whether the client currently has a controller, with
    /// [`Event::Controller`].
    QueryController,
    /// Re-fetch the ready registration and answer with
    /// [`Event::Refetched`].
    Refetch,
    /// Wait `ms` milliseconds, re-read the same registration, and answer
    /// with [`Event::Delayed`].
    Delay { ms: u32 },
    /// Look up the registration for the document, unregister it, and force
    /// a full page reload.  The reload re-runs the whole flow; no further
    /// event follows.
    UnregisterAndReload,
    /// Force a full page reload.  No further event follows.
    Reload,
}

/// What the machine's run ends in.
#[derive(Debug, Clone, PartialEq)]
pub enum Outcome {
    /// An activated worker was obtained; the run resolves with its handle.
    Resolved { worker: WorkerHandle },
    /// The run ended in a recovery reload and yields no handle.
    Recovered,
    /// The run failed fatally.
    Failed { error: Error },
}

/// Where the machine stands: which command is outstanding, or how the run
/// ended.
#[derive(Debug, Clone, PartialEq)]
pub enum Step {
    /// [`Command::Register`] is outstanding.
    Registering,
    /// [`Command::Update`] is outstanding.
    Updating,
    /// [`Command::AwaitReady`] is outstanding.
    AwaitingReady,
    /// [`Command::QueryController`] is outstanding; `reg` is the ready
    /// registration, kept for the first retrieval attempt.
    CheckingController { reg: RegistrationSnapshot },
    /// [`Command::Refetch`] is outstanding (second retrieval attempt).
    Refetching,
    /// [`Command::Delay`] is outstanding (third retrieval attempt).
    Delaying,
    /// The run has ended; any further event is ignored.
    Done { outcome: Outcome },
}

/// What the driver observed after performing the outstanding command.
#[derive(Debug, Clone, PartialEq)]
pub enum Event {
    /// Registration completed with this observation of the registration.
    Registered { reg: RegistrationSnapshot },
    /// The update request completed.
    Updated,
    /// The readiness signal resolved with this observation.
    Ready { reg: RegistrationSnapshot },
    /// Whether the client currently has a controller.
    Controller { present: bool },
    /// The re-fetched ready registration.
    Refetched { reg: RegistrationSnapshot },
    /// The delay elapsed; `reg` re-reads the same registration afterwards.
    Delayed { reg: RegistrationSnapshot },
}

/// The best candidate worker of a registration, walking the three roles in
/// priority order: active, then waiting, then installing.
pub open spec fn best_candidate(reg: RegistrationSnapshot) -> Option<WorkerHandle> {
    if reg.active is Some {
        reg.active
    } else if reg.waiting is Some {
        reg.waiting
    } else {
        reg.installing
    }
}

/// How the run ends once a candidate worker has been retrieved: an
/// activated worker is resolved; any other state — superseded or not yet
/// ready — ends the run in a recovery reload, never in a handle.
pub open spec fn resolution_of(worker: WorkerHandle) -> (Step, Option<Command>) {
    if worker.state == WorkerState::Activated {
        (Step::Done { outcome: Outcome::Resolved { worker } }, Option::<Command>::None)
    } else {
        (Step::Done { outcome: Outcome::Recovered }, Option::Some(Command::Reload))
    }
}

/// One retrieval attempt against an observation: a present candidate is
/// resolved by its state; otherwise the attempt falls through to
/// `on_missing`.
pub open spec fn attempt_or(
    reg: RegistrationSnapshot,
    on_missing: (Step, Option<Command>),
) -> (Step, Option<Command>) {
    match best_candidate(reg) {
        Option::Some(w) => resolution_of(w),
        Option::None => on_missing,
    }
}

/// The transition relation of the registrar, with `url` the canonical
/// requested script URL.  An event that does not answer the outstanding
/// command is stray (the driver never produces one) and is ignored: the
/// step is unchanged and no command is issued.
pub open spec fn step_spec(s: Step, e: Event, url: Seq<char>) -> (Step, Option<Command>) {
    match (s, e) {
        (Step::Registering, Event::Registered { reg }) => match best_candidate(reg) {
            Option::None => (
                Step::Done { outcome: Outcome::Failed { error: Error::RegistrationInvalid } },
                Option::<Command>::None,
            ),
            Option::Some(w) => if w.script_url@ != url {
                (Step::Updating, Option::Some(Command::Update))
            } else {
                (Step::AwaitingReady, Option::Some(Command::AwaitReady))
            },
        },
        (Step::Updating, Event::Updated) => (Step::AwaitingReady, Option::Some(Command::AwaitReady)),
        (Step::AwaitingReady, Event::Ready { reg }) => (
            Step::CheckingController { reg },
            Option::Some(Command::QueryController),
        ),
        (Step::CheckingController { reg }, Event::Controller { present }) => if present {
            attempt_or(reg, (Step::Refetching, Option::Some(Command::Refetch)))
        } else {
            (Step::Done { outcome: Outcome::Recovered }, Option::Some(Command::UnregisterAndReload))
        },
        (Step::Refetching, Event::Refetched { reg }) => attempt_or(
            reg,
            (Step::Delaying, Option::Some(Command::Delay { ms: RETRY_DELAY_MS })),
        ),
        (Step::Delaying, Event::Delayed { reg }) => attempt_or(
            reg,
            (
                Step::Done { outcome: Outcome::Failed { error: Error::RegistrationInvalid } },
                Option::<Command>::None,
            ),
        ),
        (stray, _) => (stray, Option::<Command>::None),
    }
}

/// Selects the best candidate worker of an observation, in priority order
/// active, waiting, installing.
pub fn get_worker_from_reg(reg: &RegistrationSnapshot) -> (r: Option<&WorkerHandle>)
    ensures
        match r {
            Option::Some(w) => best_candidate(*reg) == Option::Some(*w),
            Option::None => best_candidate(*reg) is None,
        },
{
    match &reg.active {
        Option::Some(w) => Option::Some(w),
        Option::None => match &reg.waiting {
            Option::Some(w) => Option::Some(w),
            Option::None => match &reg.installing {
                Option::Some(w) => Option::Some(w),
                Option::None => Option::None,
            },
        },
    }
}

/// As [`get_worker_from_reg`], but takes the observation and hands the
/// candidate out by value.
fn take_best(reg: RegistrationSnapshot) -> (r: Option<WorkerHandle>)
    ensures
        r == best_candidate(reg),
{
    match reg.active {
        Option::Some(w) => Option::Some(w),
        Option::None => match reg.waiting {
            Option::Some(w) => Option::Some(w),
            Option::None => reg.installing,
        },
    }
}

/// Resolves a retrieved worker purely by its state.  Every state maps to an
/// explicit action: a superseded worker and a not-yet-ready worker both end
/// the run in a recovery reload; only an activated worker resolves.
pub fn resolve_by_state(worker: WorkerHandle) -> (r: (Step, Option<Command>))
    ensures
        r == resolution_of(worker),
{
    match worker.state {
        WorkerState::Redundant => (
            Step::Done { outcome: Outcome::Recovered },
            Option::Some(Command::Reload),
        ),
        WorkerState::Activated => (
            Step::Done { outcome: Outcome::Resolved { worker } },
            Option::None,
        ),
        WorkerState::Parsed | WorkerState::Installing | WorkerState::Installed
            | WorkerState::Activating => (
            Step::Done { outcome: Outcome::Recovered },
            Option::Some(Command::Reload),
        ),
    }
}

/// One retrieval attempt: resolve a present candidate by its state, or fall
/// through to the given step and command.
fn attempt(
    reg: RegistrationSnapshot,
    on_missing_step: Step,
    on_missing_cmd: Option<Command>,
) -> (r: (Step, Option<Command>))
    ensures
        r == attempt_or(reg, (on_missing_step, on_missing_cmd)),
{
    match take_best(reg) {
        Option::Some(w) => resolve_by_state(w),
        Option::None => (on_missing_step, on_missing_cmd),
    }
}

/// Begins a run: the machine awaits registration, and the driver's first
/// task is to register the canonical script URL at the fixed scope.
pub fn start_registration() -> (r: (Step, Command))
    ensures
        r == (Step::Registering, Command::Register),
{
    (Step::Registering, Command::Register)
}

/// Advances the machine by one observed event, exactly as [`step_spec`]
/// describes.  `canonical_url` is the requested worker URL resolved against
/// the page location; it is the identity every version comparison uses.
pub fn step(s: Step, e: Event, canonical_url: &String) -> (r: (Step, Option<Command>))
    ensures
        r == step_spec(s, e, canonical_url@),
{
    match (s, e) {
        (Step::Registering, Event::Registered { reg }) => match take_best(reg) {
            Option::None => (
                Step::Done { outcome: Outcome::Failed { error: Error::RegistrationInvalid } },
                Option::None,
            ),
            Option::Some(w) => if w.script_url == *canonical_url {
                (Step::AwaitingReady, Option::Some(Command::AwaitReady))
            } else {
                (Step::Updating, Option::Some(Command::Update))
            },
        },
        (Step::Updating, Event::Updated) => (Step::AwaitingReady, Option::Some(Command::AwaitReady)),
        (Step::AwaitingReady, Event::Ready { reg }) => (
            Step::CheckingController { reg },
            Option::Some(Command::QueryController),
        ),
        (Step::CheckingController { reg }, Event::Controller { present }) => if present {
            attempt(reg, Step::Refetching, Option::Some(Command::Refetch))
        } else {
            (Step::Done { outcome: Outcome::Recovered }, Option::Some(Command::UnregisterAndReload))
        },
        (Step::Refetching, Event::Refetched { reg }) => attempt(
            reg,
            Step::Delaying,
            Option::Some(Command::Delay { ms: RETRY_DELAY_MS }),
        ),
        (Step::Delaying, Event::Delayed { reg }) => attempt(
            reg,
            Step::Done { outcome: Outcome::Failed { error: Error::RegistrationInvalid } },
            Option::None,
        ),
        (stray, _) => (stray, Option::None),
    }
}

// ---------------------------------------------------------------------------
// Laws of the registrar.
// ---------------------------------------------------------------------------

/// Law: whenever the registration's candidate worker records a script URL
/// different from the canonical requested URL, the machine issues the
/// update request before it proceeds to the readiness wait.
pub proof fn lemma_version_mismatch_updates(
    reg: RegistrationSnapshot,
    w: WorkerHandle,
    url: Seq<char>,
)
    requires
        best_candidate(reg) == Option::Some(w),
        w.script_url@ != url,
    ensures
        step_spec(Step::Registering, Event::Registered { reg }, url)
            == (Step::Updating, Option::Some(Command::Update)),
{
}

/// Law: with a ready registration but no controller attached, the machine
/// always orders unregister-then-reload and ends in [`Outcome::Recovered`]:
/// this path never resolves with a worker handle (see
/// [`lemma_done_is_final`]: a finished run never changes its outcome).
pub proof fn lemma_no_controller_recovers(reg: RegistrationSnapshot, url: Seq<char>)
    ensures
        step_spec(
            Step::CheckingController { reg },
            Event::Controller { present: false },
            url,
        ) == (
            Step::Done { outcome: Outcome::Recovered },
            Option::Some(Command::UnregisterAndReload),
        ),
{
}

/// Law: a finished run is final — no later event changes its outcome or
/// issues a command.
pub proof fn lemma_done_is_final(outcome: Outcome, e: Event, url: Seq<char>)
    ensures
        step_spec(Step::Done { outcome }, e, url)
            == (Step::Done { outcome }, Option::<Command>::None),
{
}

/// Law: at every retrieval attempt, a present candidate worker is resolved
/// purely by its state, as [`resolution_of`] describes: an activated worker
/// resolves with its handle and no reload; a superseded or not-yet-ready
/// worker ends the run in a recovery reload and no handle.
pub proof fn lemma_retrieval_resolves_by_state(
    reg: RegistrationSnapshot,
    w: WorkerHandle,
    url: Seq<char>,
)
    requires
        best_candidate(reg) == Option::Some(w),
    ensures
        step_spec(Step::CheckingController { reg }, Event::Controller { present: true }, url)
            == resolution_of(w),
        step_spec(Step::Refetching, Event::Refetched { reg }, url) == resolution_of(w),
        step_spec(Step::Delaying, Event::Delayed { reg }, url) == resolution_of(w),
{
}

/// Law: a worker in any state other than activated — superseded or not yet
/// ready — forces a recovery reload and yields no handle.
pub proof fn lemma_not_activated_reloads(w: WorkerHandle)
    requires
        w.state != WorkerState::Activated,
    ensures
        resolution_of(w) == (
            Step::Done { outcome: Outcome::Recovered },
            Option::Some(Command::Reload),
        ),
{
}

/// Law: when the first two retrieval attempts see no candidate worker and
/// the third, taken after the fixed delay, sees an activated one, the run
/// resolves with that worker; the delay command is issued exactly once, as
/// the second attempt's fall-through, and by no other transition of the
/// run.
pub proof fn lemma_bounded_retry(
    reg1: RegistrationSnapshot,
    reg2: RegistrationSnapshot,
    reg3: RegistrationSnapshot,
    w: WorkerHandle,
    url: Seq<char>,
)
    requires
        best_candidate(reg1) is None,
        best_candidate(reg2) is None,
        best_candidate(reg3) == Option::Some(w),
        w.state == WorkerState::Activated,
    ensures
        step_spec(Step::CheckingController { reg: reg1 }, Event::Controller { present: true }, url)
            == (Step::Refetching, Option::Some(Command::Refetch)),
        step_spec(Step::Refetching, Event::Refetched { reg: reg2 }, url)
            == (Step::Delaying, Option::Some(Command::Delay { ms: RETRY_DELAY_MS })),
        step_spec(Step::Delaying, Event::Delayed { reg: reg3 }, url)
            == (
            Step::Done { outcome: Outcome::Resolved { worker: w } },
            Option::<Command>::None,
        ),
{
}

/// Law: when no retrieval attempt ever sees a candidate worker, the run
/// fails with [`Error::RegistrationInvalid`] after exactly three attempts.
pub proof fn lemma_retry_exhaustion(
    reg1: RegistrationSnapshot,
    reg2: RegistrationSnapshot,
    reg3: RegistrationSnapshot,
    url: Seq<char>,
)
    requires
        best_candidate(reg1) is None,
        best_candidate(reg2) is None,
        best_candidate(reg3) is None,
    ensures
        step_spec(Step::CheckingController { reg: reg1 }, Event::Controller { present: true }, url)
            == (Step::Refetching, Option::Some(Command::Refetch)),
        step_spec(Step::Refetching, Event::Refetched { reg: reg2 }, url)
            == (Step::Delaying, Option::Some(Command::Delay { ms: RETRY_DELAY_MS })),
        step_spec(Step::Delaying, Event::Delayed { reg: reg3 }, url)
            == (
            Step::Done { outcome: Outcome::Failed { error: Error::RegistrationInvalid } },
            Option::<Command>::None,
        ),
{
}

} // verus!
