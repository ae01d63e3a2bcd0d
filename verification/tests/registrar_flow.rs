use sw_lifecycle::error::Error;
use sw_lifecycle::registrar::{
    get_worker_from_reg, resolve_by_state, start_registration, step, Command, Event, Outcome,
    RegistrationSnapshot, Step, WorkerHandle, RETRY_DELAY_MS,
};
use sw_lifecycle::worker_state::WorkerState;

fn worker(url: &str, state: WorkerState) -> WorkerHandle {
    WorkerHandle { script_url: url.to_string(), state }
}

fn snap(
    active: Option<WorkerHandle>,
    waiting: Option<WorkerHandle>,
    installing: Option<WorkerHandle>,
) -> RegistrationSnapshot {
    RegistrationSnapshot { active, waiting, installing }
}

fn empty_snap() -> RegistrationSnapshot {
    snap(None, None, None)
}

#[test]
fn happy_path_resolves_activated_worker() {
    let url = "https://example.test/sw.js".to_string();
    let reg = snap(Some(worker(&url, WorkerState::Activated)), None, None);

    let (s, cmd) = start_registration();
    assert_eq!(s, Step::Registering);
    assert_eq!(cmd, Command::Register);

    let (s, cmd) = step(s, Event::Registered { reg: reg.clone() }, &url);
    assert_eq!(s, Step::AwaitingReady);
    assert_eq!(cmd, Some(Command::AwaitReady));

    let (s, cmd) = step(s, Event::Ready { reg: reg.clone() }, &url);
    assert_eq!(s, Step::CheckingController { reg: reg.clone() });
    assert_eq!(cmd, Some(Command::QueryController));

    let (s, cmd) = step(s, Event::Controller { present: true }, &url);
    assert_eq!(
        s,
        Step::Done { outcome: Outcome::Resolved { worker: worker(&url, WorkerState::Activated) } }
    );
    assert_eq!(cmd, None);
}

#[test]
fn version_mismatch_triggers_update() {
    let url = "https://example.test/sw.js".to_string();
    let stale = snap(Some(worker("https://example.test/old-sw.js", WorkerState::Activated)), None, None);

    let (s, cmd) = step(Step::Registering, Event::Registered { reg: stale }, &url);
    assert_eq!(s, Step::Updating);
    assert_eq!(cmd, Some(Command::Update));

    let (s, cmd) = step(s, Event::Updated, &url);
    assert_eq!(s, Step::AwaitingReady);
    assert_eq!(cmd, Some(Command::AwaitReady));
}

#[test]
fn registration_without_worker_fails() {
    let url = "https://example.test/sw.js".to_string();
    let (s, cmd) = step(Step::Registering, Event::Registered { reg: empty_snap() }, &url);
    assert_eq!(s, Step::Done { outcome: Outcome::Failed { error: Error::RegistrationInvalid } });
    assert_eq!(cmd, None);
}

#[test]
fn no_controller_unregisters_and_reloads() {
    let url = "https://example.test/sw.js".to_string();
    let reg = snap(Some(worker(&url, WorkerState::Activated)), None, None);

    let (s, cmd) = step(
        Step::CheckingController { reg },
        Event::Controller { present: false },
        &url,
    );
    assert_eq!(s, Step::Done { outcome: Outcome::Recovered });
    assert_eq!(cmd, Some(Command::UnregisterAndReload));
}

#[test]
fn bounded_retry_resolves_on_third_attempt() {
    let url = "https://example.test/sw.js".to_string();
    let mut delays: u32 = 0;

    let (s, cmd) = step(
        Step::CheckingController { reg: empty_snap() },
        Event::Controller { present: true },
        &url,
    );
    if cmd == Some(Command::Delay { ms: RETRY_DELAY_MS }) {
        delays += 1;
    }
    assert_eq!(s, Step::Refetching);
    assert_eq!(cmd, Some(Command::Refetch));

    let (s, cmd) = step(s, Event::Refetched { reg: empty_snap() }, &url);
    if cmd == Some(Command::Delay { ms: RETRY_DELAY_MS }) {
        delays += 1;
    }
    assert_eq!(s, Step::Delaying);
    assert_eq!(cmd, Some(Command::Delay { ms: RETRY_DELAY_MS }));

    let late = snap(Some(worker(&url, WorkerState::Activated)), None, None);
    let (s, cmd) = step(s, Event::Delayed { reg: late }, &url);
    if cmd == Some(Command::Delay { ms: RETRY_DELAY_MS }) {
        delays += 1;
    }
    assert_eq!(
        s,
        Step::Done { outcome: Outcome::Resolved { worker: worker(&url, WorkerState::Activated) } }
    );
    assert_eq!(cmd, None);
    assert_eq!(delays, 1);
}

#[test]
fn retry_exhaustion_fails() {
    let url = "https://example.test/sw.js".to_string();

    let (s, _) = step(
        Step::CheckingController { reg: empty_snap() },
        Event::Controller { present: true },
        &url,
    );
    let (s, _) = step(s, Event::Refetched { reg: empty_snap() }, &url);
    let (s, cmd) = step(s, Event::Delayed { reg: empty_snap() }, &url);

    assert_eq!(s, Step::Done { outcome: Outcome::Failed { error: Error::RegistrationInvalid } });
    assert_eq!(cmd, None);
}

#[test]
fn activated_worker_resolves_without_reload() {
    let url = "https://example.test/sw.js".to_string();
    let w = worker(&url, WorkerState::Activated);
    let (s, cmd) = resolve_by_state(w.clone());
    assert_eq!(s, Step::Done { outcome: Outcome::Resolved { worker: w } });
    assert_eq!(cmd, None);
}

#[test]
fn redundant_and_pending_states_reload() {
    let url = "https://example.test/sw.js".to_string();
    let not_good = [
        WorkerState::Parsed,
        WorkerState::Installing,
        WorkerState::Installed,
        WorkerState::Activating,
        WorkerState::Redundant,
    ];
    for state in not_good {
        let (s, cmd) = resolve_by_state(worker(&url, state));
        assert_eq!(s, Step::Done { outcome: Outcome::Recovered });
        assert_eq!(cmd, Some(Command::Reload));
    }
}

#[test]
fn candidate_priority_is_active_waiting_installing() {
    let active = worker("https://example.test/a.js", WorkerState::Activated);
    let waiting = worker("https://example.test/w.js", WorkerState::Installed);
    let installing = worker("https://example.test/i.js", WorkerState::Installing);

    let all = snap(Some(active.clone()), Some(waiting.clone()), Some(installing.clone()));
    assert_eq!(get_worker_from_reg(&all), Some(&active));

    let no_active = snap(None, Some(waiting.clone()), Some(installing.clone()));
    assert_eq!(get_worker_from_reg(&no_active), Some(&waiting));

    let only_installing = snap(None, None, Some(installing.clone()));
    assert_eq!(get_worker_from_reg(&only_installing), Some(&installing));

    assert_eq!(get_worker_from_reg(&empty_snap()), None);
}

#[test]
fn stray_event_is_ignored() {
    let url = "https://example.test/sw.js".to_string();
    let (s, cmd) = step(Step::Registering, Event::Updated, &url);
    assert_eq!(s, Step::Registering);
    assert_eq!(cmd, None);
}

#[test]
fn retry_delay_is_fifty_milliseconds() {
    assert_eq!(RETRY_DELAY_MS, 50);
}
