use sw_lifecycle::error::Error;
use sw_lifecycle::lifecycle::{
    init_worker, lifecycle_reaction, HandlerSet, LifecycleEvent, Reaction, WorkerOp,
};

#[test]
fn init_outside_worker_scope_fails_and_registers_nothing() {
    assert_eq!(init_worker(false), Err(Error::NotInServiceWorker));
}

#[test]
fn init_inside_worker_scope_registers_all_three_handlers() {
    assert_eq!(
        init_worker(true),
        Ok(HandlerSet {
            install: Reaction::ExtendUntil { op: WorkerOp::SkipWaiting },
            activate: Reaction::ExtendUntil { op: WorkerOp::ClaimClients },
            message: Reaction::LogPayload,
        })
    );
}

#[test]
fn install_completes_only_with_skip_waiting() {
    assert_eq!(
        lifecycle_reaction(LifecycleEvent::Install),
        Reaction::ExtendUntil { op: WorkerOp::SkipWaiting }
    );
}

#[test]
fn activate_completes_only_with_claim_clients() {
    assert_eq!(
        lifecycle_reaction(LifecycleEvent::Activate),
        Reaction::ExtendUntil { op: WorkerOp::ClaimClients }
    );
}

#[test]
fn message_payload_is_forwarded_to_diagnostics() {
    assert_eq!(lifecycle_reaction(LifecycleEvent::Message), Reaction::LogPayload);
}

#[test]
fn error_messages_describe_the_condition() {
    assert_eq!(Error::NotInServiceWorker.message(), "not in a service worker");
    assert_eq!(
        Error::RegistrationInvalid.message(),
        "Service worker registration is not valid"
    );
}
