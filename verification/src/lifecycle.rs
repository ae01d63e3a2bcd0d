//! The worker-side lifecycle handler.
//!
//! This component runs once, inside the worker's global context, when the
//! browser evaluates the worker script.  Its whole job is to decide which
//! handlers to install: the install and activate lifecycle events are tied
//! to the skip-waiting and claim-clients operations so that a freshly
//! installed worker takes control of all open clients immediately, instead
//! of waiting for the conventional lifecycle; messages from clients are
//! forwarded to diagnostics, their payload being opaque to this component.
//!
//! The driver that runs in the worker context asks [`init_worker`] for the
//! handler set, wires each [`Reaction`] to the corresponding browser event,
//! and keeps the handlers alive for the remaining lifetime of the worker
//! process.

use vstd::prelude::*;

use crate::error::Error;

verus! {

/// A lifecycle event delivered by the browser to the worker's global scope.
#[derive(Clone, Copy, Debug, PartialEq, Eq, Structural)]
pub enum LifecycleEvent {
    /// The worker is being installed.
    Install,
    /// The worker is being activated.
    Activate,
    /// A client posted a message to the worker.
    Message,
}

/// An operation the worker can request from the browser during a lifecycle
/// event.
#[derive(Clone, Copy, Debug, PartialEq, Eq, Structural)]
pub enum WorkerOp {
    /// Bypass the installed-but-waiting state and proceed to activation.
    SkipWaiting,
    /// Immediately become the controller of all open, in-scope clients.
    ClaimClients,
}

/// What a handler does with its event.
#[derive(Clone, Copy, Debug, PartialEq, Eq, Structural)]
pub enum Reaction {
    /// Start `op` and hold the event open until `op` completes: the event
    /// must not be reported complete before the operation has finished.
    ExtendUntil { op: WorkerOp },
    /// Forward the event's opaque payload to diagnostics.
    LogPayload,
}

/// The reaction of the worker to each lifecycle event.  Every event maps to
/// an explicit action:
///
/// * install is not complete until skip-waiting completes, so the new worker
///   never lingers in the waiting state behind an active old one;
/// * activate is not complete until claim-clients completes, so every open
///   page is placed under this worker's control without a new navigation;
/// * a message is forwarded; its payload is not interpreted here.
pub fn lifecycle_reaction(event: LifecycleEvent) -> (r: Reaction)
    ensures
        event == LifecycleEvent::Install ==> r == (Reaction::ExtendUntil { op: WorkerOp::SkipWaiting }),
        event == LifecycleEvent::Activate ==> r == (Reaction::ExtendUntil { op: WorkerOp::ClaimClients }),
        event == LifecycleEvent::Message ==> r == Reaction::LogPayload,
{
    match event {
        LifecycleEvent::Install => Reaction::ExtendUntil { op: WorkerOp::SkipWaiting },
        LifecycleEvent::Activate => Reaction::ExtendUntil { op: WorkerOp::ClaimClients },
        LifecycleEvent::Message => Reaction::LogPayload,
    }
}

/// The full set of handlers the worker must have registered before its
/// initialization returns.
#[derive(Clone, Copy, Debug, PartialEq, Eq, Structural)]
pub struct HandlerSet {
    pub install: Reaction,
    pub activate: Reaction,
    pub message: Reaction,
}

/// Decides the outcome of worker-script initialization.
///
/// `in_service_worker_scope` reports whether execution is actually happening
/// inside a worker global scope; the driver determines it by probing the
/// global object.  Outside a worker scope initialization fails with
/// [`Error::NotInServiceWorker`] and no handler is produced; inside one, the
/// three handlers of [`lifecycle_reaction`] are produced for the driver to
/// register.
pub fn init_worker(in_service_worker_scope: bool) -> (r: Result<HandlerSet, Error>)
    ensures
        in_service_worker_scope ==> r == Ok::<HandlerSet, Error>(HandlerSet {
            install: Reaction::ExtendUntil { op: WorkerOp::SkipWaiting },
            activate: Reaction::ExtendUntil { op: WorkerOp::ClaimClients },
            message: Reaction::LogPayload,
        }),
        !in_service_worker_scope ==> r == Err::<HandlerSet, Error>(Error::NotInServiceWorker),
{
    if in_service_worker_scope {
        Ok(HandlerSet {
            install: lifecycle_reaction(LifecycleEvent::Install),
            activate: lifecycle_reaction(LifecycleEvent::Activate),
            message: lifecycle_reaction(LifecycleEvent::Message),
        })
    } else {
        Err(Error::NotInServiceWorker)
    }
}

} // verus!
