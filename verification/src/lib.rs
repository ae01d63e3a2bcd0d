//! A verified model of a service-worker lifecycle protocol.
//!
//! Two components cooperate through browser-held state and never share
//! memory:
//!
//! * the registrar (see [`registrar`]) runs in a page context.  It registers
//!   a worker script, reconciles the installed version against the requested
//!   one, waits for readiness, and performs a bounded retry to obtain a
//!   usable worker handle, falling back to a full page reload whenever the
//!   worker is not in a definitively good state;
//! * the lifecycle handler (see [`lifecycle`]) runs inside the worker's
//!   global context.  It forces immediate takeover by tying the install and
//!   activate events to skip-waiting and claim-clients, and listens for
//!   messages.
//!
//! All decisions of both components live here as verified functions over
//! plain data.  The asynchronous browser calls themselves (registering,
//! awaiting readiness, reloading, wiring event handlers) are performed by an
//! unverified driver that feeds observed browser state back into the state
//! machine as events.

pub mod browser;
pub mod error;
pub mod lifecycle;
pub mod registrar;
pub mod worker_state;
