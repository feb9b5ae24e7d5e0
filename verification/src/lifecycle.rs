//! Socket lifecycle, shutdown coordination and the connection bound: the
//! startup decision between an inherited activation descriptor and a
//! manual development-mode bind, the stale-socket reclamation rule, the
//! drain-timeout selection, the shutdown state machine, and the limiter
//! that keeps no more than the configured number of connections in flight.
use vstd::prelude::*;
use crate::text::{all_digits, dec_val, parse_u64_digits};

verus! {

/// The most connections processed at once; one more must wait for a slot.
pub const MAX_CONNECTIONS: usize = 16;

/// Filesystem mode of a manually bound socket: owner and group only.
pub const SOCKET_FILE_MODE: u32 = 0o770;

/// Filesystem mode of a sealed secret file: owner only.
pub const SECRET_FILE_MODE: u32 = 0o600;

/// Whole-session budget for one connection, in seconds.
pub const CLIENT_SESSION_TIMEOUT_SECS: u64 = 20;

/// Default bound on waiting for the worker to drain at shutdown.
pub const DEFAULT_DRAIN_TIMEOUT_SECS: u64 = 5;

/// What probing an existing socket file with a connect attempt found.
pub enum SocketProbe {
    /// The connect succeeded: someone is listening.
    Listening,
    /// The connect was refused.
    Refused,
    /// The file was not found by the connect.
    NotFound,
    /// Any other failure: ambiguous, possibly a live socket.
    OtherError,
}

/// Stale-socket reclamation: the file is removed only when the probe
/// makes staleness certain — connection refused or not found. A listener
/// or any ambiguous failure leaves the file untouched; deleting a
/// possibly-live socket is never risked.
pub fn should_remove_stale(probe: &SocketProbe) -> (r: bool)
    ensures
        r == (probe is Refused || probe is NotFound),
{
    match probe {
        SocketProbe::Refused => true,
        SocketProbe::NotFound => true,
        SocketProbe::Listening => false,
        SocketProbe::OtherError => false,
    }
}

/// How the service comes by its listening socket.
pub enum StartupPlan {
    /// Adopt the inherited activation descriptor as it is: no bind, no
    /// permission changes — those belong to the activator.
    UseActivation,
    /// Development mode only: reclaim a stale socket, bind, then restrict
    /// the socket file to owner and group.
    BindManually,
    /// Refuse to start: the allowlist file is missing in production.
    RefuseMissingAllowlist,
    /// Refuse to start: no activation descriptor and not in development
    /// mode — binding manually in production is a misconfiguration.
    RefuseProductionBind,
}

/// Decides startup: an inherited descriptor always wins; without one,
/// production refuses to start (naming the missing allowlist first), and
/// only development mode may bind manually.
pub fn startup_plan(has_activation: bool, dev_mode: bool, allowlist_present: bool) -> (r:
    StartupPlan)
    ensures
        has_activation ==> r is UseActivation,
        !has_activation && !dev_mode && !allowlist_present ==> r is RefuseMissingAllowlist,
        !has_activation && !dev_mode && allowlist_present ==> r is RefuseProductionBind,
        !has_activation && dev_mode ==> r is BindManually,
{
    if has_activation {
        StartupPlan::UseActivation
    } else if !dev_mode {
        if !allowlist_present {
            StartupPlan::RefuseMissingAllowlist
        } else {
            StartupPlan::RefuseProductionBind
        }
    } else {
        StartupPlan::BindManually
    }
}

/// Selects the shutdown drain bound: the override when it is a decimal
/// number that fits, the default otherwise.
pub fn drain_timeout_secs(raw: Option<&String>) -> (r: u64)
    ensures
        match raw {
            Some(s) => {
                if s@.len() > 0 && all_digits(s@) && dec_val(s@) <= u64::MAX {
                    r == dec_val(s@)
                } else {
                    r == DEFAULT_DRAIN_TIMEOUT_SECS
                }
            },
            None => r == DEFAULT_DRAIN_TIMEOUT_SECS,
        },
{
    match raw {
        Some(s) => match parse_u64_digits(s.as_str()) {
            Some(v) => v,
            None => DEFAULT_DRAIN_TIMEOUT_SECS,
        },
        None => DEFAULT_DRAIN_TIMEOUT_SECS,
    }
}

/// The shutdown coordinator's phases.
pub enum ShutdownPhase {
    /// Accept loop and worker both live.
    Running,
    /// Signals observed: no new connections; waiting, bounded, for the
    /// worker to drain.
    Draining,
    /// Process exit.
    Stopped,
}

/// How the bounded wait for the worker ended.
pub enum DrainOutcome {
    /// The worker observed channel closure and exited in time.
    Drained,
    /// The worker panicked; logged, not propagated.
    WorkerPanicked,
    /// The bound elapsed; the process exits and the blocking thread is
    /// reclaimed by the operating system.
    TimedOut,
}

/// A termination signal moves a running service to draining and does
/// nothing once shutdown has begun.
pub fn on_termination_signal(phase: &ShutdownPhase) -> (r: ShutdownPhase)
    ensures
        phase is Running ==> r is Draining,
        phase is Draining ==> r is Draining,
        phase is Stopped ==> r is Stopped,
{
    match phase {
        ShutdownPhase::Running => ShutdownPhase::Draining,
        ShutdownPhase::Draining => ShutdownPhase::Draining,
        ShutdownPhase::Stopped => ShutdownPhase::Stopped,
    }
}

/// Whatever the bounded wait yields — clean exit, worker panic, or the
/// bound elapsing — the service proceeds to exit.
pub fn on_drain_outcome(_outcome: &DrainOutcome) -> (r: ShutdownPhase)
    ensures
        r is Stopped,
{
    ShutdownPhase::Stopped
}

/// The limiter bounding concurrent connections: at most `MAX_CONNECTIONS`
/// admissions are ever outstanding; an attempt beyond the bound is not
/// granted (the caller waits and retries when a slot frees) and is never
/// dropped by the limiter itself.
pub struct ConnectionLimiter {
    active: usize,
}

impl ConnectionLimiter {
    /// Connections currently admitted.
    pub closed spec fn active_count(&self) -> nat {
        self.active as nat
    }

    /// Never more than the configured bound in flight.
    pub open spec fn wf(&self) -> bool {
        self.active_count() <= MAX_CONNECTIONS
    }

    /// A fresh limiter admits nobody yet.
    pub fn new() -> (r: ConnectionLimiter)
        ensures
            r.wf(),
            r.active_count() == 0,
    {
        ConnectionLimiter { active: 0 }
    }

    /// Admits one connection iff a slot is free: the attempt beyond the
    /// bound is refused, leaving the count unchanged for a later retry.
    pub fn try_admit(&mut self) -> (granted: bool)
        requires
            old(self).wf(),
        ensures
            final(self).wf(),
            granted == (old(self).active_count() < MAX_CONNECTIONS),
            granted ==> final(self).active_count() == old(self).active_count() + 1,
            !granted ==> final(self).active_count() == old(self).active_count(),
    {
        if self.active < MAX_CONNECTIONS {
            self.active = self.active + 1;
            true
        } else {
            false
        }
    }

    /// Returns one admitted connection's slot.
    pub fn release(&mut self)
        requires
            old(self).wf(),
            old(self).active_count() > 0,
        ensures
            final(self).wf(),
            final(self).active_count() == old(self).active_count() - 1,
    {
        self.active = self.active - 1;
    }
}

} // verus!
