//! Whether the service is healthy, ready and live.
//!
//! The state is a single-owner value and cannot be cloned: threads that are
//! to share it share its owner. The three flags start out false and are set
//! by the `refresh` functions.
//! Readiness follows the named checks that other subsystems report; the
//! other two flags say no more than that a refresh has happened.

use crate::misc::name_map::NameMap;
use vstd::prelude::*;

verus! {

/// The status that answers a probe whose flag is set.
pub const STATUS_OK: u16 = 200;

/// The status that answers a probe whose flag is not set.
pub const STATUS_SERVICE_UNAVAILABLE: u16 = 503;

/// The flags and the checks behind them.
pub struct HealthState {
    inner: Inner,
    pub checks: NameMap<bool>,
}

struct Inner {
    healthy: bool,
    ready: bool,
    live: bool,
}

/// Whether the checks allow readiness: the check `api_ready` has been
/// reported, and as passed.
pub open spec fn checks_ready(checks: Map<Seq<char>, bool>) -> bool {
    checks.contains_key("api_ready"@) && checks["api_ready"@]
}

/// The content of a [`HealthState`].
pub ghost struct HealthView {
    pub healthy: bool,
    pub ready: bool,
    pub live: bool,
    /// The checks reported so far, by name: whether each passed.
    pub checks: Map<Seq<char>, bool>,
}

impl View for HealthState {
    type V = HealthView;

    closed spec fn view(&self) -> HealthView {
        HealthView {
            healthy: self.inner.healthy,
            ready: self.inner.ready,
            live: self.inner.live,
            checks: self.checks@,
        }
    }
}

impl HealthState {
    /// A state with no flag set and no check reported.
    pub fn new() -> (state: HealthState)
        ensures
            state@ == (HealthView { healthy: false, ready: false, live: false, checks: Map::empty() }),
    {
        HealthState {
            inner: Inner { healthy: false, ready: false, live: false },
            checks: NameMap::new(),
        }
    }

    pub fn is_healthy(&self) -> (healthy: bool)
        ensures
            healthy == self@.healthy,
    {
        self.inner.healthy
    }

    pub fn is_ready(&self) -> (ready: bool)
        ensures
            ready == self@.ready,
    {
        self.inner.ready
    }

    pub fn is_live(&self) -> (live: bool)
        ensures
            live == self@.live,
    {
        self.inner.live
    }

    /// Reports the check `name` as passed or failed. The flags stay as they
    /// are until the next refresh.
    pub fn set_check(&mut self, name: String, passed: bool)
        ensures
            final(self)@ == (HealthView {
                checks: old(self)@.checks.insert(name@, passed),
                ..old(self)@
            }),
    {
        self.checks.insert(name, passed);
    }

    /// Takes the report of the check `name` back. The flags stay as they are
    /// until the next refresh.
    pub fn remove_check(&mut self, name: &str)
        ensures
            final(self)@ == (HealthView { checks: old(self)@.checks.remove(name@), ..old(self)@ }),
    {
        self.checks.remove(name);
    }

    /// Refreshes the three flags.
    pub fn refresh_all(&mut self)
        ensures
            final(self)@ == (HealthView {
                healthy: true,
                ready: checks_ready(old(self)@.checks),
                live: true,
                checks: old(self)@.checks,
            }),
    {
        self.refresh_healthy();
        self.refresh_ready();
        self.refresh_live();
    }

    /// Sets the health flag.
    pub fn refresh_healthy(&mut self)
        ensures
            final(self)@ == (HealthView { healthy: true, ..old(self)@ }),
    {
        self.inner.healthy = true;
    }

    /// Sets the readiness flag to what the checks say now.
    pub fn refresh_ready(&mut self)
        ensures
            final(self)@ == (HealthView { ready: checks_ready(old(self)@.checks), ..old(self)@ }),
    {
        let ready = match self.checks.get("api_ready") {
            Some(passed) => *passed,
            None => false,
        };
        self.inner.ready = ready;
    }

    /// Sets the liveness flag.
    pub fn refresh_live(&mut self)
        ensures
            final(self)@ == (HealthView { live: true, ..old(self)@ }),
    {
        self.inner.live = true;
    }
}

impl HealthState {
    /// A state of its own with the flags and checks that this one has now.
    /// It is a copy and no second handle: what is written to either of the
    /// two afterwards does not show in the other.
    pub fn detached_copy(&self) -> (copy: HealthState)
        ensures
            copy@ == self@,
    {
        HealthState {
            inner: Inner {
                healthy: self.inner.healthy,
                ready: self.inner.ready,
                live: self.inner.live,
            },
            checks: self.checks.clone(),
        }
    }
}

/// The status that answers a probe: 200 where the flag is set, 503 where not.
pub open spec fn probe_status(flag: bool) -> u16 {
    if flag {
        STATUS_OK
    } else {
        STATUS_SERVICE_UNAVAILABLE
    }
}

/// The answer to the health probe.
pub fn health(state: &HealthState) -> (status: u16)
    ensures
        status == probe_status(state@.healthy),
{
    if state.is_healthy() {
        STATUS_OK
    } else {
        STATUS_SERVICE_UNAVAILABLE
    }
}

/// The answer to the readiness probe.
pub fn readiness(state: &HealthState) -> (status: u16)
    ensures
        status == probe_status(state@.ready),
{
    if state.is_ready() {
        STATUS_OK
    } else {
        STATUS_SERVICE_UNAVAILABLE
    }
}

/// The answer to the liveness probe.
pub fn liveness(state: &HealthState) -> (status: u16)
    ensures
        status == probe_status(state@.live),
{
    if state.is_live() {
        STATUS_OK
    } else {
        STATUS_SERVICE_UNAVAILABLE
    }
}

} // verus!
