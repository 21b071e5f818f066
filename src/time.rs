//! The time capability: where the current time comes from.

use vstd::prelude::*;

use crate::entity::Timestamp;

verus! {

/// A source of the current time.
pub trait TimeComponent {
    /// Whether `now` may return `t`.
    spec fn may_return(&self, t: Timestamp) -> bool;

    fn now(&self) -> (t: Timestamp)
        ensures
            self.may_return(t),
    ;
}

/// Grants access to a clock.
pub trait HaveTimeComponent {
    type TimeComponent: TimeComponent;

    /// The clock held.
    spec fn time(&self) -> Self::TimeComponent;

    fn time_component(&self) -> (r: &Self::TimeComponent)
        ensures
            *r == self.time(),
    ;
}

/// Relies on chrono's `Local::now`: the machine's clock, read in its local
/// time zone. A `DateTime` keeps its sub-second part below two billion
/// nanoseconds and its offset strictly within a day.
#[verifier::external_body]
fn local_now() -> (r: Timestamp)
    ensures
        r.wf(),
{
    let t = chrono::Local::now();
    Timestamp {
        secs: t.timestamp(),
        nanos: t.timestamp_subsec_nanos(),
        offset: t.offset().local_minus_utc(),
    }
}

/// The host's clock.
pub struct Chrono;

impl TimeComponent for Chrono {
    open spec fn may_return(&self, t: Timestamp) -> bool {
        t.wf()
    }

    fn now(&self) -> (t: Timestamp) {
        local_now()
    }
}

/// A clock that always reads `at`.
pub struct FixedClock {
    pub at: Timestamp,
}

impl FixedClock {
    pub fn new(at: Timestamp) -> (r: FixedClock)
        ensures
            r.at == at,
    {
        FixedClock { at }
    }
}

impl TimeComponent for FixedClock {
    open spec fn may_return(&self, t: Timestamp) -> bool {
        t == self.at
    }

    fn now(&self) -> (t: Timestamp) {
        self.at
    }
}

} // verus!
