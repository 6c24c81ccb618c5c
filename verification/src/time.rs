//! Points in time and the waits between them, counted in whole nanoseconds.

use vstd::prelude::*;

verus! {

/// Nanoseconds in one second.
pub const NANOS_PER_SEC: u32 = 1_000_000_000;

/// The first second an [`Instant`] can name: the start of the year 1.
pub const MIN_SECS: i64 = -62_135_596_800;

/// The last second an [`Instant`] can name: the end of the year 9999.
pub const MAX_SECS: i64 = 253_402_300_799;

/// The longest the scheduler sleeps in one go, in seconds. After that it
/// looks at the clock again, so that a clock that was set meanwhile cannot
/// make it oversleep.
pub const MAX_SLEEP_SECS: u64 = 300;

/// The smaller of two integers.
pub open spec fn min_int(a: int, b: int) -> int {
    if a <= b {
        a
    } else {
        b
    }
}

/// Nanoseconds since the epoch of the instant `nanos` nanoseconds into
/// second `secs`.
pub open spec fn instant_nanos(secs: int, nanos: int) -> int {
    secs * 1_000_000_000 + nanos
}

/// Whether `secs` and `nanos` name an instant that [`Instant`] can hold.
pub open spec fn instant_in_range(secs: int, nanos: int) -> bool {
    MIN_SECS <= secs <= MAX_SECS && 0 <= nanos < NANOS_PER_SEC
}

/// A point in time, in UTC: whole seconds since the Unix epoch and the
/// nanoseconds into that second. Its view is the nanoseconds since the epoch.
#[derive(Clone, Copy, Debug, PartialEq, Eq)]
pub struct Instant {
    pub(crate) secs: i64,
    pub(crate) nanos: u32,
}

impl View for Instant {
    type V = int;

    open spec fn view(&self) -> int {
        instant_nanos(self.spec_secs(), self.spec_nanos())
    }
}

impl Instant {
    /// Every instant lies between the years 1 and 9999 and counts less than
    /// a second's worth of nanoseconds.
    #[verifier::type_invariant]
    pub open spec fn wf(self) -> bool {
        instant_in_range(self.spec_secs(), self.spec_nanos())
    }

    /// The whole seconds since the epoch.
    pub closed spec fn spec_secs(self) -> int {
        self.secs as int
    }

    /// The nanoseconds into the second.
    pub closed spec fn spec_nanos(self) -> int {
        self.nanos as int
    }

    /// The instant `nanos` nanoseconds into second `secs`, where there is
    /// one.
    pub fn new(secs: i64, nanos: u32) -> (instant: Option<Instant>)
        ensures
            instant is Some <==> instant_in_range(secs as int, nanos as int),
            instant matches Some(t) ==> t.wf() && t.spec_secs() == secs && t.spec_nanos() == nanos,
    {
        if MIN_SECS <= secs && secs <= MAX_SECS && nanos < NANOS_PER_SEC {
            Some(Instant { secs, nanos })
        } else {
            None
        }
    }

    /// The whole seconds since the epoch.
    pub fn secs(&self) -> (secs: i64)
        ensures
            secs == self.spec_secs(),
            MIN_SECS <= secs <= MAX_SECS,
    {
        proof {
            use_type_invariant(self);
        }
        self.secs
    }

    /// The nanoseconds into the second.
    pub fn nanos(&self) -> (nanos: u32)
        ensures
            nanos == self.spec_nanos(),
            nanos < NANOS_PER_SEC,
    {
        proof {
            use_type_invariant(self);
        }
        self.nanos
    }

    /// Whether this instant is strictly later than `other`.
    pub fn is_after(&self, other: &Instant) -> (later: bool)
        ensures
            later == (self@ > other@),
    {
        proof {
            use_type_invariant(self);
            use_type_invariant(other);
        }
        self.secs > other.secs || (self.secs == other.secs && self.nanos > other.nanos)
    }

    /// The time from this instant to `later`, where `later` is not in the
    /// past.
    pub fn wait_until(&self, later: &Instant) -> (wait: Option<Wait>)
        ensures
            wait is Some <==> self@ <= later@,
            wait matches Some(w) ==> w.wf() && w@ == later@ - self@,
    {
        proof {
            use_type_invariant(self);
            use_type_invariant(later);
        }
        if self.secs > later.secs || (self.secs == later.secs && self.nanos > later.nanos) {
            None
        } else if later.nanos >= self.nanos {
            let secs: u64 = (later.secs - self.secs) as u64;
            let nanos: u32 = later.nanos - self.nanos;
            Some(Wait { secs, nanos })
        } else {
            let secs: u64 = (later.secs - self.secs - 1) as u64;
            let nanos: u32 = later.nanos + NANOS_PER_SEC - self.nanos;
            Some(Wait { secs, nanos })
        }
    }
}

/// An instant is known by its view: two instants that are the same number of
/// nanoseconds from the epoch are the same instant.
pub proof fn law_instant_by_view(a: Instant, b: Instant)
    requires
        a.wf(),
        b.wf(),
        a@ == b@,
    ensures
        a == b,
{
}

/// A length of time that is not negative: whole seconds and the nanoseconds
/// beyond them. Its view is the length in nanoseconds.
#[derive(Clone, Copy, Debug, PartialEq, Eq)]
pub struct Wait {
    secs: u64,
    nanos: u32,
}

impl View for Wait {
    type V = int;

    open spec fn view(&self) -> int {
        instant_nanos(self.spec_secs(), self.spec_nanos())
    }
}

impl Wait {
    /// Every wait counts less than a second's worth of nanoseconds beyond
    /// its whole seconds.
    #[verifier::type_invariant]
    pub open spec fn wf(self) -> bool {
        0 <= self.spec_secs() && 0 <= self.spec_nanos() < NANOS_PER_SEC
    }

    /// The whole seconds of the wait.
    pub closed spec fn spec_secs(self) -> int {
        self.secs as int
    }

    /// The nanoseconds beyond the whole seconds.
    pub closed spec fn spec_nanos(self) -> int {
        self.nanos as int
    }

    /// The longest single sleep, in nanoseconds.
    pub open spec fn spec_limit() -> int {
        MAX_SLEEP_SECS * 1_000_000_000
    }

    /// The wait of `secs` seconds and `nanos` nanoseconds, where `nanos` is
    /// less than a second.
    pub fn new(secs: u64, nanos: u32) -> (wait: Option<Wait>)
        ensures
            wait is Some <==> nanos < NANOS_PER_SEC,
            wait matches Some(w) ==> w.wf() && w.spec_secs() == secs && w.spec_nanos() == nanos,
    {
        if nanos < NANOS_PER_SEC {
            Some(Wait { secs, nanos })
        } else {
            None
        }
    }

    /// The whole seconds of the wait.
    pub fn secs(&self) -> (secs: u64)
        ensures
            secs == self.spec_secs(),
    {
        self.secs
    }

    /// The nanoseconds beyond the whole seconds.
    pub fn nanos(&self) -> (nanos: u32)
        ensures
            nanos == self.spec_nanos(),
            nanos < NANOS_PER_SEC,
    {
        proof {
            use_type_invariant(self);
        }
        self.nanos
    }

    /// This wait, cut down to the longest single sleep.
    pub fn capped(self) -> (sleep: Wait)
        ensures
            sleep.wf(),
            sleep@ == min_int(self@, Wait::spec_limit()),
    {
        proof {
            use_type_invariant(self);
        }
        if self.secs >= MAX_SLEEP_SECS {
            Wait { secs: MAX_SLEEP_SECS, nanos: 0 }
        } else {
            self
        }
    }
}

/// A wait is known by its view: two waits of the same number of nanoseconds
/// are the same wait.
pub proof fn law_wait_by_view(a: Wait, b: Wait)
    requires
        a.wf(),
        b.wf(),
        a@ == b@,
    ensures
        a == b,
{
}

} // verus!
