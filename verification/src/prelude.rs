//! Small helpers shared by the whole crate.

use vstd::prelude::*;
use vstd::string::StringExecFns;
use crate::text::{decimal, decimal_text, owned};

verus! {

/// The first of a pair.
pub fn fst<F, S>(x: (F, S)) -> (r: F)
    ensures
        r == x.0,
{
    x.0
}

/// The second of a pair.
pub fn snd<F, S>(x: (F, S)) -> (r: S)
    ensures
        r == x.1,
{
    x.1
}

/// A reading of the monotonic clock.
#[verifier::external_type_specification]
#[verifier::external_body]
pub struct ExInstant(std::time::Instant);

/// `std::time::Instant::now`. Nothing is claimed of a clock's reading.
#[verifier::external_body]
fn clock_now() -> std::time::Instant {
    std::time::Instant::now()
}

/// `std::time::Instant::elapsed`, in whole milliseconds as `as_millis`
/// counts them, cut to 64 bits. Nothing is claimed of a clock's reading.
#[verifier::external_body]
fn clock_elapsed_ms(start: &std::time::Instant) -> u64 {
    start.elapsed().as_millis() as u64
}

/// A stopwatch that was started under a name.
pub struct StopwatchGuard {
    pub name: String,
    pub start: std::time::Instant,
}

/// What a stopwatch named `name` reports after `ms` milliseconds.
pub open spec fn stopwatch_report(name: Seq<char>, ms: u64) -> Seq<char> {
    name + " took "@ + decimal(ms as nat) + "ms"@
}

/// Starts a stopwatch under `name`.
pub fn stopwatch_guard(name: &str) -> (r: StopwatchGuard)
    ensures
        r.name@ == name@,
{
    StopwatchGuard { name: owned(name), start: clock_now() }
}

impl StopwatchGuard {
    /// What this stopwatch reports after `ms` milliseconds.
    pub fn report(&self, ms: u64) -> (r: String)
        ensures
            r@ == stopwatch_report(self.name@, ms),
    {
        self.name.clone().concat(" took ").concat(decimal_text(ms).as_str()).concat("ms")
    }

    /// The milliseconds since this stopwatch was started.
    pub fn elapsed_ms(&self) -> u64 {
        clock_elapsed_ms(&self.start)
    }

    /// What this stopwatch reports now: its name, and the milliseconds since
    /// it was started.
    pub fn stop(&self) -> (r: String)
        ensures
            exists|ms: u64| r@ == stopwatch_report(self.name@, ms),
    {
        let ms = self.elapsed_ms();
        self.report(ms)
    }
}

} // verus!
