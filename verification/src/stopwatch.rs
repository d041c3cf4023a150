//! Measuring and setting spans of time.

use vstd::prelude::*;
use std::time::Duration;
use std::time::Instant;

verus! {

/// `std::time::Instant`, carried as an opaque value.
#[verifier::external_type_specification]
#[verifier::external_body]
pub struct ExInstant(Instant);

/// `Instant::now`: the clock's reading; nothing is claimed of it.
pub assume_specification[ Instant::now ]() -> Instant;

/// `Instant::elapsed`: the time since `instant`; nothing is claimed of it.
pub assume_specification[ Instant::elapsed ](instant: &Instant) -> Duration;

/// The whole seconds that a `Duration` holds: what `Duration::as_secs` returns
/// of it.
pub uninterp spec fn whole_secs(duration: Duration) -> u64;

/// What a `Duration` holds beyond its whole seconds, in nanoseconds: what
/// `Duration::subsec_nanos` returns of it.
pub uninterp spec fn subsec_part(duration: Duration) -> u32;

/// `Duration::as_secs`: the whole seconds of `duration`, which depend on
/// `duration` alone.
pub assume_specification[ Duration::as_secs ](duration: &Duration) -> (secs: u64)
    ensures
        secs == whole_secs(*duration),
;

/// `Duration::subsec_nanos`: the part of `duration` beyond its whole seconds,
/// in nanoseconds, which depends on `duration` alone and is less than one
/// second.
pub assume_specification[ Duration::subsec_nanos ](duration: &Duration) -> (nanos: u32)
    ensures
        nanos == subsec_part(*duration),
        nanos < 1_000_000_000,
;

/// The length of a `Duration` in nanoseconds.
pub open spec fn nanos_of(duration: Duration) -> nat {
    (whole_secs(duration) as nat) * 1_000_000_000 + subsec_part(duration) as nat
}

/// A span of time: whole seconds and the nanoseconds beyond them.
#[derive(Clone, Copy, Debug, PartialEq, Eq, Structural)]
pub struct Span {
    secs: u64,
    nanos: u32,
}

impl View for Span {
    type V = nat;

    /// The span in nanoseconds.
    closed spec fn view(&self) -> nat {
        (self.secs as nat) * 1_000_000_000 + self.nanos as nat
    }
}

impl Span {
    #[verifier::type_invariant]
    spec fn normal(self) -> bool {
        self.nanos < 1_000_000_000
    }

    /// The span of `secs` seconds and `nanos` nanoseconds. Nanoseconds that
    /// make up whole seconds are carried over; the seconds then have to fit in
    /// 64 bits.
    pub fn new(secs: u64, nanos: u32) -> (span: Span)
        requires
            secs + nanos / 1_000_000_000 <= u64::MAX,
        ensures
            span@ == secs * 1_000_000_000 + nanos,
    {
        let carried: u64 = (nanos / 1_000_000_000) as u64;
        Span { secs: secs + carried, nanos: nanos % 1_000_000_000 }
    }

    /// The span of `millis` milliseconds.
    pub fn from_millis(millis: u64) -> (span: Span)
        ensures
            span@ == millis * 1_000_000,
    {
        let secs: u64 = millis / 1000;
        let rest: u32 = (millis % 1000) as u32;
        let span = Span { secs, nanos: rest * 1_000_000 };
        assert(span@ == millis * 1_000_000) by {
            assert(millis == secs * 1000 + rest);
            assert((secs * 1000 + rest) * 1_000_000 == secs * 1_000_000_000 + rest * 1_000_000)
                by (nonlinear_arith);
        }
        span
    }

    /// The span that a `Duration` stands for.
    pub fn of(duration: &Duration) -> (span: Span)
        ensures
            span@ == nanos_of(*duration),
    {
        Span { secs: duration.as_secs(), nanos: duration.subsec_nanos() }
    }

    /// The whole seconds of the span.
    pub fn as_secs(&self) -> (secs: u64)
        ensures
            secs == self@ / 1_000_000_000,
    {
        proof {
            use_type_invariant(self);
        }
        self.secs
    }

    /// The nanoseconds beyond the whole seconds.
    pub fn subsec_nanos(&self) -> (nanos: u32)
        ensures
            nanos == self@ % 1_000_000_000,
    {
        proof {
            use_type_invariant(self);
        }
        self.nanos
    }

    /// The whole milliseconds of the span.
    pub fn as_millis(&self) -> (millis: u128)
        ensures
            millis == self@ / 1_000_000,
    {
        proof {
            use_type_invariant(self);
        }
        let whole: u128 = self.secs as u128 * 1000;
        let part: u128 = (self.nanos / 1_000_000) as u128;
        assert(whole + part == self@ / 1_000_000) by {
            let s = self.secs as int;
            let n = self.nanos as int;
            assert((s * 1000) * 1_000_000 == s * 1_000_000_000) by (nonlinear_arith);
            vstd::arithmetic::div_mod::lemma_div_multiples_vanish_quotient(
                1_000_000,
                s * 1000 * 1_000_000 + n,
                1_000_000,
            );
            vstd::arithmetic::div_mod::lemma_fundamental_div_mod_converse(
                s * 1_000_000_000 + n,
                1_000_000,
                s * 1000 + n / 1_000_000,
                n % 1_000_000,
            );
        }
        whole + part
    }

    /// The whole microseconds of the span.
    pub fn as_micros(&self) -> (micros: u128)
        ensures
            micros == self@ / 1000,
    {
        proof {
            use_type_invariant(self);
        }
        let whole: u128 = self.secs as u128 * 1_000_000;
        let part: u128 = (self.nanos / 1000) as u128;
        assert(whole + part == self@ / 1000) by {
            let s = self.secs as int;
            let n = self.nanos as int;
            vstd::arithmetic::div_mod::lemma_fundamental_div_mod_converse(
                s * 1_000_000_000 + n,
                1000,
                s * 1_000_000 + n / 1000,
                n % 1000,
            );
        }
        whole + part
    }
}

/// Measures elapsed time: started when it is made or restarted, read when it
/// is stopped.
#[derive(Clone, Copy, Debug)]
pub struct StopWatch {
    start: Instant,
    elapsed: Span,
}

impl View for StopWatch {
    type V = nat;

    /// The time last measured, in nanoseconds.
    closed spec fn view(&self) -> nat {
        self.elapsed@
    }
}

impl StopWatch {
    /// The instant from which the stopwatch measures.
    pub closed spec fn started(&self) -> Instant {
        self.start
    }

    /// A stopwatch that measures from `start` and has measured nothing yet.
    pub fn starting_at(start: Instant) -> (watch: StopWatch)
        ensures
            watch.started() == start,
            watch@ == 0,
    {
        StopWatch { start, elapsed: Span::new(0, 0) }
    }

    /// A stopwatch that starts now and has measured nothing yet.
    pub fn new() -> (watch: StopWatch)
        ensures
            watch@ == 0,
    {
        StopWatch::starting_at(Instant::now())
    }

    /// Starts measuring anew from `start`. The time last measured stays.
    pub fn start_at(&mut self, start: Instant)
        ensures
            final(self).started() == start,
            final(self)@ == old(self)@,
    {
        self.start = start;
    }

    /// Starts measuring anew from now. The time last measured stays.
    pub fn start(&mut self)
        ensures
            final(self)@ == old(self)@,
    {
        self.start_at(Instant::now());
    }

    /// Keeps `since` as the time measured and returns it as a span. The
    /// stopwatch goes on from the same start.
    pub fn stop_after(&mut self, since: &Duration) -> (elapsed: Span)
        ensures
            elapsed@ == nanos_of(*since),
            final(self)@ == nanos_of(*since),
            final(self).started() == old(self).started(),
    {
        self.elapsed = Span::of(since);
        self.elapsed
    }

    /// Measures the time since the start, keeps it and returns it: the span
    /// of the `Duration` that the clock gives for the start. The stopwatch goes
    /// on from the same start.
    pub fn stop(&mut self) -> (elapsed: Span)
        ensures
            elapsed@ == final(self)@,
            final(self).started() == old(self).started(),
            exists|since: Duration| final(self)@ == #[trigger] nanos_of(since),
    {
        let since = self.start.elapsed();
        self.stop_after(&since)
    }

    /// The time last measured, in whole microseconds.
    pub fn elapsed_micros(&self) -> (micros: u128)
        ensures
            micros == self@ / 1000,
    {
        self.elapsed.as_micros()
    }

    /// The time last measured, in whole milliseconds.
    pub fn elapsed_millis(&self) -> (millis: u128)
        ensures
            millis == self@ / 1_000_000,
    {
        self.elapsed.as_millis()
    }

    /// The time last measured, in whole seconds.
    pub fn elapsed_secs(&self) -> (secs: u64)
        ensures
            secs == self@ / 1_000_000_000,
    {
        self.elapsed.as_secs()
    }
}

/// Says how long to wait before a callback is due.
#[derive(Clone, Copy, Debug)]
pub struct Timer {
    start: Instant,
    elapsed: Span,
}

impl View for Timer {
    type V = nat;

    /// The span the timer was made with, in nanoseconds.
    closed spec fn view(&self) -> nat {
        self.elapsed@
    }
}

impl Timer {
    /// The instant at which the timer was made or last started.
    pub closed spec fn started(&self) -> Instant {
        self.start
    }

    /// A timer made at `start`, for a span of `time` seconds.
    pub fn made_at(start: Instant, time: u64) -> (timer: Timer)
        ensures
            timer.started() == start,
            timer@ == time * 1_000_000_000,
    {
        Timer { start, elapsed: Span::new(time, 0) }
    }

    /// A timer made now, for a span of `time` seconds.
    pub fn new(time: u64) -> (timer: Timer)
        ensures
            timer@ == time * 1_000_000_000,
    {
        Timer::made_at(Instant::now(), time)
    }

    /// Starts the timer at `start` for `time` milliseconds and returns the
    /// span to wait before the callback is due. Only the start changes: the
    /// span the timer was made with stays.
    pub fn start_at(&mut self, start: Instant, time: u64) -> (wait: Span)
        ensures
            wait@ == time * 1_000_000,
            final(self).started() == start,
            final(self)@ == old(self)@,
    {
        self.start = start;
        Span::from_millis(time)
    }

    /// Starts the timer now for `time` milliseconds and returns the span to
    /// wait before the callback is due. The span the timer was made with stays.
    pub fn start(&mut self, time: u64) -> (wait: Span)
        ensures
            wait@ == time * 1_000_000,
            final(self)@ == old(self)@,
    {
        self.start_at(Instant::now(), time)
    }
}

} // verus!
