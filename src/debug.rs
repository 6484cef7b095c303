//! Timing a scope, for diagnostics.
use vstd::prelude::*;

use std::time::Instant;

verus! {

#[verifier::external_type_specification]
#[verifier::external_body]
pub struct ExInstant(Instant);

/// Relies on std::time::Instant::now: the current instant of a monotonic
/// clock. Nothing is promised of its value.
#[verifier::external_body]
fn now() -> Instant {
    Instant::now()
}

/// Relies on std::time::Instant::elapsed, read in whole milliseconds by
/// Duration::as_millis: the time since `start`. Nothing is promised of its
/// value.
#[verifier::external_body]
fn millis_since(start: &Instant) -> u128 {
    start.elapsed().as_millis()
}

/// The severity that a timing report is logged at.
#[derive(Debug, Clone, Copy, PartialEq, Eq, Structural)]
pub enum LogLevel {
    Error,
    Warn,
    Info,
    Debug,
    Trace,
}

/// Measures the time from its creation to its report.
pub struct ScopeTimer {
    pub name: String,
    pub log_level: LogLevel,
    pub timer: Instant,
}

impl ScopeTimer {
    /// Starts timing now.
    pub fn new(log_level: LogLevel, name: String) -> (r: Self)
        ensures
            r.name == name,
            r.log_level == log_level,
    {
        ScopeTimer { name, log_level, timer: now() }
    }

    /// The whole milliseconds elapsed since the timer started.
    pub fn elapsed_millis(&self) -> u128 {
        millis_since(&self.timer)
    }
}

} // verus!
