//! Instrumentation for a hardware simulator: in-flight operation counts,
//! busy/idle intervals derived from them, duration histograms and an event log.
use vstd::prelude::*;

pub mod global_counts;
pub mod histogram;
pub mod laws;
pub mod report;
pub mod settings;

verus! {

/// How much the simulator logs.
#[derive(Clone, Copy, PartialEq, Eq, Structural, Debug)]
pub enum LogLevel {
    Debug,
    Info,
    Warn,
    Error,
}

} // verus!
