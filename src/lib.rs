//! Decision logic of a benchmark that compares a kernel syscall filter table
//! with a tracer that inspects every syscall of a child process.

mod options;
mod filter;
mod trace;
mod utils;

pub use options::{
    disallowed_syscall_names, validate_iterations, BenchError, BenchOptions, RESOLVE_ERROR,
};
pub use filter::{
    can_fail, failure_of, lemma_filter_kills_exactly_disallowed, FilterAction, FilterSetup,
};
pub use trace::{
    lemma_decisions_count_entry_stops, lemma_two_stops_per_decision, StopReport, TraceAction,
    TracePhase, TraceSession,
};
pub use utils::{defer, signed_of_register, syscall_number_of_register, DeferWrapper};
