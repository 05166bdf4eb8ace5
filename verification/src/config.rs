//! The limits of an evaluator, and how they reach the child process.

use crate::decimal::{decimal, spec_decimal};
use std::time::Duration;
use vstd::prelude::*;
use vstd::string::StringExecFns;

verus! {

/// The whole seconds of a duration, as `Duration::as_secs` returns them.
pub uninterp spec fn whole_seconds(limit: Duration) -> u64;

/// The whole milliseconds of a duration, as `Duration::as_millis` returns
/// them.
pub uninterp spec fn whole_millis(limit: Duration) -> u128;

/// `Duration::as_secs` of std: the number of whole seconds in the duration.
pub assume_specification[ Duration::as_secs ](limit: &Duration) -> (seconds: u64)
    ensures
        seconds == whole_seconds(*limit),
;

/// `Duration::as_millis` of std: the number of whole milliseconds in the
/// duration.
pub assume_specification[ Duration::as_millis ](limit: &Duration) -> (millis: u128)
    ensures
        millis == whole_millis(*limit),
;

/// Evaluates untrusted filters under a time limit and a memory limit.
///
/// The limits are fixed when the value is made and hold for every
/// evaluation run through it.
pub struct SafeJaq {
    time_limit: Duration,
    memory_limit: u64,
}

/// The arguments with which the evaluator's own executable is started as a
/// child: the mode, then the memory limit in bytes and the time limit in
/// whole seconds, each after its flag.
pub open spec fn spec_command_args(memory_limit: u64, seconds: u64) -> Seq<Seq<char>> {
    seq![
        "jaq-eval"@,
        "-m"@,
        spec_decimal(memory_limit as nat),
        "-t"@,
        spec_decimal(seconds as nat),
    ]
}

impl SafeJaq {
    /// The wall-clock limit of one evaluation.
    pub closed spec fn spec_time_limit(&self) -> Duration {
        self.time_limit
    }

    /// The address-space limit of one evaluation, in bytes.
    pub closed spec fn spec_memory_limit(&self) -> u64 {
        self.memory_limit
    }

    /// Creates an evaluator with the given limits.
    pub fn new(time_limit: Duration, memory_limit: u64) -> (jaq: Self)
        ensures
            jaq.spec_time_limit() == time_limit,
            jaq.spec_memory_limit() == memory_limit,
    {
        Self { time_limit, memory_limit }
    }

    /// The wall-clock limit of one evaluation.
    #[verifier::when_used_as_spec(spec_time_limit)]
    pub fn time_limit(&self) -> (limit: Duration)
        ensures
            limit == self.spec_time_limit(),
    {
        self.time_limit
    }

    /// The address-space limit of one evaluation, in bytes.
    #[verifier::when_used_as_spec(spec_memory_limit)]
    pub fn memory_limit(&self) -> (limit: u64)
        ensures
            limit == self.spec_memory_limit(),
    {
        self.memory_limit
    }

    /// The arguments for the child process of one evaluation.
    ///
    /// The limits travel as plain arguments; the child shares no other
    /// configuration with its parent.
    pub fn command_args(&self) -> (args: Vec<String>)
        ensures
            args.deep_view() == spec_command_args(
                self.spec_memory_limit(),
                whole_seconds(self.spec_time_limit()),
            ),
    {
        let mut args: Vec<String> = Vec::new();
        args.push(String::from_str("jaq-eval"));
        args.push(String::from_str("-m"));
        args.push(decimal(self.memory_limit as u128));
        args.push(String::from_str("-t"));
        args.push(decimal(self.time_limit.as_secs() as u128));
        assert(args.deep_view() =~= spec_command_args(
            self.spec_memory_limit(),
            whole_seconds(self.spec_time_limit()),
        ));
        args
    }
}

} // verus!
