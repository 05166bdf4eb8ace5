//! The supervisor's side of one evaluation, as a machine of four phases.
//!
//! Whoever drives the machine owns the child process and does the waiting:
//! it performs the [`Action`] it is given and reports what came of it as an
//! [`Event`]. The machine decides everything else.

use crate::config::SafeJaq;
use crate::error::{io_error, spec_reads_as, SafeJaqError};
use crate::wire::{decode_result, encode_request, json_string_text, json_value_text,
    parsed_result, spec_request_text, EvaluationRequest, EvaluationResult};
use std::borrow::Cow;
use serde_json::Value;
use std::time::Duration;
use vstd::prelude::*;
use vstd::string::StringExecFns;

verus! {

/// How far one evaluation has come.
#[derive(Clone, Copy, Debug, PartialEq, Eq, Structural)]
pub enum Phase {
    /// No child has been started yet.
    Idle,
    /// The child runs; the request is on its way and the deadline counts.
    Spawned,
    /// The child has ended in time; what it wrote is still to be read.
    AwaitingResponse,
    /// The caller has its answer.
    Finished,
}

/// What came of sending the request and waiting for the child's end, under
/// the deadline.
#[derive(Clone, Copy, Debug, PartialEq, Eq, Structural)]
pub enum Exchange {
    /// The request went out and the child ended before the deadline.
    Completed,
    /// Writing, closing or waiting failed.
    Failed,
    /// The deadline passed first.
    TimedOut,
}

/// What the child left behind when it ended.
pub struct ChildOutput {
    /// Whether the child's exit status was the clean one.
    pub success: bool,
    /// Everything the child wrote to its standard output.
    pub stdout: Vec<u8>,
}

/// What the driver reports to the machine.
pub enum Event {
    /// The child was started, or could not be.
    Spawn(Result<(), std::io::Error>),
    /// The exchange under the deadline is over.
    Exchange(Exchange),
    /// The child's output was collected, or could not be.
    Output(Result<ChildOutput, std::io::Error>),
}

/// What the driver is to do next.
pub enum Action {
    /// Start the evaluator's own executable with these arguments, its input
    /// and output piped.
    Spawn { args: Vec<String> },
    /// Write the request to the child's input, close the input and wait for
    /// the child's end, all within the time limit.
    Exchange { request: String, time_limit: Duration },
    /// Collect the exit status and the output of the child, which has ended.
    Collect,
    /// Hand the result to the caller at once. Where `reap` is set, the child
    /// may still run and is left to a reaper in the background.
    Return { result: Result<bool, SafeJaqError>, reap: bool },
}

/// One evaluation in progress.
pub struct Call {
    phase: Phase,
    request: String,
    time_limit: Duration,
    memory_limit: u64,
}

/// The place of a phase in the order in which a call passes through them.
pub open spec fn spec_rank(phase: Phase) -> nat {
    match phase {
        Phase::Idle => 0,
        Phase::Spawned => 1,
        Phase::AwaitingResponse => 2,
        Phase::Finished => 3,
    }
}

/// The words of a command error for output of the child that is no
/// result: what is wrong, then the fault as the reader of the output named
/// it.
pub open spec fn spec_malformed_words(fault: Seq<char>) -> Seq<char> {
    "command printed malformed output: "@ + fault
}

/// Whether `cause`, when displayed, says that the child's output is no
/// result, and names `fault`.
pub open spec fn spec_reports_malformed(cause: std::io::Error, fault: Seq<char>) -> bool {
    spec_reads_as(cause, spec_malformed_words(fault))
}

/// Whether `result` is what the caller gets for output that was read as
/// `parsed`: the verdict, the child's message as an evaluation error, or a
/// command error that says so where the output is no result at all.
pub open spec fn spec_verdict_of(
    parsed: Option<Result<bool, Seq<char>>>,
    result: Result<bool, SafeJaqError>,
) -> bool {
    match parsed {
        Some(Ok(verdict)) => result == Ok::<bool, SafeJaqError>(verdict),
        Some(Err(message)) => result matches Err(SafeJaqError::Evaluation(text)) && text@
            == message,
        None => result matches Err(SafeJaqError::Command(cause)) && exists|fault: Seq<char>|
            #[trigger] spec_reports_malformed(cause, fault),
    }
}

/// What the caller gets for the output that was read from the child.
///
/// Output that is no result is a fault of the command, not of the filter.
pub fn verdict_of(parsed: Result<EvaluationResult, String>) -> (result: Result<
    bool,
    SafeJaqError,
>)
    ensures
        match parsed {
            Ok(Ok(verdict)) => result == Ok::<bool, SafeJaqError>(verdict),
            Ok(Err(message)) => result == Err::<bool, SafeJaqError>(
                SafeJaqError::Evaluation(message),
            ),
            Err(fault) => result matches Err(SafeJaqError::Command(cause))
                && spec_reports_malformed(cause, fault@),
        },
{
    match parsed {
        Ok(Ok(verdict)) => Ok(verdict),
        Ok(Err(message)) => Err(SafeJaqError::Evaluation(message)),
        Err(fault) => {
            let words = String::from_str("command printed malformed output: ").concat(
                fault.as_str(),
            );
            let cause = io_error(words);
            assert(spec_reports_malformed(cause, fault@));
            Err(SafeJaqError::Command(cause))
        },
    }
}

impl Call {
    /// The phase the call is in.
    pub closed spec fn spec_phase(&self) -> Phase {
        self.phase
    }

    /// The request that the child gets, as text.
    pub closed spec fn spec_request(&self) -> Seq<char> {
        self.request@
    }

    /// The time limit of the evaluator that began the call.
    pub closed spec fn spec_time_limit(&self) -> Duration {
        self.time_limit
    }

    /// The memory limit of the evaluator that began the call.
    pub closed spec fn spec_memory_limit(&self) -> u64 {
        self.memory_limit
    }

    /// Whether `next` is the same call in the phase `phase`.
    pub open spec fn spec_moved_to(&self, next: Call, phase: Phase) -> bool {
        &&& next.spec_phase() == phase
        &&& next.spec_request() == self.spec_request()
        &&& next.spec_time_limit() == self.spec_time_limit()
        &&& next.spec_memory_limit() == self.spec_memory_limit()
    }

    /// Whether `result` is the error for an evaluation that went over its
    /// limits: it names the limits of the evaluator.
    pub open spec fn spec_limit_exceeded(&self, result: Result<bool, SafeJaqError>) -> bool {
        result == Err::<bool, SafeJaqError>(
            SafeJaqError::LimitExceeded(self.spec_time_limit(), self.spec_memory_limit()),
        )
    }

    /// Whether the machine, on `event`, moves as `next` says.
    ///
    /// `None` stands for an event that does not belong to the phase.
    pub open spec fn spec_step(&self, event: Event, next: Option<(Call, Action)>) -> bool {
        match (self.spec_phase(), event) {
            (Phase::Idle, Event::Spawn(Ok(()))) => {
                &&& next matches Some((call, Action::Exchange { request, time_limit }))
                &&& self.spec_moved_to(call, Phase::Spawned)
                &&& request@ == self.spec_request()
                &&& time_limit == self.spec_time_limit()
            },
            (Phase::Idle, Event::Spawn(Err(cause))) => {
                &&& next matches Some((call, Action::Return { result, reap }))
                &&& self.spec_moved_to(call, Phase::Finished)
                &&& result == Err::<bool, SafeJaqError>(SafeJaqError::Command(cause))
                &&& !reap
            },
            (Phase::Spawned, Event::Exchange(Exchange::Completed)) => {
                &&& next matches Some((call, Action::Collect))
                &&& self.spec_moved_to(call, Phase::AwaitingResponse)
            },
            (Phase::Spawned, Event::Exchange(_)) => {
                &&& next matches Some((call, Action::Return { result, reap }))
                &&& self.spec_moved_to(call, Phase::Finished)
                &&& self.spec_limit_exceeded(result)
                &&& reap
            },
            (Phase::AwaitingResponse, Event::Output(Ok(output))) => {
                &&& next matches Some((call, Action::Return { result, reap }))
                &&& self.spec_moved_to(call, Phase::Finished)
                &&& !reap
                &&& if output.success {
                    spec_verdict_of(parsed_result(output.stdout@), result)
                } else {
                    self.spec_limit_exceeded(result)
                }
            },
            (Phase::AwaitingResponse, Event::Output(Err(cause))) => {
                &&& next matches Some((call, Action::Return { result, reap }))
                &&& self.spec_moved_to(call, Phase::Finished)
                &&& result == Err::<bool, SafeJaqError>(SafeJaqError::Command(cause))
                &&& !reap
            },
            _ => next is None,
        }
    }

    /// The phase the call is in.
    #[verifier::when_used_as_spec(spec_phase)]
    pub fn phase(&self) -> (phase: Phase)
        ensures
            phase == self.spec_phase(),
    {
        self.phase
    }

    /// Takes the call one step further.
    ///
    /// Returns what the driver is to do next, or `None` for an event that
    /// does not belong to the phase the call is in.
    pub fn step(self, event: Event) -> (next: Option<(Call, Action)>)
        ensures
            self.spec_step(event, next),
    {
        let Call { phase, request, time_limit, memory_limit } = self;
        match phase {
            Phase::Idle => match event {
                Event::Spawn(Ok(())) => {
                    let copy = request.clone();
                    Some(
                        (
                            Call { phase: Phase::Spawned, request, time_limit, memory_limit },
                            Action::Exchange { request: copy, time_limit },
                        ),
                    )
                },
                Event::Spawn(Err(cause)) => Some(
                    (
                        Call { phase: Phase::Finished, request, time_limit, memory_limit },
                        Action::Return { result: Err(SafeJaqError::Command(cause)), reap: false },
                    ),
                ),
                _ => None,
            },
            Phase::Spawned => match event {
                Event::Exchange(Exchange::Completed) => Some(
                    (
                        Call { phase: Phase::AwaitingResponse, request, time_limit, memory_limit },
                        Action::Collect,
                    ),
                ),
                Event::Exchange(_) => Some(
                    (
                        Call { phase: Phase::Finished, request, time_limit, memory_limit },
                        Action::Return {
                            result: Err(SafeJaqError::LimitExceeded(time_limit, memory_limit)),
                            reap: true,
                        },
                    ),
                ),
                _ => None,
            },
            Phase::AwaitingResponse => match event {
                Event::Output(Ok(output)) => {
                    let result = if output.success {
                        verdict_of(decode_result(output.stdout.as_slice()))
                    } else {
                        Err(SafeJaqError::LimitExceeded(time_limit, memory_limit))
                    };
                    Some(
                        (
                            Call { phase: Phase::Finished, request, time_limit, memory_limit },
                            Action::Return { result, reap: false },
                        ),
                    )
                },
                Event::Output(Err(cause)) => Some(
                    (
                        Call { phase: Phase::Finished, request, time_limit, memory_limit },
                        Action::Return { result: Err(SafeJaqError::Command(cause)), reap: false },
                    ),
                ),
                _ => None,
            },
            Phase::Finished => None,
        }
    }
}

impl SafeJaq {
    /// Begins the evaluation of `filter` against `payload`.
    ///
    /// The call starts idle, with its request written, and the first thing
    /// to do is to start the child with the arguments that carry the limits.
    pub fn begin(&self, filter: &str, payload: &Value) -> (start: (Call, Action))
        ensures
            start.0.spec_phase() == Phase::Idle,
            start.0.spec_request() == spec_request_text(
                json_string_text(filter@),
                json_value_text(*payload),
            ),
            start.0.spec_time_limit() == self.spec_time_limit(),
            start.0.spec_memory_limit() == self.spec_memory_limit(),
            start.1 matches Action::Spawn { args } && args.deep_view()
                == crate::config::spec_command_args(
                self.spec_memory_limit(),
                crate::config::whole_seconds(self.spec_time_limit()),
            ),
    {
        let call = Call {
            phase: Phase::Idle,
            request: encode_request(
                &EvaluationRequest {
                    filter: Cow::Borrowed(filter),
                    payload: Cow::Borrowed(payload),
                },
            ),
            time_limit: self.time_limit(),
            memory_limit: self.memory_limit(),
        };
        (call, Action::Spawn { args: self.command_args() })
    }
}

/// A finished call takes no further event: the caller gets one answer.
pub proof fn lemma_finished_is_final(call: Call, event: Event, next: Option<(Call, Action)>)
    requires
        call.spec_phase() == Phase::Finished,
        call.spec_step(event, next),
    ensures
        next is None,
{
}

/// Every step takes the call to a later phase and keeps its request and its
/// limits, and the step that ends the call is the one that returns a result.
/// So a call ends after three steps at most, is never begun anew, and
/// returns once.
pub proof fn lemma_step_advances(call: Call, event: Event, next: Call, action: Action)
    requires
        call.spec_step(event, Some((next, action))),
    ensures
        spec_rank(next.spec_phase()) > spec_rank(call.spec_phase()),
        call.spec_moved_to(next, next.spec_phase()),
        action is Return <==> next.spec_phase() == Phase::Finished,
        !(action is Spawn),
{
}

/// A call goes over its limits in two ways only: the exchange with the
/// child did not complete in time, or the child ended with a status other
/// than the clean one. The error then names the evaluator's own limits. The
/// child is left to a reaper in the first case and in no other.
pub proof fn lemma_limit_exceeded(
    call: Call,
    event: Event,
    next: Call,
    result: Result<bool, SafeJaqError>,
    reap: bool,
)
    requires
        call.spec_step(event, Some((next, Action::Return { result, reap }))),
    ensures
        reap <==> (event matches Event::Exchange(exchange) && exchange != Exchange::Completed),
        reap ==> call.spec_limit_exceeded(result),
        (result matches Err(SafeJaqError::LimitExceeded(_, _))) ==> call.spec_limit_exceeded(
            result,
        ),
        (result matches Err(SafeJaqError::LimitExceeded(_, _))) <==> reap || (event matches Event::Output(
            Ok(output),
        ) && !output.success),
{
}

/// A verdict or an evaluation error comes from a child that ended in time
/// and with the clean status, and is what the child wrote.
pub proof fn lemma_answer_is_the_childs(
    call: Call,
    event: Event,
    next: Call,
    result: Result<bool, SafeJaqError>,
    reap: bool,
)
    requires
        call.spec_step(event, Some((next, Action::Return { result, reap }))),
        result is Ok || (result matches Err(SafeJaqError::Evaluation(_))),
    ensures
        call.spec_phase() == Phase::AwaitingResponse,
        event matches Event::Output(Ok(output)) && output.success && spec_verdict_of(
            parsed_result(output.stdout@),
            result,
        ),
{
}

/// A call whose child was started and whose exchange did not complete, be
/// it that the deadline passed or that a pipe failed, ends at once with
/// `LimitExceeded` and the evaluator's own limits, and leaves the child to
/// a reaper. It gives no verdict, no evaluation error and no command error.
pub proof fn lemma_overdue_child_exceeds_limits(
    idle: Call,
    spawned: Call,
    first: Action,
    exchange: Exchange,
    ended: Option<(Call, Action)>,
)
    requires
        idle.spec_phase() == Phase::Idle,
        idle.spec_step(Event::Spawn(Ok(())), Some((spawned, first))),
        exchange != Exchange::Completed,
        spawned.spec_step(Event::Exchange(exchange), ended),
    ensures
        first matches Action::Exchange { request, time_limit } && request@ == idle.spec_request()
            && time_limit == idle.spec_time_limit(),
        ended matches Some((last, Action::Return { result, reap })) && last.spec_phase()
            == Phase::Finished && idle.spec_limit_exceeded(result) && reap,
{
}

/// A call whose child ended in time, but not with the clean status, ends
/// with `LimitExceeded` and the evaluator's own limits, whatever the child
/// wrote. No reaper is wanted: the child is gone.
pub proof fn lemma_unclean_exit_exceeds_limits(
    idle: Call,
    spawned: Call,
    first: Action,
    awaiting: Call,
    second: Action,
    output: ChildOutput,
    ended: Option<(Call, Action)>,
)
    requires
        idle.spec_phase() == Phase::Idle,
        idle.spec_step(Event::Spawn(Ok(())), Some((spawned, first))),
        spawned.spec_step(Event::Exchange(Exchange::Completed), Some((awaiting, second))),
        !output.success,
        awaiting.spec_step(Event::Output(Ok(output)), ended),
    ensures
        second is Collect,
        ended matches Some((last, Action::Return { result, reap })) && last.spec_phase()
            == Phase::Finished && idle.spec_limit_exceeded(result) && !reap,
{
}

/// A call whose child ended in time and with the clean status gives what
/// the child wrote: the verdict, or the child's message as an evaluation
/// error, which is never taken for a violation of the limits. No reaper is
/// wanted.
pub proof fn lemma_clean_exit_gives_the_childs_answer(
    idle: Call,
    spawned: Call,
    first: Action,
    awaiting: Call,
    second: Action,
    output: ChildOutput,
    answer: Result<bool, Seq<char>>,
    ended: Option<(Call, Action)>,
)
    requires
        idle.spec_phase() == Phase::Idle,
        idle.spec_step(Event::Spawn(Ok(())), Some((spawned, first))),
        spawned.spec_step(Event::Exchange(Exchange::Completed), Some((awaiting, second))),
        output.success,
        parsed_result(output.stdout@) == Some(answer),
        awaiting.spec_step(Event::Output(Ok(output)), ended),
    ensures
        ended matches Some((last, Action::Return { result, reap })) && last.spec_phase()
            == Phase::Finished && !reap && match answer {
            Ok(verdict) => result == Ok::<bool, SafeJaqError>(verdict),
            Err(message) => result matches Err(SafeJaqError::Evaluation(text)) && text@
                == message,
        },
{
}

} // verus!
