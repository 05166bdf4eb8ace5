//! The ceilings that the child puts on itself before it reads any input.
//!
//! A ceiling is only ever lowered: a limit that is no lower than what the
//! child inherited leaves the inherited one in force.

use nix::errno::Errno;
use nix::sys::resource::{getrlimit, setrlimit, Resource};
use vstd::prelude::*;
use vstd::string::StringExecFns;

verus! {

/// `nix::errno::Errno`, the error number of a failed system call.
#[verifier::external_type_specification]
#[verifier::external_body]
pub struct ExErrno(Errno);

/// The resources whose ceilings the child touches.
#[derive(Clone, Copy, Debug, PartialEq, Eq, Structural)]
pub enum Ceiling {
    /// The size of the address space, in bytes.
    AddressSpace,
    /// The processor time, in seconds.
    CpuTime,
    /// The size of a core dump, in bytes.
    CoreDump,
}

/// Why the ceilings could not be put in place.
#[derive(Debug)]
pub enum LimitError {
    /// The ceiling in force could not be read.
    Query(Ceiling, Errno),
    /// The new ceiling could not be set.
    Apply(Ceiling, Errno),
}

/// What was done about one ceiling.
#[derive(Clone, Copy, Debug, PartialEq, Eq, Structural)]
pub struct Lowering {
    /// The soft limit that was found in force.
    pub found: u64,
    /// The limit that was set in its place, soft and hard alike; `None`
    /// where the ceiling was left as it was.
    pub set: Option<u64>,
}

/// What was done about the ceilings of the child.
#[derive(Clone, Copy, Debug, PartialEq, Eq, Structural)]
pub struct LimitsSet {
    /// The ceiling on the address space.
    pub memory: Lowering,
    /// The ceiling on the processor time.
    pub cpu_time: Lowering,
    /// The size that core dumps were limited to, soft and hard alike.
    pub core_dump: u64,
}

/// Calls `getrlimit` of `nix` for the resource that `ceiling` stands for.
///
/// The soft and the hard limit come from the system as they are at the time
/// of the call; nothing is claimed of them.
#[verifier::external_body]
fn current_limit(ceiling: Ceiling) -> (limits: Result<(u64, u64), Errno>) {
    getrlimit(
        match ceiling {
            Ceiling::AddressSpace => Resource::RLIMIT_AS,
            Ceiling::CpuTime => Resource::RLIMIT_CPU,
            Ceiling::CoreDump => Resource::RLIMIT_CORE,
        },
    )
}

/// Calls `setrlimit` of `nix` for the resource that `ceiling` stands for.
///
/// Whether the system takes the new limits is its own matter; nothing is
/// claimed of the outcome.
#[verifier::external_body]
fn apply_limit(ceiling: Ceiling, soft: u64, hard: u64) -> (outcome: Result<(), Errno>) {
    setrlimit(
        match ceiling {
            Ceiling::AddressSpace => Resource::RLIMIT_AS,
            Ceiling::CpuTime => Resource::RLIMIT_CPU,
            Ceiling::CoreDump => Resource::RLIMIT_CORE,
        },
        soft,
        hard,
    )
}

/// The limit to set where `requested` is asked for and `current` is in
/// force: `requested` where it is the lower one, else none.
pub open spec fn spec_lowered(requested: u64, current: u64) -> Option<u64> {
    if requested < current {
        Some(requested)
    } else {
        None
    }
}

/// The limit in force once `spec_lowered` has been followed.
pub open spec fn spec_ceiling_after(requested: u64, current: u64) -> u64 {
    match spec_lowered(requested, current) {
        Some(limit) => limit,
        None => current,
    }
}

/// A ceiling never rises: what is in force afterwards is the lower one of
/// what was in force before and what was asked for.
pub proof fn lemma_ceiling_only_lowers(requested: u64, current: u64)
    ensures
        spec_ceiling_after(requested, current) <= current,
        spec_ceiling_after(requested, current) <= requested,
        spec_ceiling_after(requested, current) == requested || spec_ceiling_after(
            requested,
            current,
        ) == current,
        spec_lowered(requested, current) matches Some(limit) ==> limit < current,
{
}

/// Asking for the same limit again changes nothing.
pub proof fn lemma_lowering_settles(requested: u64, current: u64)
    ensures
        spec_lowered(requested, spec_ceiling_after(requested, current)) is None,
{
}

/// Decides whether a ceiling is to be lowered, and to what.
pub fn lowered(requested: u64, current: u64) -> (limit: Option<u64>)
    ensures
        limit == spec_lowered(requested, current),
{
    if requested < current {
        Some(requested)
    } else {
        None
    }
}

/// Lowers one ceiling to `requested`, unless it is that low already.
///
/// The soft limit found in force decides; soft and hard limit are then set
/// to `requested` together. What comes back is what [`spec_lower`] gives for
/// the two answers of the system, whatever they were.
pub fn lower(ceiling: Ceiling, requested: u64) -> (outcome: Result<Lowering, LimitError>)
    ensures
        exists|query: Result<(u64, u64), Errno>, applied: Result<(), Errno>|
            outcome == #[trigger] spec_lower(ceiling, requested, query, applied),
        outcome matches Ok(lowering) ==> lowering.set == spec_lowered(requested, lowering.found),
{
    let query = current_limit(ceiling);
    let planned = match plan(ceiling, requested, query) {
        Ok(planned) => planned,
        Err(error) => {
            assert(Err::<Lowering, LimitError>(error) == spec_lower(
                ceiling,
                requested,
                query,
                Ok(()),
            ));
            return Err(error);
        },
    };
    match request(planned) {
        None => {
            assert(Ok::<Lowering, LimitError>(planned) == spec_lower(
                ceiling,
                requested,
                query,
                Ok(()),
            ));
            Ok(planned)
        },
        Some((soft, hard)) => {
            let applied = apply_limit(ceiling, soft, hard);
            let outcome = confirm(ceiling, planned, applied);
            assert(outcome == spec_lower(ceiling, requested, query, applied));
            outcome
        },
    }
}

/// Puts the ceilings of the child in place: the address space is limited to
/// `memory_limit` bytes and the processor time to `time_limit` seconds,
/// each only where that lowers the ceiling, and core dumps are switched off.
///
/// The first step that the system refuses ends the work with its error. What
/// comes back is what [`spec_set_limits`] gives for the answers of the
/// system, whatever they were.
pub fn set_limits(memory_limit: u64, time_limit: u64) -> (outcome: Result<LimitsSet, LimitError>)
    ensures
        exists|answers: Answers|
            outcome == #[trigger] spec_set_limits(memory_limit, time_limit, answers),
        outcome matches Ok(done) ==> {
            &&& done.memory.set == spec_lowered(memory_limit, done.memory.found)
            &&& done.cpu_time.set == spec_lowered(time_limit, done.cpu_time.found)
            &&& done.core_dump == CORE_DUMP_LIMIT
        },
{
    let memory_outcome = lower(Ceiling::AddressSpace, memory_limit);
    let ghost (memory_query, memory_applied) = choose|
        query: Result<(u64, u64), Errno>,
        applied: Result<(), Errno>,
    |
        memory_outcome == #[trigger] spec_lower(
            Ceiling::AddressSpace,
            memory_limit,
            query,
            applied,
        );
    let ghost mut answers = Answers {
        memory_query,
        memory_applied,
        cpu_query: memory_query,
        cpu_applied: memory_applied,
        core_dump_applied: memory_applied,
    };
    let memory = match memory_outcome {
        Ok(lowering) => lowering,
        Err(error) => {
            assert(Err::<LimitsSet, LimitError>(error) == spec_set_limits(
                memory_limit,
                time_limit,
                answers,
            ));
            return Err(error);
        },
    };
    let cpu_outcome = lower(Ceiling::CpuTime, time_limit);
    proof {
        let (cpu_query, cpu_applied) = choose|
            query: Result<(u64, u64), Errno>,
            applied: Result<(), Errno>,
        |
            cpu_outcome == #[trigger] spec_lower(Ceiling::CpuTime, time_limit, query, applied);
        answers = Answers { cpu_query, cpu_applied, ..answers };
    }
    let cpu_time = match cpu_outcome {
        Ok(lowering) => lowering,
        Err(error) => {
            assert(Err::<LimitsSet, LimitError>(error) == spec_set_limits(
                memory_limit,
                time_limit,
                answers,
            ));
            return Err(error);
        },
    };
    let applied = apply_limit(Ceiling::CoreDump, CORE_DUMP_LIMIT, CORE_DUMP_LIMIT);
    proof {
        answers = Answers { core_dump_applied: applied, ..answers };
    }
    let outcome = confirm(
        Ceiling::CoreDump,
        LimitsSet { memory, cpu_time, core_dump: CORE_DUMP_LIMIT },
        applied,
    );
    assert(outcome == spec_set_limits(memory_limit, time_limit, answers));
    outcome
}

/// The size that core dumps are limited to: none is written.
pub const CORE_DUMP_LIMIT: u64 = 0;

/// What the system answered while the ceilings were put in place: to the
/// question for each ceiling in force, and to each request to set one. An
/// answer to a request that was never made counts for nothing.
pub struct Answers {
    /// The soft and the hard limit on the address space, or why they could
    /// not be read.
    pub memory_query: Result<(u64, u64), Errno>,
    /// Whether the new limit on the address space was taken.
    pub memory_applied: Result<(), Errno>,
    /// The soft and the hard limit on the processor time, or why they could
    /// not be read.
    pub cpu_query: Result<(u64, u64), Errno>,
    /// Whether the new limit on the processor time was taken.
    pub cpu_applied: Result<(), Errno>,
    /// Whether the limit on core dumps was taken.
    pub core_dump_applied: Result<(), Errno>,
}

/// What is to be done about a ceiling, given the system's answer to the
/// question what is in force: nothing where the answer is an error, which
/// is handed on; else what `spec_lowered` says for the soft limit found.
pub open spec fn spec_plan(
    ceiling: Ceiling,
    requested: u64,
    query: Result<(u64, u64), Errno>,
) -> Result<Lowering, LimitError> {
    match query {
        Err(errno) => Err(LimitError::Query(ceiling, errno)),
        Ok((found, _)) => Ok(Lowering { found, set: spec_lowered(requested, found) }),
    }
}

/// What a step amounts to once the system has answered the request to set a
/// limit: `done` where the limit was taken, else the system's error.
pub open spec fn spec_confirm<T>(ceiling: Ceiling, done: T, applied: Result<(), Errno>) -> Result<
    T,
    LimitError,
> {
    match applied {
        Ok(()) => Ok(done),
        Err(errno) => Err(LimitError::Apply(ceiling, errno)),
    }
}

/// What lowering one ceiling comes to, given the system's two answers. The
/// ceiling in force is asked for first. A limit is set only where that
/// lowers the ceiling, and then the system's second answer decides.
pub open spec fn spec_lower(
    ceiling: Ceiling,
    requested: u64,
    query: Result<(u64, u64), Errno>,
    applied: Result<(), Errno>,
) -> Result<Lowering, LimitError> {
    match spec_plan(ceiling, requested, query) {
        Err(error) => Err(error),
        Ok(planned) => if planned.set is Some {
            spec_confirm(ceiling, planned, applied)
        } else {
            Ok(planned)
        },
    }
}

/// What putting the ceilings in place comes to, given the system's answers:
/// the address space first, then the processor time, then core dumps, which
/// are limited to nothing whatever the two limits are. The first error ends
/// the work.
pub open spec fn spec_set_limits(memory_limit: u64, time_limit: u64, answers: Answers) -> Result<
    LimitsSet,
    LimitError,
> {
    match spec_lower(
        Ceiling::AddressSpace,
        memory_limit,
        answers.memory_query,
        answers.memory_applied,
    ) {
        Err(error) => Err(error),
        Ok(memory) => match spec_lower(
            Ceiling::CpuTime,
            time_limit,
            answers.cpu_query,
            answers.cpu_applied,
        ) {
            Err(error) => Err(error),
            Ok(cpu_time) => spec_confirm(
                Ceiling::CoreDump,
                LimitsSet { memory, cpu_time, core_dump: CORE_DUMP_LIMIT },
                answers.core_dump_applied,
            ),
        },
    }
}

/// Decides what is to be done about a ceiling, from the system's answer to
/// the question what is in force.
pub fn plan(ceiling: Ceiling, requested: u64, query: Result<(u64, u64), Errno>) -> (planned: Result<
    Lowering,
    LimitError,
>)
    ensures
        planned == spec_plan(ceiling, requested, query),
{
    match query {
        Err(errno) => Err(LimitError::Query(ceiling, errno)),
        Ok((found, _)) => Ok(Lowering { found, set: lowered(requested, found) }),
    }
}

/// The limits to ask the system for where `planned` is to be carried out:
/// soft and hard limit alike, so that the ceiling cannot be raised again;
/// none where the ceiling is left as it is.
pub open spec fn spec_request(planned: Lowering) -> Option<(u64, u64)> {
    match planned.set {
        Some(limit) => Some((limit, limit)),
        None => None,
    }
}

/// Makes the request to the system that carries out `planned`.
pub fn request(planned: Lowering) -> (limits: Option<(u64, u64)>)
    ensures
        limits == spec_request(planned),
{
    match planned.set {
        Some(limit) => Some((limit, limit)),
        None => None,
    }
}

/// The name of the resource that `ceiling` stands for.
pub open spec fn spec_resource_name(ceiling: Ceiling) -> Seq<char> {
    match ceiling {
        Ceiling::AddressSpace => "RLIMIT_AS"@,
        Ceiling::CpuTime => "RLIMIT_CPU"@,
        Ceiling::CoreDump => "RLIMIT_CORE"@,
    }
}

/// The words for a ceiling that could not be put in place: what was tried,
/// and on which resource.
pub open spec fn spec_failure_words(error: LimitError) -> Seq<char> {
    match error {
        LimitError::Query(ceiling, _) => "failed to get "@ + spec_resource_name(ceiling),
        LimitError::Apply(ceiling, _) => "failed to set "@ + spec_resource_name(ceiling),
    }
}

fn resource_name(ceiling: Ceiling) -> (name: &'static str)
    ensures
        name@ == spec_resource_name(ceiling),
{
    match ceiling {
        Ceiling::AddressSpace => "RLIMIT_AS",
        Ceiling::CpuTime => "RLIMIT_CPU",
        Ceiling::CoreDump => "RLIMIT_CORE",
    }
}

impl LimitError {
    /// The error number with which the system refused.
    pub open spec fn spec_errno(self) -> Errno {
        match self {
            LimitError::Query(_, errno) => errno,
            LimitError::Apply(_, errno) => errno,
        }
    }

    /// The error number with which the system refused.
    pub fn errno(&self) -> (errno: Errno)
        ensures
            errno == self.spec_errno(),
    {
        match self {
            LimitError::Query(_, errno) => *errno,
            LimitError::Apply(_, errno) => *errno,
        }
    }

    /// The words with which the child gives up on a ceiling that it could
    /// not put in place.
    pub fn failure_words(&self) -> (text: String)
        ensures
            text@ == spec_failure_words(*self),
    {
        match self {
            LimitError::Query(ceiling, _) => String::from_str("failed to get ").concat(
                resource_name(*ceiling),
            ),
            LimitError::Apply(ceiling, _) => String::from_str("failed to set ").concat(
                resource_name(*ceiling),
            ),
        }
    }
}

/// Decides what a step amounts to, from the system's answer to the request
/// to set a limit.
pub fn confirm<T>(ceiling: Ceiling, done: T, applied: Result<(), Errno>) -> (outcome: Result<
    T,
    LimitError,
>)
    ensures
        outcome == spec_confirm(ceiling, done, applied),
{
    match applied {
        Ok(()) => Ok(done),
        Err(errno) => Err(LimitError::Apply(ceiling, errno)),
    }
}

/// Whatever the system answers, the work on the ceilings ends in one of
/// these ways: both ceilings are as `spec_lowered` says and core dumps are
/// off; or a ceiling in force could not be read, which is never the one on
/// core dumps; or a limit was refused, which for the address space and the
/// processor time happens only where the limit asked for is the lower one.
pub proof fn lemma_set_limits_outcomes(memory_limit: u64, time_limit: u64, answers: Answers)
    ensures
        match spec_set_limits(memory_limit, time_limit, answers) {
            Ok(done) => {
                &&& answers.memory_query matches Ok((found, _)) && done.memory.found == found
                &&& answers.cpu_query matches Ok((found, _)) && done.cpu_time.found == found
                &&& done.memory.set == spec_lowered(memory_limit, done.memory.found)
                &&& done.cpu_time.set == spec_lowered(time_limit, done.cpu_time.found)
                &&& done.core_dump == 0
                &&& answers.core_dump_applied is Ok
            },
            Err(LimitError::Query(ceiling, _)) => ceiling != Ceiling::CoreDump,
            Err(LimitError::Apply(Ceiling::AddressSpace, _)) => {
                answers.memory_query matches Ok((found, _)) && memory_limit < found
            },
            Err(LimitError::Apply(Ceiling::CpuTime, _)) => {
                answers.cpu_query matches Ok((found, _)) && time_limit < found
            },
            Err(LimitError::Apply(Ceiling::CoreDump, _)) => answers.core_dump_applied is Err,
        },
{
}

} // verus!
