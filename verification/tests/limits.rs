use nix::errno::Errno;
use nix::sys::resource::{getrlimit, Resource};
use safejaq::limits::{
    confirm, lower, lowered, plan, request, set_limits, Ceiling, LimitError, Lowering,
    CORE_DUMP_LIMIT,
};

#[test]
fn lower_request_lowers() {
    assert_eq!(lowered(10, 11), Some(10));
    assert_eq!(lowered(0, u64::MAX), Some(0));
    assert_eq!(lowered(0, 1), Some(0));
}

#[test]
fn equal_or_higher_request_leaves_the_ceiling() {
    assert_eq!(lowered(10, 10), None);
    assert_eq!(lowered(11, 10), None);
    assert_eq!(lowered(u64::MAX, u64::MAX), None);
    assert_eq!(lowered(u64::MAX, 0), None);
    assert_eq!(lowered(0, 0), None);
}

#[test]
fn unlimited_request_changes_nothing_but_core_dumps() {
    let (memory_before, _) = getrlimit(Resource::RLIMIT_AS).unwrap();
    let (cpu_before, _) = getrlimit(Resource::RLIMIT_CPU).unwrap();
    let done = set_limits(u64::MAX, u64::MAX).unwrap();
    assert_eq!(done.memory.found, memory_before);
    assert_eq!(done.memory.set, None);
    assert_eq!(done.cpu_time.found, cpu_before);
    assert_eq!(done.cpu_time.set, None);
    assert_eq!(done.core_dump, 0);
    assert_eq!(getrlimit(Resource::RLIMIT_AS).unwrap().0, memory_before);
    assert_eq!(getrlimit(Resource::RLIMIT_CPU).unwrap().0, cpu_before);
    assert_eq!(getrlimit(Resource::RLIMIT_CORE).unwrap(), (0, 0));
}

#[test]
fn cpu_ceiling_is_lowered_and_never_raised() {
    let (before, _) = getrlimit(Resource::RLIMIT_CPU).unwrap();
    let wanted = if before > 1_000_000 { 1_000_000 } else { before.saturating_sub(1) };
    let first = lower(Ceiling::CpuTime, wanted).unwrap();
    assert_eq!(first.found, before);
    assert_eq!(first.set, lowered(wanted, before));
    let (soft, hard) = getrlimit(Resource::RLIMIT_CPU).unwrap();
    assert_eq!(soft, wanted.min(before));
    assert!(hard >= soft);
    if first.set.is_some() {
        assert_eq!(hard, wanted);
    }
    let second = lower(Ceiling::CpuTime, wanted.saturating_add(5)).unwrap();
    assert_eq!(second.found, soft);
    assert_eq!(second.set, None);
    assert_eq!(getrlimit(Resource::RLIMIT_CPU).unwrap(), (soft, hard));
    let third = lower(Ceiling::CpuTime, wanted).unwrap();
    assert_eq!(third.set, None);
}

#[test]
fn set_limits_reports_what_it_did() {
    let (memory_before, _) = getrlimit(Resource::RLIMIT_AS).unwrap();
    let (cpu_before, _) = getrlimit(Resource::RLIMIT_CPU).unwrap();
    let memory = 1u64 << 46;
    let seconds = 2_000_000;
    let done = set_limits(memory, seconds).unwrap();
    assert_eq!(done.memory.found, memory_before);
    assert_eq!(done.memory.set, lowered(memory, memory_before));
    assert_eq!(done.cpu_time.found, cpu_before);
    assert_eq!(done.cpu_time.set, lowered(seconds, cpu_before));
    assert_eq!(getrlimit(Resource::RLIMIT_AS).unwrap().0, memory.min(memory_before));
    assert_eq!(getrlimit(Resource::RLIMIT_CPU).unwrap().0, seconds.min(cpu_before));
    assert_eq!(getrlimit(Resource::RLIMIT_CORE).unwrap(), (0, 0));
    let again = set_limits(memory, seconds).unwrap();
    assert_eq!(again.memory.set, None);
    assert_eq!(again.cpu_time.set, None);
}

#[test]
fn plan_follows_the_soft_limit_found() {
    let planned = plan(Ceiling::AddressSpace, 100, Ok((500, 900))).unwrap();
    assert_eq!(planned, Lowering { found: 500, set: Some(100) });
    let planned = plan(Ceiling::CpuTime, 500, Ok((500, 900))).unwrap();
    assert_eq!(planned, Lowering { found: 500, set: None });
    let planned = plan(Ceiling::CpuTime, 700, Ok((500, 900))).unwrap();
    assert_eq!(planned, Lowering { found: 500, set: None });
    let planned = plan(Ceiling::CpuTime, 0, Ok((u64::MAX, u64::MAX))).unwrap();
    assert_eq!(planned, Lowering { found: u64::MAX, set: Some(0) });
}

#[test]
fn plan_hands_on_the_error_of_the_query() {
    match plan(Ceiling::CpuTime, 100, Err(Errno::EINVAL)) {
        Err(LimitError::Query(Ceiling::CpuTime, Errno::EINVAL)) => {}
        other => panic!("unexpected plan: {other:?}"),
    }
    match plan(Ceiling::AddressSpace, 0, Err(Errno::EFAULT)) {
        Err(LimitError::Query(Ceiling::AddressSpace, Errno::EFAULT)) => {}
        other => panic!("unexpected plan: {other:?}"),
    }
}

#[test]
fn confirm_keeps_what_was_done_or_names_the_refusal() {
    let done = Lowering { found: 500, set: Some(100) };
    assert_eq!(confirm(Ceiling::AddressSpace, done, Ok(())).unwrap(), done);
    match confirm(Ceiling::AddressSpace, done, Err(Errno::EPERM)) {
        Err(LimitError::Apply(Ceiling::AddressSpace, Errno::EPERM)) => {}
        other => panic!("unexpected outcome: {other:?}"),
    }
    match confirm(Ceiling::CoreDump, 7u8, Err(Errno::EINVAL)) {
        Err(LimitError::Apply(Ceiling::CoreDump, Errno::EINVAL)) => {}
        other => panic!("unexpected outcome: {other:?}"),
    }
    assert_eq!(confirm(Ceiling::CoreDump, 7u8, Ok(())).unwrap(), 7);
}

#[test]
fn core_dumps_are_limited_to_nothing() {
    assert_eq!(CORE_DUMP_LIMIT, 0);
    let done = set_limits(u64::MAX, u64::MAX).unwrap();
    assert_eq!(done.core_dump, 0);
    assert_eq!(getrlimit(Resource::RLIMIT_CORE).unwrap(), (0, 0));
}

#[test]
fn request_sets_soft_and_hard_alike() {
    assert_eq!(request(Lowering { found: 500, set: Some(100) }), Some((100, 100)));
    assert_eq!(request(Lowering { found: u64::MAX, set: Some(0) }), Some((0, 0)));
    assert_eq!(request(Lowering { found: 500, set: None }), None);
}

#[test]
fn failure_words_name_the_step_and_the_resource() {
    let cases = [
        (LimitError::Query(Ceiling::AddressSpace, Errno::EPERM), "failed to get RLIMIT_AS"),
        (LimitError::Apply(Ceiling::AddressSpace, Errno::EPERM), "failed to set RLIMIT_AS"),
        (LimitError::Query(Ceiling::CpuTime, Errno::EINVAL), "failed to get RLIMIT_CPU"),
        (LimitError::Apply(Ceiling::CpuTime, Errno::EINVAL), "failed to set RLIMIT_CPU"),
        (LimitError::Query(Ceiling::CoreDump, Errno::EFAULT), "failed to get RLIMIT_CORE"),
        (LimitError::Apply(Ceiling::CoreDump, Errno::EFAULT), "failed to set RLIMIT_CORE"),
    ];
    for (error, words) in cases {
        assert_eq!(error.failure_words(), words);
    }
}

#[test]
fn errno_is_the_systems() {
    assert_eq!(LimitError::Query(Ceiling::CpuTime, Errno::EINVAL).errno(), Errno::EINVAL);
    assert_eq!(LimitError::Apply(Ceiling::CoreDump, Errno::EPERM).errno(), Errno::EPERM);
}
