use seccompbench::{
    defer, disallowed_syscall_names, syscall_number_of_register, validate_iterations, BenchError,
    BenchOptions, FilterAction, FilterSetup, StopReport, TraceAction, TracePhase, TraceSession,
    RESOLVE_ERROR,
};

use std::cell::Cell;

const SOCKET: i32 = 41;
const CONNECT: i32 = 42;

fn socket_options() -> BenchOptions {
    let mut options = BenchOptions::new(100);
    options.add_disallowed_syscall("socket", SOCKET).unwrap();
    options.add_disallowed_syscall("connect", CONNECT).unwrap();
    options
}

#[test]
fn new_options_are_empty() {
    let options = BenchOptions::new(10000);
    assert_eq!(options.iterations(), 10000);
    assert!(options.disallowed_syscalls().is_empty());
}

#[test]
fn add_resolved_syscall_keeps_order() {
    let options = socket_options();
    assert_eq!(options.disallowed_syscalls(), &vec![41i64, 42]);
    assert!(options.is_disallowed(41));
    assert!(options.is_disallowed(42));
    assert!(!options.is_disallowed(72));
}

#[test]
fn unknown_syscall_name_is_rejected() {
    let mut options = socket_options();
    let r = options.add_disallowed_syscall("nosuchcall", RESOLVE_ERROR);
    assert_eq!(r, Err(BenchError::NoSuchSyscall(String::from("nosuchcall"))));
    assert_eq!(options.disallowed_syscalls(), &vec![41i64, 42]);
}

#[test]
fn same_resolution_gives_same_list() {
    let names = vec!["socket", "connect"];
    let resolved = vec![SOCKET, CONNECT];
    let a = BenchOptions::with_disallowed(5, &names, &resolved).unwrap();
    let b = BenchOptions::with_disallowed(5, &names, &resolved).unwrap();
    assert_eq!(a.disallowed_syscalls(), b.disallowed_syscalls());
    assert_eq!(a.iterations(), 5);
}

#[test]
fn first_unknown_name_aborts_building() {
    let names = vec!["socket", "bogus", "alsobogus"];
    let resolved = vec![SOCKET, RESOLVE_ERROR, RESOLVE_ERROR];
    let r = BenchOptions::with_disallowed(5, &names, &resolved);
    assert!(matches!(r, Err(BenchError::NoSuchSyscall(ref s)) if s == "bogus"));
}

#[test]
fn names_are_the_socket_family() {
    assert_eq!(
        disallowed_syscall_names(),
        vec!["socket", "connect", "accept", "sendto", "recvfrom", "bind", "listen"]
    );
}

#[test]
fn iterations_must_be_positive() {
    assert_eq!(validate_iterations(10000), Ok(10000));
    assert_eq!(validate_iterations(1), Ok(1));
    assert_eq!(validate_iterations(0), Err(BenchError::InvalidIterations(0)));
    assert_eq!(validate_iterations(-3), Err(BenchError::InvalidIterations(-3)));
}

#[test]
fn register_bits_read_as_signed() {
    assert_eq!(syscall_number_of_register(41), 41);
    assert_eq!(syscall_number_of_register(u64::MAX), -1);
    assert_eq!(syscall_number_of_register(0x8000_0000_0000_0000), i64::MIN);
    assert_eq!(syscall_number_of_register(0x7fff_ffff_ffff_ffff), i64::MAX);
}

fn attached_session() -> TraceSession {
    let mut s = TraceSession::new();
    assert_eq!(s.phase(), TracePhase::Attached);
    s.on_exec_stop();
    assert_eq!(s.phase(), TracePhase::EntryPending);
    s
}

#[test]
fn allowed_syscalls_decided_once_each() {
    let options = socket_options();
    let mut s = attached_session();
    let mut reads = 0;
    // Three allowed syscalls: six stops, three decisions.
    for id in [72i64, 72, 3] {
        assert_eq!(s.on_stop(StopReport::SyscallStop), TraceAction::ReadSyscallNumber);
        reads += 1;
        assert_eq!(s.phase(), TracePhase::Deciding);
        assert_eq!(s.on_syscall_number(&options, id), TraceAction::Resume);
        assert_eq!(s.phase(), TracePhase::ExitPending);
        assert_eq!(s.on_stop(StopReport::SyscallStop), TraceAction::Resume);
        assert_eq!(s.phase(), TracePhase::EntryPending);
    }
    assert_eq!(reads, 3);
    assert_eq!(s.on_stop(StopReport::Exited(0)), TraceAction::Finish);
    assert_eq!(s.phase(), TracePhase::Exited(0));
}

#[test]
fn disallowed_syscall_kills_child() {
    let options = socket_options();
    let mut s = attached_session();
    assert_eq!(s.on_stop(StopReport::SyscallStop), TraceAction::ReadSyscallNumber);
    assert_eq!(s.on_syscall_number(&options, 72), TraceAction::Resume);
    assert_eq!(s.on_stop(StopReport::SyscallStop), TraceAction::Resume);
    assert_eq!(s.on_stop(StopReport::SyscallStop), TraceAction::ReadSyscallNumber);
    assert_eq!(s.on_syscall_number(&options, 41), TraceAction::KillChild);
    assert_eq!(s.phase(), TracePhase::Killed(41));
}

#[test]
fn exit_stop_is_never_judged() {
    // The exit stop of an allowed syscall resumes without a read, even if the
    // number is disallowed afterwards.
    let options = socket_options();
    let mut s = attached_session();
    assert_eq!(s.on_stop(StopReport::SyscallStop), TraceAction::ReadSyscallNumber);
    assert_eq!(s.on_syscall_number(&options, 0), TraceAction::Resume);
    assert_eq!(s.on_stop(StopReport::SyscallStop), TraceAction::Resume);
    assert_eq!(s.phase(), TracePhase::EntryPending);
}

#[test]
fn signal_stop_between_entry_and_exit_is_not_judged() {
    let options = socket_options();
    let mut s = attached_session();
    assert_eq!(s.on_stop(StopReport::SyscallStop), TraceAction::ReadSyscallNumber);
    assert_eq!(s.on_syscall_number(&options, 0), TraceAction::Resume);
    assert_eq!(s.phase(), TracePhase::ExitPending);
    assert_eq!(s.on_stop(StopReport::SignalStop(17)), TraceAction::Resume);
    assert_eq!(s.phase(), TracePhase::ExitPending);
    assert_eq!(s.on_stop(StopReport::SyscallStop), TraceAction::Resume);
    assert_eq!(s.phase(), TracePhase::EntryPending);
    assert_eq!(s.on_stop(StopReport::SignalStop(14)), TraceAction::Resume);
    assert_eq!(s.phase(), TracePhase::EntryPending);
    assert_eq!(s.on_stop(StopReport::SyscallStop), TraceAction::ReadSyscallNumber);
    assert_eq!(s.on_syscall_number(&options, 41), TraceAction::KillChild);
    assert_eq!(s.phase(), TracePhase::Killed(41));
}

#[test]
fn child_signal_ends_session() {
    let mut s = attached_session();
    assert_eq!(s.on_stop(StopReport::Signaled(9)), TraceAction::Finish);
    assert_eq!(s.phase(), TracePhase::Signaled(9));
}

#[test]
fn child_exit_after_entry_ends_session() {
    let options = socket_options();
    let mut s = attached_session();
    assert_eq!(s.on_stop(StopReport::SyscallStop), TraceAction::ReadSyscallNumber);
    assert_eq!(s.on_syscall_number(&options, 231), TraceAction::Resume);
    assert_eq!(s.on_stop(StopReport::Exited(3)), TraceAction::Finish);
    assert_eq!(s.phase(), TracePhase::Exited(3));
}

#[test]
fn filter_plan_adds_all_rules_before_load() {
    let options = socket_options();
    let mut f = FilterSetup::new(&options);
    let mut seen = Vec::new();
    loop {
        let a = f.next_action();
        seen.push(a);
        if a == FilterAction::Done {
            break;
        }
        assert_eq!(f.on_result(true), Ok(()));
    }
    assert_eq!(
        seen,
        vec![
            FilterAction::CreateContext,
            FilterAction::AddKillRule(41),
            FilterAction::AddKillRule(42),
            FilterAction::Load,
            FilterAction::Release,
            FilterAction::Done,
        ]
    );
}

#[test]
fn filter_plan_for_empty_list() {
    let options = BenchOptions::new(1);
    let mut f = FilterSetup::new(&options);
    assert_eq!(f.next_action(), FilterAction::CreateContext);
    assert_eq!(f.on_result(true), Ok(()));
    assert_eq!(f.next_action(), FilterAction::Load);
}

#[test]
fn filter_init_failure() {
    let options = socket_options();
    let mut f = FilterSetup::new(&options);
    assert_eq!(f.on_result(false), Err(BenchError::FilterInit));
    assert_eq!(f.next_action(), FilterAction::CreateContext);
}

#[test]
fn filter_rule_failure_names_syscall() {
    let options = socket_options();
    let mut f = FilterSetup::new(&options);
    assert_eq!(f.on_result(true), Ok(()));
    assert_eq!(f.on_result(true), Ok(()));
    assert_eq!(f.next_action(), FilterAction::AddKillRule(42));
    assert_eq!(f.on_result(false), Err(BenchError::FilterRule(42)));
}

#[test]
fn filter_load_failure() {
    let options = BenchOptions::new(1);
    let mut f = FilterSetup::new(&options);
    assert_eq!(f.on_result(true), Ok(()));
    assert_eq!(f.on_result(false), Err(BenchError::FilterLoad));
}

#[test]
fn filter_release_cannot_fail() {
    let options = BenchOptions::new(1);
    let mut f = FilterSetup::new(&options);
    assert_eq!(f.on_result(true), Ok(()));
    assert_eq!(f.on_result(true), Ok(()));
    assert_eq!(f.next_action(), FilterAction::Release);
    assert_eq!(f.on_result(false), Ok(()));
    assert_eq!(f.next_action(), FilterAction::Done);
}

#[test]
fn deferred_action_runs_once() {
    let count = Cell::new(0);
    let mut guard = defer(|| count.set(count.get() + 1));
    assert_eq!(count.get(), 0);
    guard.fire();
    guard.fire();
    assert_eq!(count.get(), 1);
}
