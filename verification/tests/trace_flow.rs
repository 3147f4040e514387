use rastreador::tracer::{Action, Event, ExitCause, Phase, Tracer};
use rastreador::regs::RegisterSnapshot;
use rastreador::TraceError;

// No tracee carries this identifier; register fetches and remote reads
// against it fail, which exercises the fatal and the tolerated paths.
const NO_PID: i32 = -1;

fn regs_for(num: u64) -> RegisterSnapshot {
    RegisterSnapshot {
        orig_rax: num,
        rax: 0,
        rdi: 1,
        rsi: 0x7f00,
        rdx: 5,
        r10: 0,
        r8: 0,
        r9: 0,
    }
}

#[test]
fn one_write_and_one_exit_yield_exactly_those_counts() {
    // A run whose tracee performs one write and one exit_group: entry
    // and exit stops for write, then the entry stop of exit_group.
    let mut t = Tracer::new(false, false);
    let rec = t.on_syscall_regs(NO_PID, &regs_for(1));
    assert!(rec.is_entry);
    assert_eq!(rec.name, "write");
    let rec = t.on_syscall_regs(NO_PID, &regs_for(1));
    assert!(!rec.is_entry);
    let rec = t.on_syscall_regs(NO_PID, &regs_for(231));
    assert!(rec.is_entry);
    assert_eq!(rec.name, "exit_group");
    assert_eq!(t.count_of(1), 1);
    assert_eq!(t.count_of(231), 1);
    assert_eq!(t.count_of(0), 0);
    assert_eq!(t.counts.sorted_entries(), vec![(1, 1), (231, 1)]);
}

#[test]
fn entry_and_exit_classifications_alternate() {
    let mut t = Tracer::new(false, false);
    let mut classifications = Vec::new();
    for _ in 0..6 {
        classifications.push(t.on_syscall_regs(NO_PID, &regs_for(0)).is_entry);
    }
    assert_eq!(classifications, vec![true, false, true, false, true, false]);
}

#[test]
fn entries_are_counted_exits_are_not() {
    let mut t = Tracer::new(false, false);
    for _ in 0..3 {
        t.on_syscall_regs(NO_PID, &regs_for(9));
        t.on_syscall_regs(NO_PID, &regs_for(9));
    }
    assert_eq!(t.count_of(9), 3);
}

#[test]
fn exit_record_carries_the_number_captured_at_entry() {
    let mut t = Tracer::new(false, false);
    let entry = t.on_syscall_regs(NO_PID, &regs_for(257));
    assert!(entry.is_entry);
    // At the exit stop the number register already holds the result;
    // the record must still name the syscall seen at the entry.
    let exit = t.on_syscall_regs(
        NO_PID,
        &RegisterSnapshot {
            orig_rax: 257,
            rax: 3,
            rdi: 0,
            rsi: 0,
            rdx: 0,
            r10: 0,
            r8: 0,
            r9: 0,
        },
    );
    assert!(!exit.is_entry);
    assert_eq!(exit.num, 257);
    assert_eq!(exit.name, "openat");
    assert_eq!(exit.ret, 3);
}

#[test]
fn decoded_arguments_follow_the_snapshot() {
    let mut t = Tracer::new(false, false);
    let rec = t.on_syscall_regs(NO_PID, &regs_for(1));
    assert_eq!(rec.args, [1, 0x7f00, 5, 0, 0, 0]);
    assert_eq!(rec.num, 1);
}

#[test]
fn path_reads_are_tolerated_when_the_tracee_is_unreadable() {
    let mut t = Tracer::new(true, false);
    // openat asks for a path read; the fake tracee makes it fail, and
    // the record simply carries no path.
    let rec = t.on_syscall_regs(NO_PID, &regs_for(257));
    assert!(rec.is_entry);
    assert_eq!(rec.path, None);
    assert_eq!(t.count_of(257), 1);
}

#[test]
fn silent_mode_never_reads_paths() {
    let mut t = Tracer::new(false, false);
    let rec = t.on_syscall_regs(NO_PID, &regs_for(59));
    assert_eq!(rec.path, None);
}

#[test]
fn signal_stops_re_inject_the_pending_signal() {
    let mut t = Tracer::new(false, false);
    let out = t.step(NO_PID, Event::SignalStop(17)).unwrap();
    assert_eq!(out.action, Action::ResumeDeliver(17));
    assert!(out.record.is_none());
    assert!(matches!(t.phase, Phase::Running));
}

#[test]
fn lifecycle_events_resume_without_processing() {
    let mut t = Tracer::new(false, false);
    let out = t.step(NO_PID, Event::Lifecycle).unwrap();
    assert_eq!(out.action, Action::ResumeSyscall);
    assert!(out.record.is_none());
}

#[test]
fn unknown_notifications_keep_the_loop_waiting() {
    let mut t = Tracer::new(false, false);
    let out = t.step(NO_PID, Event::Unknown).unwrap();
    assert_eq!(out.action, Action::KeepWaiting);
    assert!(matches!(t.phase, Phase::Running));
}

#[test]
fn a_normal_exit_terminates_the_trace() {
    let mut t = Tracer::new(false, false);
    let out = t.step(NO_PID, Event::Exited(3)).unwrap();
    assert_eq!(out.action, Action::Finished);
    assert!(matches!(t.phase, Phase::Terminated));
    assert_eq!(t.exit, Some(ExitCause::Exited(3)));
}

#[test]
fn a_killing_signal_terminates_the_trace() {
    let mut t = Tracer::new(false, false);
    let out = t.step(NO_PID, Event::Signaled(9)).unwrap();
    assert_eq!(out.action, Action::Finished);
    assert_eq!(t.exit, Some(ExitCause::Signaled(9)));
}

#[test]
fn an_unreadable_register_snapshot_is_fatal() {
    let mut t = Tracer::new(false, false);
    let r = t.step(NO_PID, Event::SyscallStop);
    assert_eq!(r.err(), Some(TraceError::RegisterRead));
    assert_eq!(TraceError::RegisterRead.message(), "PTRACE_GETREGS failed");
}
