//! The tracer control loop's state machine.
//!
//! The loop itself alternates "resume tracee" and "wait for the next
//! notification"; each notification, reduced to plain values, is handed
//! to [`Tracer::step`], which classifies it, updates the per-tracee
//! state (the in-syscall flag, the matching-entry syscall number, the
//! count table) and answers with the action to perform: resume with
//! syscall tracing re-armed, resume re-injecting a pending signal, keep
//! waiting, or finish and render the summary.
use crate::TraceError;
use crate::counts::{sat_inc, CountTable};
use crate::memory::read_string_from_child;
use crate::names::{spec_syscall_name, syscall_name};
use crate::regs::{
    read_regs, spec_syscall_args, spec_syscall_num, spec_syscall_ret, syscall_args, syscall_num,
    syscall_ret, RegisterSnapshot,
};
use vstd::prelude::*;
use vstd::seq_lib::group_to_multiset_ensures;

verus! {

/// A wait notification, reduced to plain values.
#[derive(Clone, Copy, Debug, PartialEq, Eq, Structural)]
pub enum Event {
    /// The tracee paused at a syscall boundary (entry or exit; the
    /// kernel does not say which).
    SyscallStop,
    /// The tracee stopped with a pending signal unrelated to a syscall.
    SignalStop(i32),
    /// An exec, fork, clone or vfork notification; observed only.
    Lifecycle,
    /// The tracee terminated via its own exit path, with this status.
    Exited(i32),
    /// The tracee was killed by this unhandled signal.
    Signaled(i32),
    /// A notification the loop does not recognize.
    Unknown,
}

/// What the loop must do after a step.
#[derive(Clone, Copy, Debug, PartialEq, Eq, Structural)]
pub enum Action {
    /// Resume the tracee with syscall-stop tracing re-armed.
    ResumeSyscall,
    /// Resume the tracee, re-injecting this pending signal.
    ResumeDeliver(i32),
    /// Do not resume; wait for the next notification.
    KeepWaiting,
    /// The trace ended; control passes to the summary reporter.
    Finished,
}

/// How the tracee terminated.
#[derive(Clone, Copy, Debug, PartialEq, Eq, Structural)]
pub enum ExitCause {
    /// Normal exit with this status.
    Exited(i32),
    /// Killed by this signal.
    Signaled(i32),
}

/// The tracee's lifecycle state as the loop sees it once tracing is
/// armed.
#[derive(Clone, Copy, Debug, PartialEq, Eq, Structural)]
pub enum Phase {
    /// Awaiting and classifying notifications.
    Running,
    /// Terminal state: the loop exits.
    Terminated,
}

/// One decoded syscall boundary: number, resolved name, the six raw
/// argument words, the return value (meaningful only at an exit), and
/// an opportunistically recovered string argument.
pub struct SyscallRecord {
    /// Entry stop (true) or exit stop (false).
    pub is_entry: bool,
    /// The syscall number; at an exit, the one captured at the entry.
    pub num: i64,
    /// The resolved name, or the generated placeholder.
    pub name: String,
    /// The six argument registers in ABI order.
    pub args: [u64; 6],
    /// The return-value register; meaningful only at an exit stop.
    pub ret: i64,
    /// A path argument read from the tracee's memory, when one was
    /// sought and found.
    pub path: Option<String>,
}

/// What one step of the loop produced: the action to perform and, at a
/// syscall boundary, the decoded record.
pub struct StepOutcome {
    pub action: Action,
    pub record: Option<SyscallRecord>,
}

/// How often `n` occurs in the recorded entry history.
pub open spec fn occ(h: Seq<i64>, n: i64) -> nat {
    h.to_multiset().count(n)
}

/// An occurrence total clamped to what the counter type can hold.
pub open spec fn clamped(c: nat) -> u64 {
    if c > u64::MAX {
        u64::MAX
    } else {
        c as u64
    }
}

/// A syscall-stop is an entry exactly when the tracee is not currently
/// inside a syscall.
pub open spec fn stop_is_entry(in_syscall: bool) -> bool {
    !in_syscall
}

/// The in-syscall flag after a syscall-stop was handled.
pub open spec fn flag_after_stop(in_syscall: bool) -> bool {
    !in_syscall
}

/// The syscalls whose first argument is conventionally a path pointer;
/// only these get an opportunistic remote string read.
pub open spec fn wants_path(n: i64) -> bool {
    n == 2 || n == 59 || n == 257
}

/// The longest string argument the tracer recovers from the tracee.
pub const MAX_PATH_READ: usize = 4096;

/// The per-tracee tracer state, owned by the control loop.
pub struct Tracer {
    /// Emit a record at each decoded boundary.
    pub verbose: bool,
    /// Invoke the pause gate at each decoded boundary.
    pub pause: bool,
    /// Whether the tracee is between an entry-stop and its exit-stop.
    pub in_syscall: bool,
    /// The number captured at the last entry; resolves the exit record.
    pub current_sys: i64,
    /// Occurrences per syscall number, bumped only at entries.
    pub counts: CountTable,
    /// Lifecycle state.
    pub phase: Phase,
    /// Set exactly when the phase is terminal.
    pub exit: Option<ExitCause>,
    /// History of recorded entry events, by syscall number.
    pub entered: Ghost<Seq<i64>>,
}

impl Tracer {
    /// The count table records exactly the entry-event history (clamped
    /// to the counter's ceiling), and the phase is terminal exactly when
    /// a termination cause was recorded.
    pub open spec fn wf(&self) -> bool {
        &&& self.counts.wf()
        &&& forall|n: i64| self.counts.count_of(n) == clamped(occ(self.entered@, n))
        &&& (self.phase is Terminated <==> self.exit is Some)
    }

    /// A fresh tracer: not inside a syscall, nothing counted, running.
    pub fn new(verbose: bool, pause: bool) -> (t: Tracer)
        ensures
            t.wf(),
            t.verbose == verbose,
            t.pause == pause,
            !t.in_syscall,
            t.current_sys == -1,
            t.phase is Running,
            t.exit is None,
            t.entered@ == Seq::<i64>::empty(),
            forall|n: i64| t.counts.count_of(n) == 0,
    {
        let t = Tracer {
            verbose,
            pause,
            in_syscall: false,
            current_sys: -1i64,
            counts: CountTable::new(),
            phase: Phase::Running,
            exit: None,
            entered: Ghost(Seq::empty()),
        };
        proof {
            broadcast use group_to_multiset_ensures;

            assert forall|n: i64| t.counts.count_of(n) == clamped(occ(t.entered@, n)) by {
                assert(!t.entered@.contains(n));
                assert(occ(t.entered@, n) == 0);
            }
        }
        t
    }

    /// Handles one syscall-stop given the already-fetched register
    /// snapshot. Toggles the in-syscall flag; at an entry decodes
    /// number, name and arguments, counts the number exactly once, and
    /// opportunistically recovers a path argument; at an exit resolves
    /// the return value under the number captured at the matching entry
    /// and counts nothing.
    pub fn on_syscall_regs(&mut self, pid: i32, regs: &RegisterSnapshot) -> (rec: SyscallRecord)
        requires
            old(self).wf(),
            old(self).phase is Running,
        ensures
            final(self).wf(),
            rec.is_entry == stop_is_entry(old(self).in_syscall),
            final(self).in_syscall == flag_after_stop(old(self).in_syscall),
            final(self).verbose == old(self).verbose,
            final(self).pause == old(self).pause,
            final(self).phase == old(self).phase,
            final(self).exit == old(self).exit,
            rec.name@ == spec_syscall_name(rec.num as int),
            rec.args@ == spec_syscall_args(*regs),
            rec.ret == spec_syscall_ret(*regs),
            rec.is_entry ==> {
                &&& rec.num == spec_syscall_num(*regs)
                &&& final(self).current_sys == rec.num
                &&& final(self).entered@ == old(self).entered@.push(rec.num)
                &&& final(self).counts.count_of(rec.num) == sat_inc(
                    old(self).counts.count_of(rec.num),
                )
                &&& forall|m: i64|
                    m != rec.num ==> final(self).counts.count_of(m) == old(self).counts.count_of(m)
            },
            !rec.is_entry ==> {
                &&& rec.num == old(self).current_sys
                &&& final(self).current_sys == old(self).current_sys
                &&& final(self).entered@ == old(self).entered@
                &&& forall|m: i64| final(self).counts.count_of(m) == old(self).counts.count_of(m)
                &&& rec.path is None
            },
            rec.path is Some ==> rec.is_entry && wants_path(rec.num) && (old(self).verbose
                || old(self).pause),
    {
        let args = syscall_args(regs);
        let ret = syscall_ret(regs);
        if !self.in_syscall {
            let num = syscall_num(regs);
            let ghost pre_counts = self.counts;
            let ghost pre_hist = self.entered@;
            self.counts.increment(num);
            proof {
                self.entered@ = pre_hist.push(num);
                lemma_occ_push(pre_hist, num);
                assert forall|m: i64|
                    self.counts.count_of(m) == clamped(occ(self.entered@, m)) by {
                    if m == num {
                        assert(occ(self.entered@, m) == occ(pre_hist, m) + 1);
                    } else {
                        assert(occ(self.entered@, m) == occ(pre_hist, m));
                    }
                }
            }
            self.current_sys = num;
            self.in_syscall = true;
            let name = syscall_name(num);
            let want = num == 2 || num == 59 || num == 257;
            let path = if (self.verbose || self.pause) && want {
                read_string_from_child(pid, args[0], MAX_PATH_READ)
            } else {
                None
            };
            SyscallRecord { is_entry: true, num, name, args, ret, path }
        } else {
            self.in_syscall = false;
            let num = self.current_sys;
            let name = syscall_name(num);
            SyscallRecord { is_entry: false, num, name, args, ret, path: None }
        }
    }

    /// Classifies one wait notification and advances the state machine.
    /// A syscall-stop fetches the registers (the single fatal failure
    /// here) and decodes a record; a plain signal stop asks the loop to
    /// re-inject the signal, never to swallow it; a lifecycle
    /// notification is resumed untouched; a termination records its
    /// cause and finishes; an unrecognized notification changes nothing
    /// and keeps the loop waiting.
    pub fn step(&mut self, pid: i32, ev: Event) -> (r: Result<StepOutcome, TraceError>)
        requires
            old(self).wf(),
            old(self).phase is Running,
        ensures
            r is Err ==> ev is SyscallStop && *final(self) == *old(self) && r->Err_0
                == TraceError::RegisterRead,
            r is Ok ==> final(self).wf() && final(self).verbose == old(self).verbose
                && final(self).pause == old(self).pause,
            r matches Ok(out) ==> (out.record is Some <==> ev is SyscallStop),
            ev is SyscallStop ==> (r matches Ok(out) ==> out.record matches Some(rec) && {
                &&& out.action is ResumeSyscall
                &&& rec.is_entry == stop_is_entry(old(self).in_syscall)
                &&& final(self).in_syscall == flag_after_stop(old(self).in_syscall)
                &&& final(self).phase == old(self).phase
                &&& rec.name@ == spec_syscall_name(rec.num as int)
                &&& rec.is_entry ==> {
                    &&& final(self).current_sys == rec.num
                    &&& final(self).entered@ == old(self).entered@.push(rec.num)
                    &&& final(self).counts.count_of(rec.num) == sat_inc(
                        old(self).counts.count_of(rec.num),
                    )
                    &&& forall|m: i64|
                        m != rec.num ==> final(self).counts.count_of(m)
                            == old(self).counts.count_of(m)
                }
                &&& !rec.is_entry ==> {
                    &&& rec.num == old(self).current_sys
                    &&& final(self).entered@ == old(self).entered@
                    &&& forall|m: i64|
                        final(self).counts.count_of(m) == old(self).counts.count_of(m)
                }
            }),
            ev matches Event::SignalStop(s) ==> (r matches Ok(out) ==> out.action
                == Action::ResumeDeliver(s) && *final(self) == *old(self)),
            ev is Lifecycle ==> (r matches Ok(out) ==> out.action is ResumeSyscall
                && *final(self) == *old(self)),
            ev is Unknown ==> (r matches Ok(out) ==> out.action is KeepWaiting
                && *final(self) == *old(self)),
            ev matches Event::Exited(c) ==> (r matches Ok(out) ==> out.action is Finished
                && final(self).phase is Terminated
                && final(self).exit == Some(ExitCause::Exited(c))
                && final(self).entered@ == old(self).entered@
                && final(self).counts == old(self).counts),
            ev matches Event::Signaled(s) ==> (r matches Ok(out) ==> out.action is Finished
                && final(self).phase is Terminated
                && final(self).exit == Some(ExitCause::Signaled(s))
                && final(self).entered@ == old(self).entered@
                && final(self).counts == old(self).counts),
    {
        match ev {
            Event::SyscallStop => {
                match read_regs(pid) {
                    Ok(regs) => {
                        let rec = self.on_syscall_regs(pid, &regs);
                        Ok(StepOutcome { action: Action::ResumeSyscall, record: Some(rec) })
                    },
                    Err(e) => Err(e),
                }
            },
            Event::SignalStop(s) => {
                Ok(StepOutcome { action: Action::ResumeDeliver(s), record: None })
            },
            Event::Lifecycle => {
                Ok(StepOutcome { action: Action::ResumeSyscall, record: None })
            },
            Event::Exited(c) => {
                self.phase = Phase::Terminated;
                self.exit = Some(ExitCause::Exited(c));
                Ok(StepOutcome { action: Action::Finished, record: None })
            },
            Event::Signaled(s) => {
                self.phase = Phase::Terminated;
                self.exit = Some(ExitCause::Signaled(s));
                Ok(StepOutcome { action: Action::Finished, record: None })
            },
            Event::Unknown => {
                Ok(StepOutcome { action: Action::KeepWaiting, record: None })
            },
        }
    }

    /// Reads the recorded count for one syscall number.
    pub fn count_of(&self, n: i64) -> (c: u64)
        ensures
            c == self.counts.count_of(n),
    {
        self.counts.get_count(n)
    }
}

/// Pushing an entry event bumps exactly its number's occurrence total.
proof fn lemma_occ_push(h: Seq<i64>, n: i64)
    ensures
        occ(h.push(n), n) == occ(h, n) + 1,
        forall|m: i64| m != n ==> occ(h.push(n), m) == occ(h, m),
{
    broadcast use group_to_multiset_ensures;
    broadcast use vstd::multiset::group_multiset_axioms;

    assert(h.push(n).to_multiset() =~= h.to_multiset().insert(n));
}

/// For every traced run, the count recorded for a syscall number equals
/// the number of entry events recorded for it, exactly, whenever that
/// total is representable in the counter.
pub proof fn lemma_counts_match_entries(t: Tracer, n: i64)
    requires
        t.wf(),
        occ(t.entered@, n) <= u64::MAX,
    ensures
        t.counts.count_of(n) == occ(t.entered@, n),
{
}

/// Entry and exit classifications strictly alternate: of two
/// consecutive syscall-stops of one tracee, the second is an entry
/// exactly when the first was not.
pub proof fn lemma_entry_exit_alternate(first_flag: bool)
    ensures
        stop_is_entry(flag_after_stop(first_flag)) == !stop_is_entry(first_flag),
{
}

} // verus!
