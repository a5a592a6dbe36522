use vstd::prelude::*;

use crate::options::BenchOptions;

verus! {

/// What a blocking wait on the traced child reported.
#[derive(Debug, Clone, Copy, PartialEq, Eq, Structural)]
pub enum StopReport {
    /// The child exited with this code.
    Exited(i32),
    /// The child was terminated by this signal.
    Signaled(i32),
    /// The child stopped at a syscall boundary.
    SyscallStop,
    /// The child stopped for the delivery of this signal, not at a syscall.
    SignalStop(i32),
}

/// Where a trace session stands.
#[derive(Debug, Clone, Copy, PartialEq, Eq, Structural)]
pub enum TracePhase {
    /// Tracing was requested; the child has not yet reached its exec stop.
    Attached,
    /// The child runs until it enters its next syscall.
    EntryPending,
    /// The child stopped on entry to a syscall whose number is to be judged.
    Deciding,
    /// The child runs the allowed syscall until its exit stop.
    ExitPending,
    /// The child exited with this code.
    Exited(i32),
    /// The child was terminated by this signal.
    Signaled(i32),
    /// The child was killed for entering this disallowed syscall.
    Killed(i64),
}

/// What the tracer must do next.
#[derive(Debug, Clone, Copy, PartialEq, Eq, Structural)]
pub enum TraceAction {
    /// Resume the child until its next syscall boundary, then wait for it.
    Resume,
    /// Read the number of the syscall the child is entering.
    ReadSyscallNumber,
    /// Send the child a kill signal and wait for its exit.
    KillChild,
    /// The session is over.
    Finish,
}

/// The tracer's view of one traced child.
pub struct TraceSession {
    phase: TracePhase,
    /// Syscall-boundary stops seen so far.
    stops: Ghost<nat>,
    /// Syscall numbers judged so far.
    decisions: Ghost<nat>,
}

impl TraceSession {
    /// Where the session stands.
    pub closed spec fn phase_of(&self) -> TracePhase {
        self.phase
    }

    /// Where the session stands.
    pub fn phase(&self) -> (r: TracePhase)
        ensures
            r == self.phase_of(),
    {
        self.phase
    }

    /// Syscall-boundary stops seen so far.
    pub closed spec fn stop_count(&self) -> nat {
        self.stops@
    }

    /// Syscall numbers judged so far.
    pub closed spec fn decision_count(&self) -> nat {
        self.decisions@
    }

    /// Each syscall gives one entry and one exit stop, and only the entry stop
    /// is judged.
    pub open spec fn wf(&self) -> bool {
        let s = self.stop_count();
        let d = self.decision_count();
        match self.phase_of() {
            TracePhase::Attached => s == 0 && d == 0,
            TracePhase::EntryPending => s == 2 * d,
            TracePhase::Deciding => s == 2 * d + 1,
            TracePhase::ExitPending => s + 1 == 2 * d,
            TracePhase::Killed(_) => s + 1 == 2 * d,
            TracePhase::Exited(_) | TracePhase::Signaled(_) => s == 2 * d || s + 1 == 2 * d,
        }
    }

    pub open spec fn is_running(&self) -> bool {
        self.phase_of() is EntryPending || self.phase_of() is ExitPending
    }

    pub open spec fn is_finished(&self) -> bool {
        self.phase_of() is Exited || self.phase_of() is Signaled || self.phase_of() is Killed
    }

    /// A session for a child that has requested tracing.
    pub fn new() -> (r: Self)
        ensures
            r.wf(),
            r.phase_of() == TracePhase::Attached,
            r.stop_count() == 0,
            r.decision_count() == 0,
    {
        TraceSession { phase: TracePhase::Attached, stops: Ghost(0), decisions: Ghost(0) }
    }

    /// The child stopped at its exec: syscall tracing starts from here.
    pub fn on_exec_stop(&mut self)
        requires
            old(self).wf(),
            old(self).phase_of() == TracePhase::Attached,
        ensures
            final(self).wf(),
            final(self).phase_of() == TracePhase::EntryPending,
            final(self).stop_count() == 0,
            final(self).decision_count() == 0,
    {
        self.phase = TracePhase::EntryPending;
    }

    /// Takes what the wait after a resume reported. An exit or a terminating
    /// signal ends the session. A syscall stop is an entry stop, whose syscall
    /// number is to be read, when the child was running towards an entry, and
    /// an exit stop to resume from otherwise. A signal-delivery stop is no
    /// syscall boundary: the child is resumed and nothing else changes.
    pub fn on_stop(&mut self, report: StopReport) -> (r: TraceAction)
        requires
            old(self).wf(),
            old(self).is_running(),
        ensures
            final(self).wf(),
            final(self).decision_count() == old(self).decision_count(),
            match report {
                StopReport::Exited(code) => r == TraceAction::Finish
                    && final(self).phase_of() == TracePhase::Exited(code)
                    && final(self).stop_count() == old(self).stop_count(),
                StopReport::Signaled(sig) => r == TraceAction::Finish
                    && final(self).phase_of() == TracePhase::Signaled(sig)
                    && final(self).stop_count() == old(self).stop_count(),
                StopReport::SignalStop(_) => r == TraceAction::Resume
                    && final(self).phase_of() == old(self).phase_of()
                    && final(self).stop_count() == old(self).stop_count(),
                StopReport::SyscallStop => {
                    &&& final(self).stop_count() == old(self).stop_count() + 1
                    &&& old(self).phase_of() == TracePhase::EntryPending ==> r
                        == TraceAction::ReadSyscallNumber && final(self).phase_of() == TracePhase::Deciding
                    &&& old(self).phase_of() == TracePhase::ExitPending ==> r == TraceAction::Resume
                        && final(self).phase_of() == TracePhase::EntryPending
                },
            },
    {
        match report {
            StopReport::Exited(code) => {
                self.phase = TracePhase::Exited(code);
                TraceAction::Finish
            },
            StopReport::Signaled(sig) => {
                self.phase = TracePhase::Signaled(sig);
                TraceAction::Finish
            },
            StopReport::SignalStop(_) => TraceAction::Resume,
            StopReport::SyscallStop => {
                self.stops = Ghost(self.stops@ + 1);
                if self.phase == TracePhase::EntryPending {
                    self.phase = TracePhase::Deciding;
                    TraceAction::ReadSyscallNumber
                } else {
                    self.phase = TracePhase::EntryPending;
                    TraceAction::Resume
                }
            },
        }
    }

    /// Judges the number of the syscall that the child is entering: a
    /// disallowed one gets the child killed, any other is let through.
    pub fn on_syscall_number(&mut self, options: &BenchOptions, id: i64) -> (r: TraceAction)
        requires
            old(self).wf(),
            old(self).phase_of() == TracePhase::Deciding,
        ensures
            final(self).wf(),
            final(self).stop_count() == old(self).stop_count(),
            final(self).decision_count() == old(self).decision_count() + 1,
            options.disallowed_spec().contains(id) ==> r == TraceAction::KillChild
                && final(self).phase_of() == TracePhase::Killed(id),
            !options.disallowed_spec().contains(id) ==> r == TraceAction::Resume
                && final(self).phase_of() == TracePhase::ExitPending,
    {
        self.decisions = Ghost(self.decisions@ + 1);
        if options.is_disallowed(id) {
            self.phase = TracePhase::Killed(id);
            TraceAction::KillChild
        } else {
            self.phase = TracePhase::ExitPending;
            TraceAction::Resume
        }
    }
}

/// Between syscalls the tracer has seen exactly two stops, entry and exit, for
/// each syscall, and has judged each of them exactly once: after `n` syscalls,
/// `2 * n` stops and `n` decisions.
pub proof fn lemma_two_stops_per_decision(s: &TraceSession)
    requires
        s.wf(),
        s.phase_of() == TracePhase::EntryPending,
    ensures
        s.stop_count() == 2 * s.decision_count(),
{
}

/// In every state of a session each entry stop seen has been judged once, or
/// is being judged: the entry stops are half the stops, rounded up.
pub proof fn lemma_decisions_count_entry_stops(s: &TraceSession)
    requires
        s.wf(),
    ensures
        s.decision_count() + (if s.phase_of() is Deciding {
            1nat
        } else {
            0nat
        }) == (s.stop_count() + 1) / 2,
{
}

} // verus!
