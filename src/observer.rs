use crate::arch::RegisterSnapshot;
use vstd::prelude::*;

verus! {

/// Linux signal number of `SIGTRAP`, raised by a breakpoint instruction.
pub const SIGTRAP: i32 = 5;

/// Where the observer stands in its attachment to the target.
#[derive(Clone, Copy, Debug, PartialEq, Eq, Structural)]
pub enum Phase {
    /// The target was started under tracing and has not been seen stopped.
    Spawned,
    /// The target stopped after loading its program; options are being set.
    ExecStopped,
    /// Options are set; the target is about to be resumed.
    Armed,
    /// The target runs towards its breakpoint.
    Running,
    /// The target stopped at its breakpoint; its registers are being read.
    BreakStopped,
    /// The target stays stopped while its memory is read.
    Benchmarking,
    /// The target was resumed for the last time.
    Detached,
}

/// What the surrounding driver reports back after carrying out an action.
#[derive(Clone, Copy, Debug)]
pub enum Event {
    /// A wait for the target returned a stop of process `pid` by `signal`.
    Stopped { pid: i32, signal: i32 },
    /// A wait for the target returned anything but a stop.
    WaitOther,
    /// The attachment options (kill the target when the observer exits) are set.
    OptionsSet,
    /// The target was resumed.
    Resumed,
    /// The target's general-purpose registers were read.
    Registers(RegisterSnapshot),
    /// All read sizes were measured.
    BenchmarkFinished,
}

/// What the surrounding driver is to do next.
#[derive(Clone, Copy, Debug, PartialEq, Eq, Structural)]
pub enum Action {
    /// Block until the target stops, then report the stop.
    WaitForStop,
    /// Set the option that kills the target when the observer goes away.
    SetExitKill,
    /// Resume the target.
    Resume,
    /// Read the target's general-purpose register set.
    ReadRegisters,
    /// Open the target's memory file and measure reads at `remote_ptr`.
    Benchmark { remote_ptr: u64 },
    /// Resume the target and exit; the target dies with the observer.
    ResumeAndExit,
}

/// A departure from the expected handshake.
#[derive(Clone, Copy, Debug, PartialEq, Eq, Structural)]
pub enum ProtocolError {
    /// A wait returned something other than a stop of the target.
    NotStopped,
    /// The target stopped, but not at its breakpoint (or another process stopped).
    UnexpectedStop { pid: i32, signal: i32 },
    /// The event does not belong to the current phase.
    UnexpectedEvent,
}

/// The observer's side of the attachment to one target process.
#[derive(Clone, Copy, Debug, PartialEq, Eq, Structural)]
pub struct Observer {
    pub pid: i32,
    pub phase: Phase,
    /// The address that the target published in its return-value register;
    /// meaningful from the breakpoint stop on.
    pub remote_ptr: u64,
}

/// One read of `len` bytes at `addr` in process `pid`.
#[derive(Clone, Copy, Debug, PartialEq, Eq, Structural)]
pub struct RemoteRead {
    pub pid: i32,
    pub addr: u64,
    pub len: usize,
}

/// The read returned fewer bytes than were asked for.
#[derive(Clone, Copy, Debug, PartialEq, Eq, Structural)]
pub struct ShortRead {
    pub expected: usize,
    pub got: usize,
}

/// The transition of the handshake on event `e`.
pub open spec fn next(o: Observer, e: Event) -> Result<(Observer, Action), ProtocolError> {
    match (o.phase, e) {
        (Phase::Spawned, Event::Stopped { pid, signal }) => if pid == o.pid {
            Ok((Observer { phase: Phase::ExecStopped, ..o }, Action::SetExitKill))
        } else {
            Err(ProtocolError::UnexpectedStop { pid, signal })
        },
        (Phase::Spawned, Event::WaitOther) => Err(ProtocolError::NotStopped),
        (Phase::ExecStopped, Event::OptionsSet) => Ok(
            (Observer { phase: Phase::Armed, ..o }, Action::Resume),
        ),
        (Phase::Armed, Event::Resumed) => Ok(
            (Observer { phase: Phase::Running, ..o }, Action::WaitForStop),
        ),
        (Phase::Running, Event::Stopped { pid, signal }) => if pid == o.pid && signal == SIGTRAP {
            Ok((Observer { phase: Phase::BreakStopped, ..o }, Action::ReadRegisters))
        } else {
            Err(ProtocolError::UnexpectedStop { pid, signal })
        },
        (Phase::Running, Event::WaitOther) => Err(ProtocolError::NotStopped),
        (Phase::BreakStopped, Event::Registers(regs)) => {
            let p = regs.spec_remote_pointer();
            Ok(
                (
                    Observer { phase: Phase::Benchmarking, remote_ptr: p, ..o },
                    Action::Benchmark { remote_ptr: p },
                ),
            )
        },
        (Phase::Benchmarking, Event::BenchmarkFinished) => Ok(
            (Observer { phase: Phase::Detached, ..o }, Action::ResumeAndExit),
        ),
        _ => Err(ProtocolError::UnexpectedEvent),
    }
}

/// The observer after the events `evs`, or `None` once one of them was refused.
pub open spec fn run(o: Observer, evs: Seq<Event>) -> Option<Observer>
    decreases evs.len(),
{
    if evs.len() == 0 {
        Some(o)
    } else {
        match run(o, evs.drop_last()) {
            Some(p) => match next(p, evs.last()) {
                Ok((q, _)) => Some(q),
                Err(_) => None,
            },
            None => None,
        }
    }
}

impl Observer {
    /// The observer of a target just spawned as process `pid`, and its first action.
    pub fn start(pid: i32) -> (r: (Observer, Action))
        ensures
            r.0 == (Observer { pid, phase: Phase::Spawned, remote_ptr: 0 }),
            r.1 == Action::WaitForStop,
    {
        (Observer { pid, phase: Phase::Spawned, remote_ptr: 0 }, Action::WaitForStop)
    }

    /// Advances the handshake on event `e`: the next observer and its action,
    /// or the departure from the handshake that `e` is.
    pub fn step(self, e: Event) -> (r: Result<(Observer, Action), ProtocolError>)
        ensures
            r == next(self, e),
    {
        match (self.phase, e) {
            (Phase::Spawned, Event::Stopped { pid, signal }) => if pid == self.pid {
                Ok((Observer { phase: Phase::ExecStopped, ..self }, Action::SetExitKill))
            } else {
                Err(ProtocolError::UnexpectedStop { pid, signal })
            },
            (Phase::Spawned, Event::WaitOther) => Err(ProtocolError::NotStopped),
            (Phase::ExecStopped, Event::OptionsSet) => Ok(
                (Observer { phase: Phase::Armed, ..self }, Action::Resume),
            ),
            (Phase::Armed, Event::Resumed) => Ok(
                (Observer { phase: Phase::Running, ..self }, Action::WaitForStop),
            ),
            (Phase::Running, Event::Stopped { pid, signal }) => if pid == self.pid && signal
                == SIGTRAP {
                Ok((Observer { phase: Phase::BreakStopped, ..self }, Action::ReadRegisters))
            } else {
                Err(ProtocolError::UnexpectedStop { pid, signal })
            },
            (Phase::Running, Event::WaitOther) => Err(ProtocolError::NotStopped),
            (Phase::BreakStopped, Event::Registers(regs)) => {
                let p = regs.remote_pointer();
                Ok(
                    (
                        Observer { phase: Phase::Benchmarking, remote_ptr: p, ..self },
                        Action::Benchmark { remote_ptr: p },
                    ),
                )
            },
            (Phase::Benchmarking, Event::BenchmarkFinished) => Ok(
                (Observer { phase: Phase::Detached, ..self }, Action::ResumeAndExit),
            ),
            _ => Err(ProtocolError::UnexpectedEvent),
        }
    }

    /// Whether the target is held stopped for memory reads.
    pub fn is_benchmarking(&self) -> (r: bool)
        ensures
            r == (self.phase == Phase::Benchmarking),
    {
        match self.phase {
            Phase::Benchmarking => true,
            _ => false,
        }
    }

    /// The read of `len` bytes at the published address. Only a target held
    /// stopped at its breakpoint may be read.
    pub fn remote_read(&self, len: usize) -> (r: RemoteRead)
        requires
            self.phase == Phase::Benchmarking,
        ensures
            r == (RemoteRead { pid: self.pid, addr: self.remote_ptr, len }),
    {
        RemoteRead { pid: self.pid, addr: self.remote_ptr, len }
    }
}

impl RemoteRead {
    /// Accepts a read that transferred `got` bytes: all of them, or it fell short.
    pub fn check_transferred(&self, got: usize) -> (r: Result<(), ShortRead>)
        ensures
            r is Ok <==> got == self.len,
            r matches Err(s) ==> s == (ShortRead { expected: self.len, got }),
    {
        if got == self.len {
            Ok(())
        } else {
            Err(ShortRead { expected: self.len, got })
        }
    }
}

/// Whatever events lead a freshly spawned target's observer into the phase
/// in which memory is read, one of them was a `SIGTRAP` stop of that target
/// reported while it was running, and the address it reads at came from the
/// registers read after that stop.
pub proof fn lemma_reads_follow_break_stop(pid: i32, evs: Seq<Event>)
    ensures
        run(Observer { pid, phase: Phase::Spawned, remote_ptr: 0 }, evs) matches Some(q) ==> (
        q.pid == pid && (q.phase == Phase::BreakStopped || q.phase == Phase::Benchmarking
            || q.phase == Phase::Detached) ==> exists|i: int|
            0 <= i < evs.len() && #[trigger] evs[i] == (Event::Stopped { pid, signal: SIGTRAP })),
        run(Observer { pid, phase: Phase::Spawned, remote_ptr: 0 }, evs) matches Some(q) ==> (
        q.phase == Phase::Benchmarking ==> exists|i: int|
            0 <= i < evs.len() && (#[trigger] evs[i] matches Event::Registers(regs)
                && regs.spec_remote_pointer() == q.remote_ptr)),
    decreases evs.len(),
{
    let o = Observer { pid, phase: Phase::Spawned, remote_ptr: 0 };
    if evs.len() > 0 {
        let pre = evs.drop_last();
        lemma_reads_follow_break_stop(pid, pre);
        if let Some(p) = run(o, pre) {
            assert(p.pid == pid) by { lemma_pid_kept(pid, pre); }
            if let Ok((q, _)) = next(p, evs.last()) {
                if p.phase == Phase::BreakStopped || p.phase == Phase::Benchmarking || p.phase
                    == Phase::Detached {
                    let i = choose|i: int|
                        0 <= i < pre.len() && #[trigger] pre[i] == (Event::Stopped {
                            pid,
                            signal: SIGTRAP,
                        });
                    assert(evs[i] == pre[i]);
                } else if q.phase == Phase::BreakStopped {
                    assert(evs[evs.len() - 1] == evs.last());
                }
                if q.phase == Phase::Benchmarking {
                    assert(evs[evs.len() - 1] == evs.last());
                }
            }
        }
    }
}

/// The events never change which process is observed.
proof fn lemma_pid_kept(pid: i32, evs: Seq<Event>)
    ensures
        run(Observer { pid, phase: Phase::Spawned, remote_ptr: 0 }, evs) matches Some(q) ==> q.pid
            == pid,
    decreases evs.len(),
{
    if evs.len() > 0 {
        lemma_pid_kept(pid, evs.drop_last());
    }
}

} // verus!
