//! Decisions of the supervisor's run-loop that surround its services: the
//! graceful-then-forceful termination of a process, the process lock, the
//! reading of pid files, restarting stalled elections, and when the loop
//! departs and exits.
use vstd::prelude::*;
use crate::status::{ElectionStatus, Topology};
use crate::text::chars_of;

verus! {

/// How long a process is given to end after the graceful signal, in
/// milliseconds, before it is killed.
pub const GRACE_PERIOD_MS: u64 = 8000;

/// How a process came to an end.
#[derive(Clone, Copy, Debug, PartialEq, Eq, Structural)]
pub enum ShutdownMethod {
    AlreadyExited,
    GracefulTermination,
    Killed,
}

/// The next step of a termination in progress.
#[derive(Clone, Copy, Debug, PartialEq, Eq, Structural)]
pub enum KillStep {
    /// Poll the process again.
    Wait,
    /// Send the forceful kill.
    SendKill,
    /// The termination is over.
    Finished(ShutdownMethod),
}

/// Where the signals go: to the whole process group when the process leads
/// it (as the negated id), otherwise to the process alone.
pub fn signal_target(pid: i32, pgid: i32) -> (r: i32)
    requires
        pid > i32::MIN,
    ensures
        r == (if pid == pgid {
            -pid
        } else {
            pid as int
        }),
{
    if pid == pgid {
        -pid
    } else {
        pid
    }
}

/// The outcome once the graceful signal was sent: a process that could not
/// be signalled had already exited.
pub fn after_term_signal(signal_sent: bool) -> (r: Option<ShutdownMethod>)
    ensures
        r == (if signal_sent {
            None
        } else {
            Some(ShutdownMethod::AlreadyExited)
        }),
{
    if signal_sent {
        None
    } else {
        Some(ShutdownMethod::AlreadyExited)
    }
}

/// What a termination does next, `elapsed_ms` after the graceful signal.
pub open spec fn kill_step_spec(alive: bool, elapsed_ms: u64) -> KillStep {
    if !alive {
        KillStep::Finished(ShutdownMethod::GracefulTermination)
    } else if elapsed_ms < GRACE_PERIOD_MS {
        KillStep::Wait
    } else {
        KillStep::SendKill
    }
}

/// Decides the next step of a termination from whether the process is
/// alive and how long ago the graceful signal went out.
pub fn kill_step(alive: bool, elapsed_ms: u64) -> (r: KillStep)
    ensures
        r == kill_step_spec(alive, elapsed_ms),
{
    if !alive {
        KillStep::Finished(ShutdownMethod::GracefulTermination)
    } else if elapsed_ms < GRACE_PERIOD_MS {
        KillStep::Wait
    } else {
        KillStep::SendKill
    }
}

/// The outcome once the kill was sent: a process that could not be
/// signalled any more had ended by itself.
pub fn after_kill_signal(signal_sent: bool) -> (r: ShutdownMethod)
    ensures
        r == (if signal_sent {
            ShutdownMethod::Killed
        } else {
            ShutdownMethod::GracefulTermination
        }),
{
    if signal_sent {
        ShutdownMethod::Killed
    } else {
        ShutdownMethod::GracefulTermination
    }
}

/// A termination never waits past the grace period: a process still alive
/// then is killed, and a process that is gone ends it.
pub proof fn lemma_termination_bounded(alive: bool, elapsed_ms: u64)
    requires
        elapsed_ms >= GRACE_PERIOD_MS,
    ensures
        kill_step_spec(alive, elapsed_ms) != KillStep::Wait,
        alive ==> kill_step_spec(alive, elapsed_ms) == KillStep::SendKill,
{
}

/// Why a pid file could not be read.
#[derive(Clone, Copy, Debug, PartialEq, Eq, Structural)]
pub enum PidError {
    PidFileCorrupt,
}

/// Whether a character is a decimal digit.
pub open spec fn is_digit(c: char) -> bool {
    '0' <= c && c <= '9'
}

/// The number that a text of decimal digits writes.
pub open spec fn decimal_value(s: Seq<char>) -> int
    decreases s.len(),
{
    if s.len() == 0 {
        0
    } else {
        decimal_value(s.drop_last()) * 10 + (s.last() as u32 - '0' as u32)
    }
}

/// The pid a line of a pid file gives: one or more decimal digits and
/// nothing else, of a value that fits.
pub open spec fn pid_of(line: Seq<char>) -> Option<u32> {
    if line.len() > 0 && (forall|i: int| 0 <= i < line.len() ==> is_digit(#[trigger] line[i]))
        && decimal_value(line) <= u32::MAX {
        Some(decimal_value(line) as u32)
    } else {
        None
    }
}

proof fn lemma_decimal_value_grows(s: Seq<char>, i: int)
    requires
        0 <= i <= s.len(),
        forall|j: int| 0 <= j < s.len() ==> is_digit(#[trigger] s[j]),
    ensures
        decimal_value(s.take(i)) <= decimal_value(s),
        decimal_value(s.take(i)) >= 0,
    decreases s.len(),
{
    if s.len() > 0 {
        if i == s.len() {
            assert(s.take(i) =~= s);
            lemma_decimal_value_grows(s.drop_last(), 0);
        } else {
            assert(s.take(i) =~= s.drop_last().take(i));
            lemma_decimal_value_grows(s.drop_last(), i);
        }
    } else {
        assert(s.take(i) =~= s);
    }
}

/// Reads the pid from the first line of a pid file.
pub fn parse_pid(line: &str) -> (r: Result<u32, PidError>)
    ensures
        r == (match pid_of(line@) {
            Some(p) => Ok::<u32, PidError>(p),
            None => Err(PidError::PidFileCorrupt),
        }),
{
    let cs = chars_of(line);
    if cs.len() == 0 {
        return Err(PidError::PidFileCorrupt);
    }
    let mut value: u64 = 0;
    let mut i: usize = 0;
    while i < cs.len()
        invariant
            cs@ == line@,
            i <= cs@.len(),
            forall|j: int| 0 <= j < i ==> is_digit(#[trigger] cs@[j]),
            value == decimal_value(cs@.take(i as int)),
            value <= u32::MAX,
        decreases cs@.len() - i,
    {
        let c = cs[i];
        if !('0' <= c && c <= '9') {
            return Err(PidError::PidFileCorrupt);
        }
        let d = (c as u32 - '0' as u32) as u64;
        proof {
            assert(cs@.take(i as int + 1).drop_last() =~= cs@.take(i as int));
        }
        let next = value * 10 + d;
        if next > u32::MAX as u64 {
            proof {
                if forall|j: int| 0 <= j < cs@.len() ==> is_digit(#[trigger] cs@[j]) {
                    lemma_decimal_value_grows(cs@, i as int + 1);
                }
            }
            return Err(PidError::PidFileCorrupt);
        }
        value = next;
        i += 1;
    }
    assert(cs@.take(i as int) =~= cs@);
    Ok(value as u32)
}

/// The suitability a line of the suitability hook's output gives: one or
/// more decimal digits and nothing else, of a value that fits.
pub open spec fn suitability_of(line: Seq<char>) -> Option<u64> {
    if line.len() > 0 && (forall|i: int| 0 <= i < line.len() ==> is_digit(#[trigger] line[i]))
        && decimal_value(line) <= u64::MAX {
        Some(decimal_value(line) as u64)
    } else {
        None
    }
}

/// Reads the suitability from the first line the suitability hook printed.
pub fn parse_suitability(line: &str) -> (r: Option<u64>)
    ensures
        r == suitability_of(line@),
{
    let cs = chars_of(line);
    if cs.len() == 0 {
        return None;
    }
    let mut value: u64 = 0;
    let mut i: usize = 0;
    while i < cs.len()
        invariant
            cs@ == line@,
            i <= cs@.len(),
            forall|j: int| 0 <= j < i ==> is_digit(#[trigger] cs@[j]),
            value == decimal_value(cs@.take(i as int)),
        decreases cs@.len() - i,
    {
        let c = cs[i];
        if !('0' <= c && c <= '9') {
            return None;
        }
        let d = (c as u32 - '0' as u32) as u64;
        proof {
            assert(cs@.take(i as int + 1).drop_last() =~= cs@.take(i as int));
        }
        if value > (u64::MAX - d) / 10 {
            proof {
                assert(value * 10 + d > u64::MAX) by (nonlinear_arith)
                    requires
                        value > (u64::MAX - d) / 10,
                        d <= 9,
                ;
                if forall|j: int| 0 <= j < cs@.len() ==> is_digit(#[trigger] cs@[j]) {
                    lemma_decimal_value_grows(cs@, i as int + 1);
                }
            }
            return None;
        }
        proof {
            assert(value * 10 + d <= u64::MAX) by (nonlinear_arith)
                requires
                    value <= (u64::MAX - d) / 10,
                    d <= 9,
            ;
        }
        value = value * 10 + d;
        i += 1;
    }
    assert(cs@.take(i as int) =~= cs@);
    Some(value)
}

/// What boot does about the process lock.
#[derive(Clone, Copy, Debug, PartialEq, Eq, Structural)]
pub enum LockDecision {
    /// No lock file: create it, exclusively, holding our pid.
    Acquire,
    /// A live supervisor holds the lock.
    Locked(u32),
    /// The lock file is stale or corrupt: remove it and try again.
    RemoveStale,
}

/// Decides about the lock from the lock file's pid, as read (`None` when
/// there is no lock file) and whether that pid is alive.
pub fn lock_decision(read: Option<Result<u32, PidError>>, holder_alive: bool) -> (r: LockDecision)
    ensures
        r == (match read {
            None => LockDecision::Acquire,
            Some(Ok(pid)) => if holder_alive {
                LockDecision::Locked(pid)
            } else {
                LockDecision::RemoveStale
            },
            Some(Err(_)) => LockDecision::RemoveStale,
        }),
{
    match read {
        None => LockDecision::Acquire,
        Some(Ok(pid)) => if holder_alive {
            LockDecision::Locked(pid)
        } else {
            LockDecision::RemoveStale
        },
        Some(Err(_)) => LockDecision::RemoveStale,
    }
}

/// How the run-loop ends.
#[derive(Clone, Copy, Debug, PartialEq, Eq, Structural)]
pub enum LoopExit {
    /// Stopped on request, or to make way for a new supervisor release.
    Normal,
    /// This member was marked departed by the ring.
    Departed,
}

impl LoopExit {
    /// The process exit code: zero for a normal end, one otherwise.
    pub fn exit_code(&self) -> (r: i32)
        ensures
            r == (match *self {
                LoopExit::Normal => 0i32,
                LoopExit::Departed => 1i32,
            }),
    {
        match *self {
            LoopExit::Normal => 0,
            LoopExit::Departed => 1,
        }
    }
}

/// What the run-loop does at the start of a tick.
#[derive(Clone, Copy, Debug, PartialEq, Eq, Structural)]
pub enum LoopStep {
    /// Leave the ring gracefully, then exit.
    DepartAndExit(LoopExit),
    /// Carry on with the tick.
    Continue,
}

/// Decides, in this order: a stop request departs and exits normally; a
/// departure by the ring exits as departed; a newer supervisor release
/// departs and exits normally so that the launcher starts the new one.
pub fn loop_step(is_stopping: bool, departed: bool, update_available: bool) -> (r: LoopStep)
    ensures
        r == (if is_stopping {
            LoopStep::DepartAndExit(LoopExit::Normal)
        } else if departed {
            LoopStep::DepartAndExit(LoopExit::Departed)
        } else if update_available {
            LoopStep::DepartAndExit(LoopExit::Normal)
        } else {
            LoopStep::Continue
        }),
{
    if is_stopping {
        LoopStep::DepartAndExit(LoopExit::Normal)
    } else if departed {
        LoopStep::DepartAndExit(LoopExit::Departed)
    } else if update_available {
        LoopStep::DepartAndExit(LoopExit::Normal)
    } else {
        LoopStep::Continue
    }
}

/// Whether a leader-topology service starts a new election: its group has
/// no finished election, and no election in progress that started within
/// the timeout.
pub fn should_restart_election(
    topology: Topology,
    status: ElectionStatus,
    elapsed_ms: u64,
    timeout_ms: u64,
) -> (r: bool)
    ensures
        r == (topology == Topology::Leader && status != ElectionStatus::ElectionFinished && !(
        status == ElectionStatus::ElectionInProgress && elapsed_ms < timeout_ms)),
{
    topology == Topology::Leader && status != ElectionStatus::ElectionFinished && !(status
        == ElectionStatus::ElectionInProgress && elapsed_ms < timeout_ms)
}

} // verus!
