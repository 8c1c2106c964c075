use habitat_sup::launcher::{decode_frame, encode_frame, FrameError, LauncherCli, LauncherError};
use habitat_sup::lifecycle::{
    after_kill_signal, after_term_signal, kill_step, lock_decision, loop_step, parse_pid, parse_suitability,
    should_restart_election, signal_target, KillStep, LockDecision, LoopExit, LoopStep, PidError,
    ShutdownMethod,
};
use habitat_sup::status::{ElectionStatus, Topology};

#[test]
fn graceful_termination_kills_after_grace_period() {
    assert_eq!(after_term_signal(true), None);
    assert_eq!(kill_step(true, 0), KillStep::Wait);
    assert_eq!(kill_step(true, 7999), KillStep::Wait);
    assert_eq!(kill_step(true, 8000), KillStep::SendKill);
    assert_eq!(after_kill_signal(true), ShutdownMethod::Killed);
}

#[test]
fn termination_outcomes() {
    assert_eq!(after_term_signal(false), Some(ShutdownMethod::AlreadyExited));
    assert_eq!(kill_step(false, 100), KillStep::Finished(ShutdownMethod::GracefulTermination));
    assert_eq!(after_kill_signal(false), ShutdownMethod::GracefulTermination);
    assert_eq!(signal_target(42, 42), -42);
    assert_eq!(signal_target(42, 7), 42);
}

#[test]
fn pid_parsing() {
    assert_eq!(parse_pid("4242"), Ok(4242));
    assert_eq!(parse_pid("4294967295"), Ok(4294967295));
    assert_eq!(parse_pid("4294967296"), Err(PidError::PidFileCorrupt));
    assert_eq!(parse_pid(""), Err(PidError::PidFileCorrupt));
    assert_eq!(parse_pid("12a"), Err(PidError::PidFileCorrupt));
}

#[test]
fn process_lock_decisions() {
    assert_eq!(lock_decision(None, false), LockDecision::Acquire);
    assert_eq!(lock_decision(Some(parse_pid("77")), true), LockDecision::Locked(77));
    assert_eq!(lock_decision(Some(parse_pid("77")), false), LockDecision::RemoveStale);
    assert_eq!(lock_decision(Some(parse_pid("junk")), true), LockDecision::RemoveStale);
}

#[test]
fn self_update_departs_and_exits_zero() {
    match loop_step(false, false, true) {
        LoopStep::DepartAndExit(exit) => assert_eq!(exit.exit_code(), 0),
        LoopStep::Continue => panic!("an update should end the loop"),
    }
    assert_eq!(loop_step(false, false, false), LoopStep::Continue);
    assert_eq!(loop_step(false, true, true), LoopStep::DepartAndExit(LoopExit::Departed));
    assert_eq!(LoopExit::Departed.exit_code(), 1);
    assert_eq!(loop_step(true, true, true), LoopStep::DepartAndExit(LoopExit::Normal));
}

#[test]
fn election_restart_policy() {
    assert!(should_restart_election(Topology::Leader, ElectionStatus::NoElection, 0, 10));
    assert!(!should_restart_election(Topology::Leader, ElectionStatus::ElectionInProgress, 5, 10));
    assert!(should_restart_election(Topology::Leader, ElectionStatus::ElectionInProgress, 10, 10));
    assert!(!should_restart_election(Topology::Leader, ElectionStatus::ElectionFinished, 99, 10));
    assert!(!should_restart_election(Topology::Standalone, ElectionStatus::NoElection, 99, 10));
}

#[test]
fn frame_round_trip() {
    let id = b"SpawnOk".to_vec();
    let payload = vec![1u8, 2, 3];
    let frame = encode_frame(&id, &payload);
    assert_eq!(&frame[..4], &[7u8, 0, 0, 0]);
    let (i, p) = decode_frame(&frame).unwrap();
    assert_eq!(i, id);
    assert_eq!(p, payload);
}

#[test]
fn frame_errors() {
    assert_eq!(decode_frame(&vec![1, 0]), Err(FrameError::Truncated));
    assert_eq!(decode_frame(&vec![9, 0, 0, 0, 65]), Err(FrameError::BadLength));
    assert_eq!(decode_frame(&vec![1, 0, 0, 0, 200]), Err(FrameError::NotAscii));
}

#[test]
fn launcher_replies() {
    let mut cli = LauncherCli::new();
    assert_eq!(cli.ready(), Ok(()));
    assert_eq!(cli.read_reply("SpawnOk", "SpawnOk"), Ok(()));
    assert_eq!(cli.read_reply("NetErr", "SpawnOk"), Err(LauncherError::Protocol));
    assert_eq!(cli.read_reply("TerminateOk", "SpawnOk"), Err(LauncherError::Deserialize));
    assert_eq!(cli.read_reply("Shutdown", "SpawnOk"), Err(LauncherError::Shutdown));
    assert!(cli.stopping);
    assert_eq!(cli.read_reply("SpawnOk", "SpawnOk"), Err(LauncherError::Shutdown));
    assert_eq!(cli.ready(), Err(LauncherError::Shutdown));
}

#[test]
fn suitability_output() {
    assert_eq!(parse_suitability("42"), Some(42));
    assert_eq!(parse_suitability("18446744073709551615"), Some(u64::MAX));
    assert_eq!(parse_suitability("18446744073709551616"), None);
    assert_eq!(parse_suitability("-1"), None);
    assert_eq!(parse_suitability(""), None);
}
