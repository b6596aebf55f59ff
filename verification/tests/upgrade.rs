use ecdysis::executioner::{
    exec_upgraded, proc_wait, upgrade, wait_child, wait_ready, UpgradeAction, UpgradeError,
    UpgradeEvent, UpgradeState, WatchAction, WatchEvent, WatchState,
};
use ecdysis::inheriter::{complete_child, init_child, EnvVar, InheritError};

/// [`UpgradeError::reason`] is a public contract: applications use it as a metric label and
/// alert on specific values, so the strings must stay stable and low-cardinality.
#[test]
fn test_upgrade_error_reason_is_stable_and_bounded() {
    let cases = [
        (UpgradeError::ChildExit, "child_exit"),
        (UpgradeError::ChildTimeout, "child_timeout"),
        (UpgradeError::NotStarted("spawn: ENOMEM".into()), "not_started"),
        (
            UpgradeError::SerializationError(Box::new(bincode::ErrorKind::SizeLimit)),
            "serialization_error",
        ),
        (UpgradeError::Internal("systemd went away".into()), "internal"),
    ];

    for (error, expected) in &cases {
        assert_eq!(error.reason(), *expected);
        // The payload-carrying variants must not leak their unbounded detail into the label.
        assert!(!error.reason().contains(' '));
    }

    // REASONS is what applications zero-initialize their metrics from, so it must stay in
    // sync with reason() as variants are added.
    assert_eq!(cases.len(), UpgradeError::REASONS.len());
    for (error, _) in &cases {
        assert!(
            UpgradeError::REASONS.contains(&error.reason()),
            "{} missing from UpgradeError::REASONS",
            error.reason()
        );
    }
}

/// The text of an error, unlike `reason()`, is expected to carry the detail needed for a log line.
#[test]
fn test_upgrade_error_display_includes_detail() {
    assert_eq!(
        UpgradeError::ChildTimeout.to_string(),
        "timed out waiting for ready signal from child"
    );
    assert_eq!(
        UpgradeError::NotStarted("Already in upgrade".into()).to_string(),
        "upgrade not started: Already in upgrade"
    );
    assert_eq!(
        UpgradeError::Internal("channel closed".into()).to_string(),
        "internal error: channel closed"
    );
}

/// `UpgradeError` must be fit to be propagated: it can be sent between threads, and tells the error
/// beneath it.
#[test]
fn test_upgrade_error_is_std_error() {
    fn assert_error<E: std::fmt::Debug + Send + Sync + 'static>(_: &E) {}
    assert_error(&UpgradeError::ChildExit);

    assert!(UpgradeError::ChildExit.source().is_none());
    assert!(
        UpgradeError::SerializationError(Box::new(bincode::ErrorKind::SizeLimit))
            .source()
            .is_some()
    );
}

#[test]
fn upgrade_errors_keep_their_cause() {
    assert_eq!(UpgradeError::ChildExit.to_string(), "child exited unexpectedly");
    let error = UpgradeError::from(Box::new(bincode::ErrorKind::SizeLimit));
    assert!(error.source().is_some());
    assert_eq!(error.to_string(), "serialization error: SizeLimit");
    let error = UpgradeError::from(std::io::Error::from_raw_os_error(24));
    match error {
        UpgradeError::NotStarted(detail) => assert!(detail.contains("24")),
        other => panic!("unexpected {:?}", other),
    }
}

fn claim(already_upgrading: bool) -> (UpgradeState, UpgradeAction) {
    upgrade(UpgradeState::Claiming, UpgradeEvent::Claimed { already_upgrading })
}

#[test]
fn an_upgrade_runs_to_its_end() {
    let (state, action) = claim(false);
    assert!(matches!(action, UpgradeAction::CreatePipes));
    let (state, action) = upgrade(state, UpgradeEvent::PipesCreated(Ok(())));
    assert!(matches!(action, UpgradeAction::Spawn));
    let (state, action) = upgrade(state, UpgradeEvent::Spawned(Ok(())));
    assert!(matches!(action, UpgradeAction::StartWorkers));
    let (state, action) = upgrade(state, UpgradeEvent::ReadyJoined(Some(Ok(()))));
    assert!(matches!(action, UpgradeAction::CancelWatchAndJoinChild));
    let (state, action) = upgrade(state, UpgradeEvent::ChildJoined(Ok(())));
    assert!(matches!(action, UpgradeAction::JoinSenderReleaseAndReturn(Ok(()))));
    assert!(matches!(state, UpgradeState::Done));
}

#[test]
fn a_second_upgrade_is_turned_away() {
    let (state, action) = claim(true);
    assert!(matches!(state, UpgradeState::Done));
    match action {
        UpgradeAction::Return(Err(UpgradeError::NotStarted(detail))) => {
            assert_eq!(detail, "Already in upgrade")
        }
        other => panic!("unexpected {:?}", other),
    }
}

#[test]
fn failed_starts_release_the_flag() {
    let (state, _) = claim(false);
    let failed = Err(UpgradeError::NotStarted(String::from("no pipes")));
    let (state, action) = upgrade(state, UpgradeEvent::PipesCreated(failed));
    assert!(matches!(state, UpgradeState::Done));
    assert!(matches!(
        action,
        UpgradeAction::ReleaseAndReturn(Err(UpgradeError::NotStarted(ref detail))) if detail == "no pipes"
    ));
    let failed = Err(UpgradeError::NotStarted(String::from("no child")));
    let (state, action) = upgrade(UpgradeState::Spawning, UpgradeEvent::Spawned(failed));
    assert!(matches!(state, UpgradeState::Done));
    assert!(matches!(
        action,
        UpgradeAction::ReleaseAndReturn(Err(UpgradeError::NotStarted(ref detail))) if detail == "no child"
    ));
}

#[test]
fn what_the_watch_says_of_the_child_prevails() {
    let end = |ready, watched| {
        let (state, _) = upgrade(UpgradeState::AwaitingReady, UpgradeEvent::ReadyJoined(ready));
        let (_, action) = upgrade(state, UpgradeEvent::ChildJoined(watched));
        match action {
            UpgradeAction::JoinSenderReleaseAndReturn(finished) => finished,
            other => panic!("unexpected {:?}", other),
        }
    };
    assert!(end(Some(Ok(())), Ok(())).is_ok());
    assert!(matches!(
        end(Some(Ok(())), Err(UpgradeError::ChildTimeout)),
        Err(UpgradeError::ChildTimeout)
    ));
    assert!(matches!(
        end(Some(Err(UpgradeError::ChildExit)), Err(UpgradeError::ChildTimeout)),
        Err(UpgradeError::ChildTimeout)
    ));
    assert!(matches!(end(None, Ok(())), Err(UpgradeError::ChildExit)));
}

#[test]
fn the_watch_over_a_child() {
    let (state, action) = wait_child(WatchState::Timing, WatchEvent::Elapsed(4999));
    assert!(matches!(action, WatchAction::SleepAndPoll(500)));
    let (state, action) = wait_child(state, WatchEvent::Polled(Ok(None)));
    assert!(matches!(action, WatchAction::ReadSignal));
    let (again, action) = wait_child(WatchState::Checking, WatchEvent::Cancelled(false));
    assert!(matches!(again, WatchState::Timing));
    assert!(matches!(action, WatchAction::ReadClock));
    let (state, action) = wait_child(state, WatchEvent::Cancelled(true));
    assert!(matches!(action, WatchAction::Poll));
    let (state, action) = wait_child(state, WatchEvent::Polled(Ok(None)));
    assert!(matches!(state, WatchState::Done));
    assert!(matches!(action, WatchAction::Return(Ok(()))));

    let (_, action) = wait_child(WatchState::Timing, WatchEvent::Elapsed(5000));
    assert!(matches!(action, WatchAction::KillAndReturn(Err(UpgradeError::ChildTimeout))));
    for polled in [Ok(Some(0)), Ok(Some(256)), Err(())] {
        for state in [WatchState::Polling, WatchState::LastPolling] {
            let (_, action) = wait_child(state, WatchEvent::Polled(polled));
            assert!(matches!(action, WatchAction::Return(Err(UpgradeError::ChildExit))));
        }
        assert!(matches!(proc_wait(polled), Err(UpgradeError::ChildExit)));
    }
    assert!(proc_wait(Ok(None)).is_ok());
}

#[test]
fn ready_is_said_in_two_letters() {
    assert!(wait_ready(Some(*b"OK")).is_ok());
    assert!(matches!(wait_ready(Some(*b"Ok")), Err(UpgradeError::ChildExit)));
    assert!(matches!(wait_ready(None), Err(UpgradeError::ChildExit)));
}

#[test]
fn the_child_finds_what_the_parent_left() {
    let args = vec![String::from("/bin/service"), String::from("-v"), String::from("x")];
    let plan = exec_upgraded(args.clone(), 17, 1024, vec![5, 6], false);
    assert!(plan.env_remove.is_empty());
    let plan = exec_upgraded(args, 17, 1024, vec![5, 6], true);
    assert_eq!(plan.program, "/bin/service");
    assert_eq!(plan.args, vec!["-v", "x"]);
    assert_eq!(
        plan.env,
        vec![
            (String::from("ECDYSIS_RUST_UPGRADE"), String::from("yes")),
            (String::from("ECDYSIS_RUST_PIPE_FDS"), String::from("17")),
            (String::from("ECDYSIS_RUST_PIPE_READY"), String::from("1024")),
        ]
    );
    assert_eq!(plan.env_remove, vec!["LISTEN_PID", "LISTEN_FDNAMES", "LISTEN_FDS"]);
    assert_eq!(plan.inherit_fds, vec![5, 6]);

    let value = |i: usize| EnvVar::Value(plan.env[i].1.clone());
    assert_eq!(init_child(value(0), value(1)).unwrap(), 17);
    assert_eq!(complete_child(Ok("listeners"), value(2)).unwrap(), ("listeners", 1024));
}

#[test]
fn a_bad_environment_is_told() {
    let text = |s: &str| EnvVar::Value(String::from(s));
    assert!(matches!(
        init_child(EnvVar::NotPresent, text("3")),
        Err(InheritError::NotAnUpgrade)
    ));
    assert_eq!(InheritError::NotAnUpgrade.to_string(), "NotAnUpgrade");
    for upgrade in [EnvVar::NotUnicode, text("no")] {
        assert_eq!(
            init_child(upgrade, text("3")).unwrap_err().to_string(),
            "invalid environment: Value of env var ECDYSIS_RUST_UPGRADE is not valid"
        );
    }
    assert_eq!(
        init_child(text("yes"), EnvVar::NotPresent).unwrap_err().to_string(),
        "invalid environment: cannot read env var ECDYSIS_RUST_PIPE_FDS"
    );
    assert_eq!(
        init_child(text("yes"), text("3x")).unwrap_err().to_string(),
        "invalid environment: ECDYSIS_RUST_PIPE_FDS is not an integer"
    );
    assert_eq!(
        complete_child(Ok(()), text("")).unwrap_err().to_string(),
        "invalid environment: ECDYSIS_RUST_PIPE_READY is not an integer"
    );
    let broken: Result<(), bincode::Error> = Err(Box::new(bincode::ErrorKind::SizeLimit));
    assert_eq!(
        complete_child(broken, EnvVar::NotPresent).unwrap_err().to_string(),
        "failed to deserialize listeners received from parent: SizeLimit"
    );
    let error = InheritError::from(Box::new(bincode::ErrorKind::SizeLimit));
    assert!(matches!(error, InheritError::DeserializationError(_)));
}
