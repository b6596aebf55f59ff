use ecdysis::fd_flags::{change_flag, set_cloexec, set_nonblocking, unset_cloexec};
use ecdysis::supervisor::{
    ExitCondition, OperationEvent, OperationStep, StopOnShutdown, Stoppable, StoppableStream,
};
use ecdysis::systemd_notify::{SystemdNotifier, SystemdNotifierError};
use ecdysis::systemd_sockets::{
    not_found_message, IgnoredCause, SystemdSocketError, SystemdSockets, SystemdSocketsReadError,
};
use ecdysis::text::{parse_i32, push_decimal, push_signed, split, NumberFault};
use ecdysis::trigger::{listener_reason, signal_reason, Accepted, Trigger, TriggerReason};

fn sockets(names: &str) -> SystemdSockets {
    match SystemdSockets::new(Ok(String::from("42")), Ok(String::from(names)), 42) {
        Ok(sockets) => sockets,
        Err(error) => panic!("{:?}", error),
    }
}

#[test]
fn sockets_are_found_by_name() {
    let found = sockets("one_sock:second_sock:sock_3");
    assert_eq!(found.find(String::from("one_sock")).unwrap(), 3);
    assert_eq!(found.find(String::from("second_sock")).unwrap(), 4);
    assert_eq!(found.find(String::from("sock_3")).unwrap(), 5);
    assert_eq!(found.passed_fds(), vec![3, 4, 5]);
    match found.find(String::from("a\"b")) {
        Err(SystemdSocketError::SocketNotFoundInParent(message)) => {
            assert_eq!(message, "fd \"a\\\"b\" not found LISTEN_FDNAMES")
        }
        other => panic!("unexpected {:?}", other),
    }
    assert_eq!(not_found_message("'x'"), "fd 'x' not found LISTEN_FDNAMES");
}

#[test]
fn duplicate_and_special_names_are_ignored() {
    let found = sockets("unknown:a:stored:a:connection:b");
    let ignored: Vec<(&str, i32, IgnoredCause)> = found
        .ignored_fds()
        .iter()
        .map(|fd| (fd.name.as_str(), fd.fd, fd.cause))
        .collect();
    assert_eq!(
        ignored,
        vec![
            ("unknown", 3, IgnoredCause::Special),
            ("stored", 5, IgnoredCause::Special),
            ("a", 6, IgnoredCause::Duplicate),
            ("connection", 7, IgnoredCause::Special),
        ]
    );
    assert_eq!(
        found.ignored_fds()[0].describe(),
        "socket name not supported. FDNAME \"unknown\", fd 3 ignored"
    );
    assert_eq!(
        found.ignored_fds()[2].describe(),
        "duplicate FDNAME \"a\", fd 6 ignored"
    );
    assert_eq!(found.find(String::from("a")).unwrap(), 4);
    assert_eq!(found.find(String::from("b")).unwrap(), 8);
    for special in ["unknown", "stored", "connection"] {
        assert!(found.find(String::from(special)).is_err());
    }
    assert_eq!(found.passed_fds(), vec![3, 4, 5, 6, 7, 8]);
}

#[test]
fn descriptors_without_a_name_are_ignored() {
    let found = sockets("web::api");
    assert_eq!(found.find(String::from("web")).unwrap(), 3);
    assert_eq!(found.find(String::from("api")).unwrap(), 5);
    assert!(found.find(String::new()).is_err());
    assert_eq!(found.passed_fds(), vec![3, 4, 5]);
    assert_eq!(found.ignored_fds().len(), 1);
    assert_eq!(found.ignored_fds()[0].fd, 4);
    assert_eq!(found.ignored_fds()[0].cause, IgnoredCause::Anonymous);
    assert_eq!(
        found.ignored_fds()[0].describe(),
        "socket name not supported. FDNAME \"\", fd 4 ignored"
    );

    let found = sockets("");
    assert!(found.find(String::new()).is_err());
    assert_eq!(found.passed_fds(), vec![3]);
}

#[test]
fn socket_variables_are_checked() {
    let read = |pid: Result<&str, &str>, names: Result<&str, &str>| {
        let own = |v: Result<&str, &str>| match v {
            Ok(text) => Ok(String::from(text)),
            Err(why) => Err(String::from(why)),
        };
        match SystemdSockets::new(own(pid), own(names), 42) {
            Ok(_) => panic!("the variables were accepted"),
            Err(error) => error,
        }
    };
    let text = |error: SystemdSocketsReadError| match error {
        SystemdSocketsReadError::EnvironmentVariableError(message) => message,
        other => panic!("unexpected {:?}", other),
    };
    assert_eq!(
        text(read(Err("NotPresent"), Err("NotPresent"))),
        "env LISTEN_PID missing NotPresent"
    );
    assert_eq!(
        text(read(Ok("4 2"), Err("NotPresent"))),
        "parsing pid from string failed ParseIntError { kind: InvalidDigit }"
    );
    assert_eq!(
        text(read(Ok("42"), Err("NotPresent"))),
        "env LISTEN_FDNAMES missing NotPresent"
    );
    for names in [Ok("a"), Err("NotPresent")] {
        assert!(matches!(
            read(Ok("41"), names),
            SystemdSocketsReadError::DoesNotMatchListenPid
        ));
    }
    let error = SystemdSocketError::from(std::io::Error::from_raw_os_error(2));
    assert!(matches!(error, SystemdSocketError::IoError(_)));
}

#[test]
fn numbers_are_read_as_the_standard_library_reads_them() {
    let label = |fault: NumberFault| format!("ParseIntError {{ kind: {:?} }}", fault);
    for text in [
        "", "0", "7", "42", "+42", "-42", "2147483647", "2147483648", "-2147483648",
        "-2147483649", "+", "-", "--1", "1-", " 1", "1 ", "x", "12x", "99999999999x",
        "-99999999999x", "007", "+-3", "١", "00000000000000000001",
    ] {
        match (parse_i32(text), text.parse::<i32>()) {
            (Ok(ours), Ok(theirs)) => assert_eq!(ours, theirs),
            (Err(ours), Err(theirs)) => assert_eq!(label(ours), format!("{:?}", theirs)),
            (ours, theirs) => panic!("{:?}: {:?} and {:?}", text, ours, theirs),
        }
    }
}

#[test]
fn numbers_are_written_as_the_standard_library_writes_them() {
    for n in [0u64, 9, 10, 99, 100, 65536, u64::MAX] {
        let mut out = String::from(">");
        push_decimal(&mut out, n);
        assert_eq!(out, format!(">{}", n));
    }
    for n in [0i32, -1, 7, i32::MAX, i32::MIN] {
        let mut out = String::new();
        push_signed(&mut out, n);
        assert_eq!(out, format!("{}", n));
        assert_eq!(parse_i32(&out), Ok(n));
    }
}

#[test]
fn text_is_split_at_every_separator() {
    for text in ["", ":", "a", "a:b", ":a::b:", "é:✓"] {
        let theirs: Vec<&str> = text.split(':').collect();
        assert_eq!(split(text, ':'), theirs);
        assert_eq!(split(text, ':').join(":"), text);
    }
}

fn notifier() -> SystemdNotifier {
    SystemdNotifier::new(Some(String::from("/run/notify"))).unwrap()
}

#[test]
fn notifications_are_assignments() {
    let notifier = notifier();
    assert_eq!(notifier.socket_path(), "/run/notify");
    assert_eq!(notifier.notify_ready(4711), "READY=1\nMAINPID=4711");
    assert_eq!(notifier.notify_stopping(), "STOPPING=1");
    assert_eq!(
        notifier.notify_reloading(12, 345_678_999).unwrap(),
        "RELOADING=1\nMONOTONIC_USEC=12345678"
    );
    assert_eq!(notifier.reloading_at(5).unwrap(), "RELOADING=1\nMONOTONIC_USEC=5");
    assert_eq!(
        notifier.notify_extend_timeouts(1, 500_000_999).unwrap(),
        "EXTEND_TIMEOUT_USEC=1500000"
    );
    assert_eq!(notifier.notify(&Vec::new()), "");
    let states = vec![
        (String::from("A"), String::from("1")),
        (String::from("B"), String::new()),
        (String::from("C"), String::from("x y")),
    ];
    assert_eq!(notifier.notify(&states), "A=1\nB=\nC=x y");
}

#[test]
fn times_that_are_too_large_are_told() {
    let notifier = notifier();
    assert_eq!(
        notifier.reloading_at(u64::MAX as u128 + 1).unwrap_err(),
        "CLOCK_MONOTONIC value is greater than the size of a u64"
    );
    assert_eq!(
        notifier.notify_reloading(i64::MAX, 0).unwrap_err(),
        "CLOCK_MONOTONIC value is greater than the size of a u64"
    );
    assert_eq!(
        notifier.notify_extend_timeouts(18_446_744_073_709, 551_616_000).unwrap_err(),
        "extension value is greater than the size of a u64"
    );
    assert_eq!(
        notifier.notify_extend_timeouts(18_446_744_073_709, 551_615_999).unwrap(),
        "EXTEND_TIMEOUT_USEC=18446744073709551615"
    );
}

#[test]
fn notifier_errors_have_a_text() {
    let error = SystemdNotifier::new(None).unwrap_err();
    assert!(matches!(error, SystemdNotifierError::NotifySocketUnset));
    assert_eq!(error.to_string(), "The NOTIFY_SOCKET environment variable is not set!");
    let error = SystemdNotifierError::SocketConnectError(std::io::Error::from_raw_os_error(2));
    assert_eq!(error.describe("gone"), "Error connecting to NOTIFY_SOCKET: gone");
    assert!(error.to_string().starts_with("Error connecting to NOTIFY_SOCKET: "));
    assert!(error.to_string().contains("os error 2"));
    let error = SystemdNotifierError::SocketCreateError(std::io::Error::from_raw_os_error(24));
    assert_eq!(
        error.describe("full"),
        "Error creating unbound unix datagram socket to receive systemd notifications: full"
    );
}

#[test]
fn shutdowns_stop_what_asked_for_it() {
    let upgrade = Some(ExitCondition::Upgrade);
    let stop = Some(ExitCondition::Stop);
    let partial = Some(ExitCondition::PartialStop);
    assert!(StopOnShutdown::Yes.should_continue(&None));
    assert!(StopOnShutdown::No.should_continue(&None));
    assert!(!StopOnShutdown::Yes.should_continue(&upgrade));
    assert!(!StopOnShutdown::No.should_continue(&upgrade));
    assert!(!StopOnShutdown::Yes.should_continue(&stop));
    assert!(StopOnShutdown::No.should_continue(&stop));
    assert!(!StopOnShutdown::Yes.should_continue(&partial));
    assert!(StopOnShutdown::No.should_continue(&partial));
}

#[test]
fn streams_end_when_they_are_stopped() {
    let mut stream = StoppableStream::new(vec![1, 2], StopOnShutdown::No);
    assert!(stream.poll_next(Vec::new()));
    stream.stream_mut().push(3);
    assert_eq!(stream.stream_mut().len(), 3);
    assert!(stream.poll_next(vec![None, Some(ExitCondition::Stop)]));
    assert!(!stream.poll_next(vec![Some(ExitCondition::Upgrade)]));
    assert!(!stream.poll_next(Vec::new()));
    let mut stream = StoppableStream::new((), StopOnShutdown::Yes);
    stream.observe(Some(ExitCondition::PartialStop));
    assert!(!stream.poll_next(Vec::new()));
}

#[test]
fn operations_are_interrupted_when_they_are_stopped() {
    let mut stoppable = Stoppable::new(5, StopOnShutdown::Yes);
    assert_eq!(*stoppable.as_unstoppable_ref(), 5);
    *stoppable.as_unstoppable_mut() = 6;
    assert_eq!(*stoppable.as_unstoppable_ref(), 6);
    assert!(matches!(
        stoppable.until_stopped(OperationEvent::Output("done")),
        OperationStep::Return(Some("done"))
    ));
    assert!(matches!(
        stoppable.until_stopped::<()>(OperationEvent::State(None)),
        OperationStep::Wait
    ));
    assert!(matches!(
        stoppable.until_stopped::<()>(OperationEvent::State(Some(ExitCondition::Stop))),
        OperationStep::Return(None)
    ));
}

#[test]
fn triggers_give_their_reason() {
    let reason: TriggerReason<i32, &str, ()> = signal_reason(1);
    assert!(matches!(reason, TriggerReason::Signal(1)));
    let reason: Result<TriggerReason<i32, &str, u8>, String> =
        listener_reason("/run/x", Accepted::Connection(9));
    assert!(matches!(reason, Ok(TriggerReason::UnixStream("/run/x", 9))));
    let reason: Result<TriggerReason<i32, &str, u8>, String> =
        listener_reason("/run/x", Accepted::Ended);
    assert_eq!(reason.unwrap_err(), "Socket shut down unexpectedly.");
    let reason: Result<TriggerReason<i32, &str, u8>, String> =
        listener_reason("/run/x", Accepted::Failed(String::from("EMFILE")));
    assert_eq!(
        reason.unwrap_err(),
        "Unexpected error accepting connection on socket: EMFILE"
    );
    let trigger: Trigger<i32, (), &str, ()> = Trigger::Uds("/run/x", ());
    assert_eq!(trigger.cleanup(), Some("/run/x"));
    let trigger: Trigger<i32, (), &str, ()> = Trigger::Signal(1, ());
    assert_eq!(trigger.cleanup(), None);
}

#[test]
fn one_flag_is_changed_and_no_other() {
    assert_eq!(change_flag(Some(6), 1, true), Some(7));
    assert_eq!(change_flag(Some(7), 1, false), Some(6));
    assert_eq!(change_flag(None, 1, true), None);

    let cloexec = nix::fcntl::FdFlag::FD_CLOEXEC.bits();
    assert_eq!(set_cloexec(0), Some(cloexec));
    assert_eq!(set_cloexec(cloexec), Some(cloexec));
    assert_eq!(unset_cloexec(cloexec), Some(0));
    assert_eq!(unset_cloexec(0), Some(0));
    assert_eq!(set_cloexec(!cloexec), None);
    assert_eq!(unset_cloexec(!cloexec), None);

    let nonblock = nix::fcntl::OFlag::O_NONBLOCK.bits();
    let append = nix::fcntl::OFlag::O_APPEND.bits();
    assert_eq!(set_nonblocking(append, true), Ok(append | nonblock));
    assert_eq!(set_nonblocking(append | nonblock, false), Ok(append));
    let unknown = !nix::fcntl::OFlag::all().bits();
    assert_eq!(
        set_nonblocking(unknown, true).unwrap_err(),
        "fcntl F_GETFL returned invalid flags"
    );
}
