//! Messages to systemd about the state of the service.
//!
//! A message is a list of assignments, one to a line. See the manual pages of `sd_notify` and
//! `systemd-notify` for what they mean.

use vstd::prelude::*;
use vstd::string::*;

use crate::handover::error::io_error_text;
use crate::text;

verus! {

#[derive(Debug)]
pub enum SystemdNotifierError {
    NotifySocketUnset,
    SocketCreateError(std::io::Error),
    SocketConnectError(std::io::Error),
}

impl SystemdNotifierError {
    /// The error as a line of text, where `cause` is the text of the I/O error beneath it.
    pub open spec fn described(self, cause: Seq<char>) -> Seq<char> {
        match self {
            SystemdNotifierError::NotifySocketUnset => {
                "The NOTIFY_SOCKET environment variable is not set!"@
            },
            SystemdNotifierError::SocketCreateError(_) => {
                "Error creating unbound unix datagram socket to receive systemd notifications: "@
                    + cause
            },
            SystemdNotifierError::SocketConnectError(_) => {
                "Error connecting to NOTIFY_SOCKET: "@ + cause
            },
        }
    }

    pub fn describe(&self, cause: &str) -> (line: String)
        ensures
            line@ == self.described(cause@),
    {
        match self {
            SystemdNotifierError::NotifySocketUnset => {
                "The NOTIFY_SOCKET environment variable is not set!".to_owned()
            },
            SystemdNotifierError::SocketCreateError(_) => {
                let mut line: String =
                    "Error creating unbound unix datagram socket to receive systemd notifications: ".to_owned();
                line.append(cause);
                line
            },
            SystemdNotifierError::SocketConnectError(_) => {
                let mut line: String = "Error connecting to NOTIFY_SOCKET: ".to_owned();
                line.append(cause);
                line
            },
        }
    }

    /// The error as a line of text. One with an I/O error beneath it ends in the text of that
    /// error.
    pub fn to_string(&self) -> (line: String)
        ensures
            match *self {
                SystemdNotifierError::NotifySocketUnset => line@ == self.described(seq![]),
                SystemdNotifierError::SocketCreateError(error) => exists|cause: String| #[trigger]
                    call_ensures(io_error_text, (&error,), cause) && line@ == self.described(
                        cause@,
                    ),
                SystemdNotifierError::SocketConnectError(error) => exists|cause: String| #[trigger]
                    call_ensures(io_error_text, (&error,), cause) && line@ == self.described(
                        cause@,
                    ),
            },
    {
        let cause: String = match self {
            SystemdNotifierError::NotifySocketUnset => String::new(),
            SystemdNotifierError::SocketCreateError(error) => io_error_text(error),
            SystemdNotifierError::SocketConnectError(error) => io_error_text(error),
        };
        self.describe(cause.as_str())
    }
}

/// One assignment.
pub open spec fn assignment(key: Seq<char>, value: Seq<char>) -> Seq<char> {
    key + "="@ + value
}

/// The assignments, one to a line.
pub open spec fn notification(states: Seq<(String, String)>) -> Seq<char> {
    text::join_with(
        states.map_values(|state: (String, String)| assignment(state.0@, state.1@)),
        "\n"@,
    )
}

/// Microseconds in a time of `nix::sys::time::TimeSpec`, by way of its conversion to
/// `std::time::Duration` and `Duration::as_micros`. The conversion takes the seconds as `u64` and
/// the nanoseconds as `u32`, carries whole seconds over, and panics where they no longer fit.
#[verifier::external_body]
fn timespec_micros(seconds: i64, nanoseconds: i64) -> (micros: u128)
    requires
        seconds as u64 + (nanoseconds as u32) / 1_000_000_000 <= u64::MAX,
    ensures
        micros == (seconds as u64) * 1_000_000 + (nanoseconds as u32) / 1_000,
{
    std::time::Duration::from(nix::sys::time::TimeSpec::new(seconds, nanoseconds)).as_micros()
}

/// A client of systemd: it knows where to send, and what.
#[derive(Debug)]
pub struct SystemdNotifier {
    socket_path: String,
}

impl View for SystemdNotifier {
    type V = Seq<char>;

    closed spec fn view(&self) -> Seq<char> {
        self.socket_path@
    }
}

impl SystemdNotifier {
    /// A client that sends to the socket which the variable `NOTIFY_SOCKET` names, if it is set.
    pub fn new(notify_socket: Option<String>) -> (r: Result<Self, SystemdNotifierError>)
        ensures
            match notify_socket {
                Some(path) => r matches Ok(notifier) && notifier@ == path@,
                None => r matches Err(SystemdNotifierError::NotifySocketUnset),
            },
    {
        match notify_socket {
            Some(socket_path) => Ok(SystemdNotifier { socket_path }),
            None => Err(SystemdNotifierError::NotifySocketUnset),
        }
    }

    /// Where to send.
    pub fn socket_path(&self) -> (r: &str)
        ensures
            r@ == self@,
    {
        self.socket_path.as_str()
    }

    /// The message for the given assignments.
    pub fn notify(&self, states: &Vec<(String, String)>) -> (message: String)
        ensures
            message@ == notification(states@),
    {
        let mut message: String = String::new();
        let ghost lines = states@.map_values(
            |state: (String, String)| assignment(state.0@, state.1@),
        );
        let mut i: usize = 0;
        assert(lines.take(0) =~= Seq::<Seq<char>>::empty());
        while i < states.len()
            invariant
                i <= states@.len(),
                lines == states@.map_values(
                    |state: (String, String)| assignment(state.0@, state.1@),
                ),
                message@ == text::join_with(lines.take(i as int), "\n"@),
            decreases states@.len() - i,
        {
            assert(lines.take(i + 1).drop_last() =~= lines.take(i as int));
            let ghost before = message@;
            if i > 0 {
                message.append("\n");
            }
            let ghost prefix = message@;
            message.append(states[i].0.as_str());
            message.append("=");
            message.append(states[i].1.as_str());
            proof {
                assert(message@ =~= prefix + lines[i as int]);
                if i == 0 {
                    assert(message@ =~= lines.take(1)[0]);
                } else {
                    assert(prefix == before + "\n"@);
                }
            }
            i = i + 1;
        }
        assert(lines.take(i as int) =~= lines);
        message
    }

    /// The message that the service is ready, and which process it is. Without it there would have
    /// to be a file that holds the process id.
    pub fn notify_ready(&self, process_id: i32) -> (message: String)
        ensures
            message@ == "READY=1\nMAINPID="@ + text::signed_decimal(process_id as int),
    {
        let mut pid: String = String::new();
        text::push_signed(&mut pid, process_id);
        let mut states: Vec<(String, String)> = Vec::new();
        states.push(("READY".to_owned(), "1".to_owned()));
        states.push(("MAINPID".to_owned(), pid));
        proof {
            lemma_two_lines(states@);
            reveal_strlit("READY");
            reveal_strlit("1");
            reveal_strlit("MAINPID");
            reveal_strlit("=");
            reveal_strlit("\n");
            reveal_strlit("READY=1\nMAINPID=");
            assert(pid@ =~= text::signed_decimal(process_id as int));
            assert("READY"@ + "="@ + "1"@ + "\n"@ + "MAINPID"@ + "="@ =~= "READY=1\nMAINPID="@);
            assert(notification(states@) =~= "READY=1\nMAINPID="@ + pid@);
        }
        self.notify(&states)
    }

    /// The message that the service reloads, with the monotonic time in microseconds.
    pub fn reloading_at(&self, monotonic_micros: u128) -> (r: Result<String, String>)
        ensures
            if monotonic_micros <= u64::MAX {
                r matches Ok(message) && message@ == "RELOADING=1\nMONOTONIC_USEC="@
                    + text::decimal(monotonic_micros as nat)
            } else {
                r matches Err(error) && error@
                    == "CLOCK_MONOTONIC value is greater than the size of a u64"@
            },
    {
        if monotonic_micros > u64::MAX as u128 {
            return Err("CLOCK_MONOTONIC value is greater than the size of a u64".to_owned());
        }
        let mut micros: String = String::new();
        text::push_decimal(&mut micros, monotonic_micros as u64);
        let mut states: Vec<(String, String)> = Vec::new();
        states.push(("RELOADING".to_owned(), "1".to_owned()));
        states.push(("MONOTONIC_USEC".to_owned(), micros));
        proof {
            lemma_two_lines(states@);
            reveal_strlit("RELOADING");
            reveal_strlit("1");
            reveal_strlit("MONOTONIC_USEC");
            reveal_strlit("=");
            reveal_strlit("\n");
            reveal_strlit("RELOADING=1\nMONOTONIC_USEC=");
            assert(micros@ =~= text::decimal(monotonic_micros as nat));
            assert("RELOADING"@ + "="@ + "1"@ + "\n"@ + "MONOTONIC_USEC"@ + "="@
                =~= "RELOADING=1\nMONOTONIC_USEC="@);
            assert(notification(states@) =~= "RELOADING=1\nMONOTONIC_USEC="@ + micros@);
        }
        Ok(self.notify(&states))
    }

    /// The message that the service reloads, at a reading of the monotonic clock.
    pub fn notify_reloading(&self, seconds: i64, nanoseconds: i64) -> (r: Result<String, String>)
        requires
            seconds as u64 + (nanoseconds as u32) / 1_000_000_000 <= u64::MAX,
        ensures
            ({
                let micros = (seconds as u64) * 1_000_000 + (nanoseconds as u32) / 1_000;
                if micros <= u64::MAX {
                    r matches Ok(message) && message@ == "RELOADING=1\nMONOTONIC_USEC="@
                        + text::decimal(micros as nat)
                } else {
                    r matches Err(error) && error@
                        == "CLOCK_MONOTONIC value is greater than the size of a u64"@
                }
            }),
    {
        self.reloading_at(timespec_micros(seconds, nanoseconds))
    }

    /// The message that the service stops.
    pub fn notify_stopping(&self) -> (message: String)
        ensures
            message@ == "STOPPING=1"@,
    {
        let mut states: Vec<(String, String)> = Vec::new();
        states.push(("STOPPING".to_owned(), "1".to_owned()));
        proof {
            lemma_one_line(states@);
            reveal_strlit("STOPPING");
            reveal_strlit("=");
            reveal_strlit("1");
            reveal_strlit("STOPPING=1");
            assert(notification(states@) =~= "STOPPING=1"@);
        }
        self.notify(&states)
    }

    /// The message that asks for more time: whole seconds, and the nanoseconds beside them. What is
    /// asked for is in whole microseconds.
    pub fn notify_extend_timeouts(&self, seconds: u64, subsec_nanos: u32) -> (r: Result<
        String,
        String,
    >)
        ensures
            ({
                let micros = seconds * 1_000_000 + subsec_nanos / 1_000;
                if micros <= u64::MAX {
                    r matches Ok(message) && message@ == "EXTEND_TIMEOUT_USEC="@ + text::decimal(
                        micros as nat,
                    )
                } else {
                    r matches Err(error) && error@
                        == "extension value is greater than the size of a u64"@
                }
            }),
    {
        let extension_micros: u128 = seconds as u128 * 1_000_000 + (subsec_nanos / 1_000) as u128;
        if extension_micros > u64::MAX as u128 {
            return Err("extension value is greater than the size of a u64".to_owned());
        }
        let mut micros: String = String::new();
        text::push_decimal(&mut micros, extension_micros as u64);
        let mut states: Vec<(String, String)> = Vec::new();
        states.push(("EXTEND_TIMEOUT_USEC".to_owned(), micros));
        proof {
            lemma_one_line(states@);
            reveal_strlit("EXTEND_TIMEOUT_USEC");
            reveal_strlit("=");
            reveal_strlit("EXTEND_TIMEOUT_USEC=");
            assert(micros@ =~= text::decimal(extension_micros as nat));
            assert("EXTEND_TIMEOUT_USEC"@ + "="@ =~= "EXTEND_TIMEOUT_USEC="@);
        }
        Ok(self.notify(&states))
    }
}

proof fn lemma_one_line(states: Seq<(String, String)>)
    requires
        states.len() == 1,
    ensures
        notification(states) == assignment(states[0].0@, states[0].1@),
{
}

proof fn lemma_two_lines(states: Seq<(String, String)>)
    requires
        states.len() == 2,
    ensures
        notification(states) == assignment(states[0].0@, states[0].1@) + "\n"@ + assignment(
            states[1].0@,
            states[1].1@,
        ),
{
    let lines = states.map_values(|state: (String, String)| assignment(state.0@, state.1@));
    reveal_with_fuel(text::join_with, 2);
    assert(lines.drop_last()[0] == lines[0]);
}

/// A message is the assignments, each its key, `=` and its value, one to a line: without any there is
/// nothing, and a further one follows on a line of its own.
pub proof fn law_messages_are_lines(
    notifier: SystemdNotifier,
    states: Vec<(String, String)>,
    message: String,
    before: Seq<(String, String)>,
    state: (String, String),
)
    requires
        call_ensures(SystemdNotifier::notify, (&notifier, &states), message),
    ensures
        states@.len() == 0 ==> message@ == Seq::<char>::empty(),
        states@ == seq![state] ==> message@ == state.0@ + "="@ + state.1@,
        states@ == before.push(state) && before.len() > 0 ==> message@ == notification(before)
            + "\n"@ + (state.0@ + "="@ + state.1@),
        message@ == notification(states@),
{
    let lines = states@.map_values(|state: (String, String)| assignment(state.0@, state.1@));
    if states@ == before.push(state) && before.len() > 0 {
        let rest = before.map_values(|state: (String, String)| assignment(state.0@, state.1@));
        assert(lines =~= rest.push(assignment(state.0@, state.1@)));
        text::law_pieces_are_joined(rest, assignment(state.0@, state.1@), "\n"@);
    }
    if states@ == seq![state] {
        assert(lines =~= seq![assignment(state.0@, state.1@)]);
    }
}

/// The notices that a service gives: that it is ready and which process it is, that it stops, and
/// where they are sent to.
pub proof fn law_notices_are_given(
    path: Option<String>,
    r: Result<SystemdNotifier, SystemdNotifierError>,
    notifier: SystemdNotifier,
    told: &str,
    process_id: i32,
    ready: String,
    stopping: String,
)
    requires
        call_ensures(SystemdNotifier::new, (path,), r),
        call_ensures(SystemdNotifier::socket_path, (&notifier,), told),
        call_ensures(SystemdNotifier::notify_ready, (&notifier, process_id), ready),
        call_ensures(SystemdNotifier::notify_stopping, (&notifier,), stopping),
    ensures
        path is None ==> (r matches Err(error) && error
            == SystemdNotifierError::NotifySocketUnset),
        path matches Some(at) ==> (r matches Ok(made) && made@ == at@),
        told@ == notifier@,
        ready@ == "READY=1\nMAINPID="@ + text::signed_decimal(process_id as int),
        stopping@ == "STOPPING=1"@,
{
}

/// A time is told in whole microseconds, rounded down, as long as it fits in 64 bits: the time of a
/// reload, which the clock gives in seconds and nanoseconds, and the time that is asked for.
pub proof fn law_times_are_told_in_microseconds(
    notifier: SystemdNotifier,
    seconds: i64,
    nanoseconds: i64,
    reloading: Result<String, String>,
    asked_seconds: u64,
    asked_nanoseconds: u32,
    extension: Result<String, String>,
    micros: u128,
    at: Result<String, String>,
)
    requires
        call_ensures(
            SystemdNotifier::notify_reloading,
            (&notifier, seconds, nanoseconds),
            reloading,
        ),
        call_ensures(
            SystemdNotifier::notify_extend_timeouts,
            (&notifier, asked_seconds, asked_nanoseconds),
            extension,
        ),
        call_ensures(SystemdNotifier::reloading_at, (&notifier, micros), at),
        seconds >= 0,
        0 <= nanoseconds < 1_000_000_000,
    ensures
        ({
            let now = (seconds * 1_000_000_000 + nanoseconds) / 1_000;
            if now < 0x1_0000_0000_0000_0000 {
                reloading matches Ok(message) && message@ == "RELOADING=1\nMONOTONIC_USEC="@
                    + text::decimal(now as nat)
            } else {
                reloading matches Err(error) && error@
                    == "CLOCK_MONOTONIC value is greater than the size of a u64"@
            }
        }),
        ({
            let asked = (asked_seconds * 1_000_000_000 + asked_nanoseconds) / 1_000;
            if asked < 0x1_0000_0000_0000_0000 {
                extension matches Ok(message) && message@ == "EXTEND_TIMEOUT_USEC="@
                    + text::decimal(asked as nat)
            } else {
                extension matches Err(error) && error@
                    == "extension value is greater than the size of a u64"@
            }
        }),
        if micros < 0x1_0000_0000_0000_0000 {
            at matches Ok(message) && message@ == "RELOADING=1\nMONOTONIC_USEC="@ + text::decimal(
                micros as nat,
            )
        } else {
            at matches Err(error) && error@
                == "CLOCK_MONOTONIC value is greater than the size of a u64"@
        },
{
    assert(seconds as u64 == seconds);
    assert(nanoseconds as u32 == nanoseconds);
}

/// An error says what could not be done and then, word for word, what the error beneath says.
pub proof fn law_notifier_errors_are_described(
    error: SystemdNotifierError,
    cause: &str,
    line: String,
    whole: String,
)
    requires
        call_ensures(SystemdNotifierError::describe, (&error, cause), line),
        call_ensures(SystemdNotifierError::to_string, (&error,), whole),
    ensures
        match error {
            SystemdNotifierError::NotifySocketUnset => line@
                == "The NOTIFY_SOCKET environment variable is not set!"@ && whole@ == line@,
            SystemdNotifierError::SocketCreateError(beneath) => line@
                == "Error creating unbound unix datagram socket to receive systemd notifications: "@
                + cause@ && exists|own: String| #[trigger]
                call_ensures(io_error_text, (&beneath,), own) && whole@
                    == "Error creating unbound unix datagram socket to receive systemd notifications: "@
                    + own@,
            SystemdNotifierError::SocketConnectError(beneath) => line@
                == "Error connecting to NOTIFY_SOCKET: "@ + cause@ && exists|own: String| #[trigger]
                call_ensures(io_error_text, (&beneath,), own) && whole@
                    == "Error connecting to NOTIFY_SOCKET: "@ + own@,
        },
{
}

} // verus!
