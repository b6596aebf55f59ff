//! The start of a process that may be the child of an upgrade.

use vstd::prelude::*;
use vstd::string::*;

use crate::executioner;
use crate::executioner::{
    bincode_error_text, ENV_PIPE_FDS, ENV_PIPE_READY, ENV_UPGRADE, UPGRADE_TRUE_VAL,
};
use crate::text;

verus! {

#[derive(Debug)]
pub enum InheritError {
    NotAnUpgrade,
    DeserializationError(bincode::Error),
    BadEnvironment(String),
}

/// An [`InheritError`] with its text as a sequence of characters.
pub enum InheritErrorView {
    NotAnUpgrade,
    DeserializationError(bincode::Error),
    BadEnvironment(Seq<char>),
}

impl View for InheritError {
    type V = InheritErrorView;

    open spec fn view(&self) -> InheritErrorView {
        match *self {
            InheritError::NotAnUpgrade => InheritErrorView::NotAnUpgrade,
            InheritError::DeserializationError(error) => {
                InheritErrorView::DeserializationError(error)
            },
            InheritError::BadEnvironment(detail) => InheritErrorView::BadEnvironment(detail@),
        }
    }
}

impl From<bincode::Error> for InheritError {
    fn from(error: bincode::Error) -> (r: Self) {
        InheritError::DeserializationError(error)
    }
}

impl vstd::std_specs::convert::FromSpecImpl<bincode::Error> for InheritError {
    open spec fn obeys_from_spec() -> bool {
        true
    }

    open spec fn from_spec(error: bincode::Error) -> Self {
        InheritError::DeserializationError(error)
    }
}

impl InheritErrorView {
    /// The error as a line of text, where `cause` is the text of a deserialization error.
    pub open spec fn described(self, cause: Seq<char>) -> Seq<char> {
        match self {
            InheritErrorView::NotAnUpgrade => "NotAnUpgrade"@,
            InheritErrorView::DeserializationError(_) => {
                "failed to deserialize listeners received from parent: "@ + cause
            },
            InheritErrorView::BadEnvironment(detail) => "invalid environment: "@ + detail,
        }
    }
}

impl InheritError {
    /// The error as a line of text, where `cause` is the text of a deserialization error.
    pub fn describe(&self, cause: &str) -> (line: String)
        ensures
            line@ == self@.described(cause@),
    {
        match self {
            InheritError::NotAnUpgrade => "NotAnUpgrade".to_owned(),
            InheritError::DeserializationError(_) => {
                let mut line: String =
                    "failed to deserialize listeners received from parent: ".to_owned();
                line.append(cause);
                line
            },
            InheritError::BadEnvironment(detail) => {
                let mut line: String = "invalid environment: ".to_owned();
                line.append(detail.as_str());
                line
            },
        }
    }

    /// The error as a line of text. A deserialization error ends in its own text.
    pub fn to_string(&self) -> (line: String)
        ensures
            match *self {
                InheritError::DeserializationError(error) => exists|cause: String| #[trigger]
                    call_ensures(bincode_error_text, (&error,), cause) && line@ == self@.described(
                        cause@,
                    ),
                _ => line@ == self@.described(seq![]),
            },
    {
        let cause: String = match self {
            InheritError::DeserializationError(error) => bincode_error_text(error),
            _ => String::new(),
        };
        self.describe(cause.as_str())
    }
}

/// What reading an environment variable gives.
#[derive(Debug)]
pub enum EnvVar {
    Value(String),
    NotPresent,
    NotUnicode,
}

/// An [`EnvVar`] with its text as a sequence of characters.
pub enum EnvVarView {
    Value(Seq<char>),
    NotPresent,
    NotUnicode,
}

impl View for EnvVar {
    type V = EnvVarView;

    open spec fn view(&self) -> EnvVarView {
        match *self {
            EnvVar::Value(value) => EnvVarView::Value(value@),
            EnvVar::NotPresent => EnvVarView::NotPresent,
            EnvVar::NotUnicode => EnvVarView::NotUnicode,
        }
    }
}

/// The descriptor that a variable names.
pub open spec fn fd_from_env(name: Seq<char>, value: EnvVarView) -> Result<int, InheritErrorView> {
    match value {
        EnvVarView::Value(value) => match text::parsed_i32(value) {
            Ok(fd) => Ok(fd),
            Err(_) => Err(InheritErrorView::BadEnvironment(name + " is not an integer"@)),
        },
        _ => Err(InheritErrorView::BadEnvironment("cannot read env var "@ + name)),
    }
}

/// The descriptor that the variable `name` names, given what reading it gave.
pub fn pipe_fd_from_env(name: &str, value: EnvVar) -> (r: Result<i32, InheritError>)
    ensures
        match r {
            Ok(fd) => fd_from_env(name@, value@) == Ok::<int, InheritErrorView>(fd as int),
            Err(error) => fd_from_env(name@, value@) == Err::<int, InheritErrorView>(error@),
        },
{
    match value {
        EnvVar::Value(value) => match text::parse_i32(value.as_str()) {
            Ok(fd) => Ok(fd),
            Err(_) => {
                let mut message: String = name.to_owned();
                message.append(" is not an integer");
                Err(InheritError::BadEnvironment(message))
            },
        },
        _ => {
            let mut message: String = "cannot read env var ".to_owned();
            message.append(name);
            Err(InheritError::BadEnvironment(message))
        },
    }
}

/// The descriptor to read listeners from, in a process that finds the given variables.
pub open spec fn listeners_fd(upgrade: EnvVarView, pipe_fds: EnvVarView) -> Result<
    int,
    InheritErrorView,
> {
    if upgrade is NotPresent {
        Err(InheritErrorView::NotAnUpgrade)
    } else if upgrade == EnvVarView::Value(UPGRADE_TRUE_VAL@) {
        fd_from_env(ENV_PIPE_FDS@, pipe_fds)
    } else {
        Err(
            InheritErrorView::BadEnvironment(
                "Value of env var "@ + ENV_UPGRADE@ + " is not valid"@,
            ),
        )
    }
}

/// Where the child of an upgrade is to read its listeners from, first of all: the descriptor that
/// the environment names. A process that is not the child of an upgrade is told so.
pub fn init_child(upgrade: EnvVar, pipe_fds: EnvVar) -> (r: Result<i32, InheritError>)
    ensures
        match r {
            Ok(fd) => listeners_fd(upgrade@, pipe_fds@) == Ok::<int, InheritErrorView>(fd as int),
            Err(error) => listeners_fd(upgrade@, pipe_fds@) == Err::<int, InheritErrorView>(error@),
        },
{
    let confirmed: bool = match upgrade {
        EnvVar::Value(value) => {
            let expected: String = UPGRADE_TRUE_VAL.to_owned();
            value == expected
        },
        EnvVar::NotPresent => {
            return Err(InheritError::NotAnUpgrade);
        },
        EnvVar::NotUnicode => false,
    };
    if !confirmed {
        let mut message: String = "Value of env var ".to_owned();
        message.append(ENV_UPGRADE);
        message.append(" is not valid");
        return Err(InheritError::BadEnvironment(message));
    }
    pipe_fd_from_env(ENV_PIPE_FDS, pipe_fds)
}

/// What the child of an upgrade starts with: the listeners that it read, and the descriptor on which
/// to say that it is ready. That no listeners could be read is found first.
pub fn complete_child<L>(inherited: Result<L, bincode::Error>, pipe_ready: EnvVar) -> (r: Result<
    (L, i32),
    InheritError,
>)
    ensures
        match inherited {
            Err(cause) => r == Err::<(L, i32), InheritError>(
                InheritError::DeserializationError(cause),
            ),
            Ok(listeners) => match fd_from_env(ENV_PIPE_READY@, pipe_ready@) {
                Ok(fd) => r matches Ok((inherited, ready_fd)) && inherited == listeners && ready_fd
                    == fd,
                Err(expected) => r matches Err(error) && error@ == expected,
            },
        },
{
    let listeners: L = match inherited {
        Ok(listeners) => listeners,
        Err(cause) => {
            return Err(InheritError::DeserializationError(cause));
        },
    };
    match pipe_fd_from_env(ENV_PIPE_READY, pipe_ready) {
        Ok(ready_fd) => Ok((listeners, ready_fd)),
        Err(error) => Err(error),
    }
}

/// The child of an upgrade finds in its environment the pipes that its parent put there.
pub proof fn law_child_finds_its_pipes(recv_listeners_fd: i32, send_ready_fd: i32)
    ensures
        ({
            let env = executioner::child_environment(recv_listeners_fd, send_ready_fd);
            &&& env[0].0 == ENV_UPGRADE@
            &&& env[1].0 == ENV_PIPE_FDS@
            &&& env[2].0 == ENV_PIPE_READY@
            &&& listeners_fd(EnvVarView::Value(env[0].1), EnvVarView::Value(env[1].1)) == Ok::<
                int,
                InheritErrorView,
            >(recv_listeners_fd as int)
            &&& fd_from_env(ENV_PIPE_READY@, EnvVarView::Value(env[2].1)) == Ok::<
                int,
                InheritErrorView,
            >(send_ready_fd as int)
        }),
{
    text::law_number_round_trip(recv_listeners_fd);
    text::law_number_round_trip(send_ready_fd);
}

/// A process that was started in any other way is no upgrade, whatever else it finds.
pub proof fn law_first_generation_is_no_upgrade(pipe_fds: EnvVarView)
    ensures
        listeners_fd(EnvVarView::NotPresent, pipe_fds) == Err::<int, InheritErrorView>(
            InheritErrorView::NotAnUpgrade,
        ),
{
}

/// The descriptor that a variable names is the number that it holds, and the complaint names the
/// variable: that it cannot be read, or that it holds no number.
pub proof fn law_variables_name_descriptors(
    name: &str,
    value: EnvVar,
    r: Result<i32, InheritError>,
)
    requires
        call_ensures(pipe_fd_from_env, (name, value), r),
    ensures
        match value {
            EnvVar::Value(held) => match text::parsed_i32(held@) {
                Ok(number) => r matches Ok(fd) && fd == number,
                Err(_) => r matches Err(error) && error@ == InheritErrorView::BadEnvironment(
                    name@ + " is not an integer"@,
                ),
            },
            _ => r matches Err(error) && error@ == InheritErrorView::BadEnvironment(
                "cannot read env var "@ + name@,
            ),
        },
{
}

/// A process is the child of an upgrade if and only if the variable for it says `yes`, and then reads
/// its listeners from the descriptor that the other variable names. Without the variable it is no
/// upgrade; with anything else in it, or where it cannot be read, the environment is bad.
pub proof fn law_children_are_told_so(
    upgrade: EnvVar,
    pipe_fds: EnvVar,
    r: Result<i32, InheritError>,
    named: Result<i32, InheritError>,
)
    requires
        call_ensures(init_child, (upgrade, pipe_fds), r),
        call_ensures(pipe_fd_from_env, (ENV_PIPE_FDS, pipe_fds), named),
    ensures
        ENV_PIPE_FDS@ == "ECDYSIS_RUST_PIPE_FDS"@,
        upgrade is NotPresent <==> r matches Err(InheritError::NotAnUpgrade),
        upgrade matches EnvVar::Value(said) && said@ == "yes"@ ==> match (r, named) {
            (Ok(fd), Ok(same)) => fd == same,
            (Err(error), Err(same)) => error@ == same@,
            _ => false,
        },
        (upgrade is NotUnicode || (upgrade matches EnvVar::Value(said) && said@ != "yes"@)) ==> (r
            matches Err(error) && error@ == InheritErrorView::BadEnvironment(
            "Value of env var "@ + "ECDYSIS_RUST_UPGRADE"@ + " is not valid"@,
        )),
{
}

/// A child starts with exactly the listeners that it read and with the descriptor that the variable
/// for it names. It does not start if the listeners could not be read, which is told first, or if
/// there is no such descriptor.
pub proof fn law_children_start_with_what_they_read<L>(
    inherited: Result<L, bincode::Error>,
    pipe_ready: EnvVar,
    r: Result<(L, i32), InheritError>,
    named: Result<i32, InheritError>,
)
    requires
        call_ensures(complete_child::<L>, (inherited, pipe_ready), r),
        call_ensures(pipe_fd_from_env, (ENV_PIPE_READY, pipe_ready), named),
    ensures
        ENV_PIPE_READY@ == "ECDYSIS_RUST_PIPE_READY"@,
        inherited matches Err(cause) ==> r == Err::<(L, i32), InheritError>(
            InheritError::DeserializationError(cause),
        ),
        inherited matches Ok(listeners) ==> match (r, named) {
            (Ok((started, ready_fd)), Ok(fd)) => started == listeners && ready_fd == fd,
            (Err(error), Err(same)) => error@ == same@,
            _ => false,
        },
{
}

/// An error says what is wrong and then, word for word, the detail that it carries.
pub proof fn law_inherit_errors_are_described(
    error: InheritError,
    cause: &str,
    line: String,
    whole: String,
)
    requires
        call_ensures(InheritError::describe, (&error, cause), line),
        call_ensures(InheritError::to_string, (&error,), whole),
    ensures
        match error {
            InheritError::NotAnUpgrade => line@ == "NotAnUpgrade"@ && whole@ == line@,
            InheritError::DeserializationError(beneath) => line@
                == "failed to deserialize listeners received from parent: "@ + cause@
                && exists|own: String| #[trigger]
                call_ensures(bincode_error_text, (&beneath,), own) && whole@
                    == "failed to deserialize listeners received from parent: "@ + own@,
            InheritError::BadEnvironment(detail) => line@ == "invalid environment: "@ + detail@
                && whole@ == line@,
        },
{
}

/// A deserialization error is kept as it is.
pub proof fn law_inherit_errors_are_made_of_others(cause: bincode::Error, error: InheritError)
    requires
        call_ensures(<InheritError as From<bincode::Error>>::from, (cause,), error),
    ensures
        error == InheritError::DeserializationError(cause),
{
}

} // verus!
