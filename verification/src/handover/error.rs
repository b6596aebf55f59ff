//! What can go wrong during a handover.

use vstd::prelude::*;
use vstd::string::*;

use super::limits::{SupportedVersions, VersionsView};
use crate::text;

verus! {

/// `std::io::Error`, carried along and never looked into.
#[verifier::external_type_specification]
#[verifier::external_body]
pub struct ExIoError(std::io::Error);

/// `nix::errno::Errno`, which `nix` also calls `nix::Error`: the number of an error that the system
/// reported.
#[verifier::external_type_specification]
#[verifier::external_body]
pub struct ExErrno(nix::errno::Errno);

/// A transport or protocol failure during a handover.
#[derive(Debug)]
#[non_exhaustive]
pub enum HandoverError {
    Io(std::io::Error),
    Protocol(String),
    Limit(String),
    UnsupportedVersion { selected: u16, supported: SupportedVersions },
    Aborted(String),
}

/// A [`HandoverError`] with its text as a sequence of characters.
pub enum ErrorView {
    Io(std::io::Error),
    Protocol(Seq<char>),
    Limit(Seq<char>),
    UnsupportedVersion { selected: u16, supported: VersionsView },
    Aborted(Seq<char>),
}

impl View for HandoverError {
    type V = ErrorView;

    open spec fn view(&self) -> ErrorView {
        match *self {
            HandoverError::Io(error) => ErrorView::Io(error),
            HandoverError::Protocol(error) => ErrorView::Protocol(error@),
            HandoverError::Limit(error) => ErrorView::Limit(error@),
            HandoverError::UnsupportedVersion { selected, supported } => {
                ErrorView::UnsupportedVersion { selected, supported: supported@ }
            },
            HandoverError::Aborted(reason) => ErrorView::Aborted(reason@),
        }
    }
}

/// The result `r` is the outcome `expected`: the same value, or the same error.
pub open spec fn is_outcome<T: View>(
    r: Result<T, HandoverError>,
    expected: Result<T::V, ErrorView>,
) -> bool {
    match r {
        Ok(value) => expected == Ok::<T::V, ErrorView>(value@),
        Err(error) => expected == Err::<T::V, ErrorView>(error@),
    }
}

impl ErrorView {
    /// The error as a line of text. Of a transport failure, `cause` is the text.
    pub open spec fn described(self, cause: Seq<char>) -> Seq<char> {
        match self {
            ErrorView::Io(_) => "handover I/O failed: "@ + cause,
            ErrorView::Protocol(error) => "invalid handover protocol: "@ + error,
            ErrorView::Limit(error) => "handover limit exceeded: "@ + error,
            ErrorView::UnsupportedVersion { selected, supported } => {
                "application handover version "@ + text::decimal(selected as nat)
                    + " is outside supported range "@ + text::decimal(supported.min as nat) + "..="@
                    + text::decimal(supported.max as nat)
            },
            ErrorView::Aborted(reason) => "handover aborted: "@ + reason,
        }
    }
}

/// The text of a `std::io::Error`, as its `Display` writes it. Nothing is claimed of it: for an
/// error that the system reported it is the system's own wording.
#[verifier::external_body]
pub fn io_error_text(error: &std::io::Error) -> (text: String) {
    format!("{}", error)
}

/// `std::io::Error::from_raw_os_error` on the number of a `nix::Error`. Nothing is claimed of it:
/// neither error is looked into, and the numbers are those of the system.
#[verifier::external_body]
pub fn from_raw_os_error(error: nix::Error) -> (r: std::io::Error) {
    std::io::Error::from_raw_os_error(error as i32)
}

impl HandoverError {
    /// The error as a line of text, where `cause` is the text of a transport failure.
    pub fn describe(&self, cause: &str) -> (line: String)
        ensures
            line@ == self@.described(cause@),
    {
        match self {
            HandoverError::Io(_) => {
                let mut line: String = "handover I/O failed: ".to_owned();
                line.append(cause);
                line
            },
            HandoverError::Protocol(error) => {
                let mut line: String = "invalid handover protocol: ".to_owned();
                line.append(error.as_str());
                line
            },
            HandoverError::Limit(error) => {
                let mut line: String = "handover limit exceeded: ".to_owned();
                line.append(error.as_str());
                line
            },
            HandoverError::UnsupportedVersion { selected, supported } => {
                let mut line: String = "application handover version ".to_owned();
                text::push_decimal(&mut line, *selected as u64);
                line.append(" is outside supported range ");
                text::push_decimal(&mut line, supported.min() as u64);
                line.append("..=");
                text::push_decimal(&mut line, supported.max() as u64);
                line
            },
            HandoverError::Aborted(reason) => {
                let mut line: String = "handover aborted: ".to_owned();
                line.append(reason.as_str());
                line
            },
        }
    }

    /// The error as a line of text. A transport failure ends in the text of the `std::io::Error`.
    pub fn to_string(&self) -> (line: String)
        ensures
            match *self {
                HandoverError::Io(error) => exists|cause: String| #[trigger]
                    call_ensures(io_error_text, (&error,), cause) && line@ == self@.described(
                        cause@,
                    ),
                _ => line@ == self@.described(seq![]),
            },
    {
        let cause: String = match self {
            HandoverError::Io(error) => io_error_text(error),
            _ => String::new(),
        };
        self.describe(cause.as_str())
    }

    /// The transport failure beneath this error, if it is one.
    pub fn source(&self) -> (r: Option<&std::io::Error>)
        ensures
            match self@ {
                ErrorView::Io(error) => r == Some(&error),
                _ => r is None,
            },
    {
        match self {
            HandoverError::Io(error) => Some(error),
            _ => None,
        }
    }
}

impl From<std::io::Error> for HandoverError {
    fn from(value: std::io::Error) -> (r: Self) {
        HandoverError::Io(value)
    }
}

impl vstd::std_specs::convert::FromSpecImpl<std::io::Error> for HandoverError {
    open spec fn obeys_from_spec() -> bool {
        true
    }

    open spec fn from_spec(value: std::io::Error) -> Self {
        HandoverError::Io(value)
    }
}

impl From<nix::Error> for HandoverError {
    /// An error of the system is a transport failure.
    fn from(value: nix::Error) -> (r: Self)
        ensures
            exists|error: std::io::Error| #[trigger]
                call_ensures(from_raw_os_error, (value,), error) && r@ == ErrorView::Io(error),
    {
        HandoverError::Io(from_raw_os_error(value))
    }
}

impl vstd::std_specs::convert::FromSpecImpl<nix::Error> for HandoverError {
    open spec fn obeys_from_spec() -> bool {
        false
    }

    open spec fn from_spec(value: nix::Error) -> Self {
        arbitrary()
    }
}

} // verus!
