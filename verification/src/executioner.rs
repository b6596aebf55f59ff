//! Upgrades: starting a new generation, and waiting for it to be ready.

use vstd::prelude::*;
use vstd::string::*;

use crate::text;

verus! {

/// `bincode::ErrorKind`, carried along and never looked into.
#[verifier::external_type_specification]
#[verifier::external_body]
pub struct ExBincodeErrorKind(bincode::ErrorKind);

/// The reason an upgrade attempt did not result in a ready child process.
///
/// Most of these are recoverable: the parent keeps its listening sockets, returns to the
/// listening state, and retries on the next upgrade trigger.
#[derive(Debug)]
#[non_exhaustive]
pub enum UpgradeError {
    ChildExit,
    ChildTimeout,
    NotStarted(String),
    SerializationError(bincode::Error),
    /// A failure in the upgrade machinery itself rather than in the child process lifecycle,
    /// such as failing to notify systemd or failing to receive the result of the upgrade.
    /// Unlike the other variants this is *not* recoverable.
    Internal(String),
}

/// An [`UpgradeError`] with its text as a sequence of characters.
pub enum UpgradeErrorView {
    ChildExit,
    ChildTimeout,
    NotStarted(Seq<char>),
    SerializationError(bincode::Error),
    Internal(Seq<char>),
}

impl View for UpgradeError {
    type V = UpgradeErrorView;

    open spec fn view(&self) -> UpgradeErrorView {
        match *self {
            UpgradeError::ChildExit => UpgradeErrorView::ChildExit,
            UpgradeError::ChildTimeout => UpgradeErrorView::ChildTimeout,
            UpgradeError::NotStarted(detail) => UpgradeErrorView::NotStarted(detail@),
            UpgradeError::SerializationError(error) => UpgradeErrorView::SerializationError(error),
            UpgradeError::Internal(detail) => UpgradeErrorView::Internal(detail@),
        }
    }
}

pub type UpgradeFinished = Result<(), UpgradeError>;

/// How an upgrade, or a part of it, came out.
pub open spec fn outcome(finished: UpgradeFinished) -> Result<(), UpgradeErrorView> {
    match finished {
        Ok(_) => Ok(()),
        Err(error) => Err(error@),
    }
}

impl UpgradeErrorView {
    /// The kind of failure.
    pub open spec fn reason(self) -> Seq<char> {
        match self {
            UpgradeErrorView::ChildExit => "child_exit"@,
            UpgradeErrorView::ChildTimeout => "child_timeout"@,
            UpgradeErrorView::NotStarted(_) => "not_started"@,
            UpgradeErrorView::SerializationError(_) => "serialization_error"@,
            UpgradeErrorView::Internal(_) => "internal"@,
        }
    }

    /// The error as a line of text, where `cause` is the text of a serialization error.
    pub open spec fn described(self, cause: Seq<char>) -> Seq<char> {
        match self {
            UpgradeErrorView::ChildExit => "child exited unexpectedly"@,
            UpgradeErrorView::ChildTimeout => "timed out waiting for ready signal from child"@,
            UpgradeErrorView::NotStarted(detail) => "upgrade not started: "@ + detail,
            UpgradeErrorView::SerializationError(_) => "serialization error: "@ + cause,
            UpgradeErrorView::Internal(detail) => "internal error: "@ + detail,
        }
    }
}

/// The `Debug` form of a `bincode::Error`. Nothing is claimed of it: there may be an error of the
/// system beneath.
#[verifier::external_body]
pub fn bincode_error_text(error: &bincode::Error) -> (text: String) {
    format!("{:?}", error)
}

impl UpgradeError {
    /// Every value [`UpgradeError::reason`] can currently return.
    ///
    /// Useful for zero-initializing a metric labelled by reason, so that alerting rules do not
    /// have to cope with a missing series before the first failure occurs. Because
    /// [`UpgradeError`] is `non_exhaustive`, treat this as the set of reasons known at compile
    /// time rather than an exhaustive set for all time.
    pub const REASONS: [&'static str; 5] = [
        "child_exit",
        "child_timeout",
        "not_started",
        "serialization_error",
        "internal",
    ];

    /// A stable, low-cardinality identifier for the kind of failure, suitable for use as a
    /// metric label.
    ///
    /// Prefer this over the text of the error for labels: the `NotStarted`,
    /// `SerializationError`, and `Internal` variants all carry unbounded detail that would
    /// otherwise blow up label cardinality.
    pub fn reason(&self) -> (r: &'static str)
        ensures
            r@ == self@.reason(),
    {
        match self {
            UpgradeError::ChildExit => "child_exit",
            UpgradeError::ChildTimeout => "child_timeout",
            UpgradeError::NotStarted(_) => "not_started",
            UpgradeError::SerializationError(_) => "serialization_error",
            UpgradeError::Internal(_) => "internal",
        }
    }

    /// The error as a line of text, where `cause` is the text of a serialization error.
    pub fn describe(&self, cause: &str) -> (line: String)
        ensures
            line@ == self@.described(cause@),
    {
        match self {
            UpgradeError::ChildExit => "child exited unexpectedly".to_owned(),
            UpgradeError::ChildTimeout => "timed out waiting for ready signal from child".to_owned(),
            UpgradeError::NotStarted(detail) => {
                let mut line: String = "upgrade not started: ".to_owned();
                line.append(detail.as_str());
                line
            },
            UpgradeError::SerializationError(_) => {
                let mut line: String = "serialization error: ".to_owned();
                line.append(cause);
                line
            },
            UpgradeError::Internal(detail) => {
                let mut line: String = "internal error: ".to_owned();
                line.append(detail.as_str());
                line
            },
        }
    }

    /// The error as a line of text. A serialization error ends in its own text.
    pub fn to_string(&self) -> (line: String)
        ensures
            match *self {
                UpgradeError::SerializationError(error) => exists|cause: String| #[trigger]
                    call_ensures(bincode_error_text, (&error,), cause) && line@ == self@.described(
                        cause@,
                    ),
                _ => line@ == self@.described(seq![]),
            },
    {
        let cause: String = match self {
            UpgradeError::SerializationError(error) => bincode_error_text(error),
            _ => String::new(),
        };
        self.describe(cause.as_str())
    }

    /// The serialization error beneath this error, if there is one.
    pub fn source(&self) -> (r: Option<&bincode::Error>)
        ensures
            match self@ {
                UpgradeErrorView::SerializationError(error) => r == Some(&error),
                _ => r is None,
            },
    {
        match self {
            UpgradeError::SerializationError(error) => Some(error),
            _ => None,
        }
    }
}

impl From<bincode::Error> for UpgradeError {
    fn from(error: bincode::Error) -> (r: Self) {
        UpgradeError::SerializationError(error)
    }
}

impl vstd::std_specs::convert::FromSpecImpl<bincode::Error> for UpgradeError {
    open spec fn obeys_from_spec() -> bool {
        true
    }

    open spec fn from_spec(error: bincode::Error) -> Self {
        UpgradeError::SerializationError(error)
    }
}

/// The `Debug` form of a `std::io::Error`. Nothing is claimed of it: for an error that the system
/// reported it holds the system's own wording.
#[verifier::external_body]
pub fn io_error_debug(error: &std::io::Error) -> (text: String) {
    format!("{:?}", error)
}

impl From<std::io::Error> for UpgradeError {
    /// An upgrade that failed before there was a child was not started.
    fn from(error: std::io::Error) -> (r: Self)
        ensures
            exists|detail: String| #[trigger]
                call_ensures(io_error_debug, (&error,), detail) && r@
                    == UpgradeErrorView::NotStarted(detail@),
    {
        UpgradeError::NotStarted(io_error_debug(&error))
    }
}

impl vstd::std_specs::convert::FromSpecImpl<std::io::Error> for UpgradeError {
    open spec fn obeys_from_spec() -> bool {
        false
    }

    open spec fn from_spec(error: std::io::Error) -> Self {
        arbitrary()
    }
}

/// A failure with no more to it than its kind: the one whose reason is listed at `i`.
spec fn listed_error(i: int) -> UpgradeErrorView {
    if i == 0 {
        UpgradeErrorView::ChildExit
    } else if i == 1 {
        UpgradeErrorView::ChildTimeout
    } else if i == 2 {
        UpgradeErrorView::NotStarted(seq![])
    } else if i == 3 {
        UpgradeErrorView::SerializationError(arbitrary())
    } else {
        UpgradeErrorView::Internal(seq![])
    }
}

/// Every reason that can be given is one of those that are listed, and every reason that is listed
/// can be given.
pub proof fn law_reasons_are_listed(error: UpgradeErrorView, i: int)
    ensures
        exists|k: int|
            0 <= k < UpgradeError::REASONS@.len() && #[trigger] UpgradeError::REASONS@[k]@
                == error.reason(),
        0 <= i < UpgradeError::REASONS@.len() ==> exists|given: UpgradeErrorView| #[trigger]
            given.reason() == UpgradeError::REASONS@[i]@,
{
    let reasons = UpgradeError::REASONS@;
    match error {
        UpgradeErrorView::ChildExit => {
            assert(reasons[0]@ == error.reason());
        },
        UpgradeErrorView::ChildTimeout => {
            assert(reasons[1]@ == error.reason());
        },
        UpgradeErrorView::NotStarted(_) => {
            assert(reasons[2]@ == error.reason());
        },
        UpgradeErrorView::SerializationError(_) => {
            assert(reasons[3]@ == error.reason());
        },
        UpgradeErrorView::Internal(_) => {
            assert(reasons[4]@ == error.reason());
        },
    }
    if 0 <= i < reasons.len() {
        assert(listed_error(i).reason() == reasons[i]@);
    }
}

/// The reason tells the kinds of failure apart, and nothing else: two failures have the same reason
/// if and only if they are of the same kind, whatever detail they carry.
pub proof fn law_reasons_tell_the_kinds_apart(a: UpgradeErrorView, b: UpgradeErrorView)
    ensures
        a.reason() == b.reason() <==> match a {
            UpgradeErrorView::ChildExit => b is ChildExit,
            UpgradeErrorView::ChildTimeout => b is ChildTimeout,
            UpgradeErrorView::NotStarted(_) => b is NotStarted,
            UpgradeErrorView::SerializationError(_) => b is SerializationError,
            UpgradeErrorView::Internal(_) => b is Internal,
        },
{
    reveal_strlit("child_exit");
    reveal_strlit("child_timeout");
    reveal_strlit("not_started");
    reveal_strlit("serialization_error");
    reveal_strlit("internal");
    assert("child_exit"@.len() == 10);
    assert("child_timeout"@.len() == 13);
    assert("not_started"@.len() == 11);
    assert("serialization_error"@.len() == 19);
    assert("internal"@.len() == 8);
}

/// Where an upgrade stands: what it waits to be told.
#[derive(Debug)]
pub enum UpgradeState {
    /// Whether another upgrade is in progress.
    Claiming,
    /// How creating the pipes to the child came out.
    CreatingPipes,
    /// How starting the child came out.
    Spawning,
    /// What the worker says that waits for the child to be ready.
    AwaitingReady,
    /// What the worker says that watches over the child. What the other said is kept.
    AwaitingChild(UpgradeFinished),
    /// Nothing: the upgrade is over.
    Done,
}

/// An [`UpgradeState`] without the code that carries it.
pub enum UpgradeStateView {
    Claiming,
    CreatingPipes,
    Spawning,
    AwaitingReady,
    AwaitingChild(Result<(), UpgradeErrorView>),
    Done,
}

impl View for UpgradeState {
    type V = UpgradeStateView;

    open spec fn view(&self) -> UpgradeStateView {
        match *self {
            UpgradeState::Claiming => UpgradeStateView::Claiming,
            UpgradeState::CreatingPipes => UpgradeStateView::CreatingPipes,
            UpgradeState::Spawning => UpgradeStateView::Spawning,
            UpgradeState::AwaitingReady => UpgradeStateView::AwaitingReady,
            UpgradeState::AwaitingChild(ready) => UpgradeStateView::AwaitingChild(outcome(ready)),
            UpgradeState::Done => UpgradeStateView::Done,
        }
    }
}

/// What an upgrade is told.
#[derive(Debug)]
pub enum UpgradeEvent {
    /// The flag that an upgrade is in progress was set, and was set before or not.
    Claimed { already_upgrading: bool },
    PipesCreated(UpgradeFinished),
    Spawned(UpgradeFinished),
    /// The worker that waits for the child to be ready is done. It said nothing if it died.
    ReadyJoined(Option<UpgradeFinished>),
    /// The worker that watches over the child is done.
    ChildJoined(UpgradeFinished),
}

/// An [`UpgradeEvent`] without the code that carries it.
pub enum UpgradeEventView {
    Claimed { already_upgrading: bool },
    PipesCreated(Result<(), UpgradeErrorView>),
    Spawned(Result<(), UpgradeErrorView>),
    ReadyJoined(Option<Result<(), UpgradeErrorView>>),
    ChildJoined(Result<(), UpgradeErrorView>),
}

impl View for UpgradeEvent {
    type V = UpgradeEventView;

    open spec fn view(&self) -> UpgradeEventView {
        match *self {
            UpgradeEvent::Claimed { already_upgrading } => {
                UpgradeEventView::Claimed { already_upgrading }
            },
            UpgradeEvent::PipesCreated(finished) => {
                UpgradeEventView::PipesCreated(outcome(finished))
            },
            UpgradeEvent::Spawned(finished) => UpgradeEventView::Spawned(outcome(finished)),
            UpgradeEvent::ReadyJoined(None) => UpgradeEventView::ReadyJoined(None),
            UpgradeEvent::ReadyJoined(Some(finished)) => {
                UpgradeEventView::ReadyJoined(Some(outcome(finished)))
            },
            UpgradeEvent::ChildJoined(finished) => UpgradeEventView::ChildJoined(outcome(finished)),
        }
    }
}

/// What to do next.
#[derive(Debug)]
pub enum UpgradeAction {
    CreatePipes,
    Spawn,
    /// Send the listeners to the child, watch over it, and wait for it to be ready, each in a
    /// worker of its own; then join the one that waits.
    StartWorkers,
    /// Tell the worker that watches over the child of this upgrade that there is nothing more to
    /// wait for, wake it and join it.
    CancelWatchAndJoinChild,
    /// Clear the flag that an upgrade is in progress, and return.
    ReleaseAndReturn(UpgradeFinished),
    /// Join the worker that sends the listeners, whatever it says, clear the flag that an upgrade
    /// is in progress, and return.
    JoinSenderReleaseAndReturn(UpgradeFinished),
    Return(UpgradeFinished),
}

/// An [`UpgradeAction`] without the code that carries it.
pub enum UpgradeActionView {
    CreatePipes,
    Spawn,
    StartWorkers,
    CancelWatchAndJoinChild,
    ReleaseAndReturn(Result<(), UpgradeErrorView>),
    JoinSenderReleaseAndReturn(Result<(), UpgradeErrorView>),
    Return(Result<(), UpgradeErrorView>),
}

impl View for UpgradeAction {
    type V = UpgradeActionView;

    open spec fn view(&self) -> UpgradeActionView {
        match *self {
            UpgradeAction::CreatePipes => UpgradeActionView::CreatePipes,
            UpgradeAction::Spawn => UpgradeActionView::Spawn,
            UpgradeAction::StartWorkers => UpgradeActionView::StartWorkers,
            UpgradeAction::CancelWatchAndJoinChild => UpgradeActionView::CancelWatchAndJoinChild,
            UpgradeAction::ReleaseAndReturn(finished) => {
                UpgradeActionView::ReleaseAndReturn(outcome(finished))
            },
            UpgradeAction::JoinSenderReleaseAndReturn(finished) => {
                UpgradeActionView::JoinSenderReleaseAndReturn(outcome(finished))
            },
            UpgradeAction::Return(finished) => UpgradeActionView::Return(outcome(finished)),
        }
    }
}

impl UpgradeActionView {
    /// Whether the flag that an upgrade is in progress is cleared.
    pub open spec fn releases(self) -> bool {
        self is ReleaseAndReturn || self is JoinSenderReleaseAndReturn
    }

    /// What the upgrade returns, if it does.
    pub open spec fn returned(self) -> Option<Result<(), UpgradeErrorView>> {
        match self {
            UpgradeActionView::ReleaseAndReturn(finished) => Some(finished),
            UpgradeActionView::JoinSenderReleaseAndReturn(finished) => Some(finished),
            UpgradeActionView::Return(finished) => Some(finished),
            _ => None,
        }
    }
}

impl UpgradeStateView {
    /// Whether this is what the upgrade waits to be told.
    pub open spec fn awaits(self, event: UpgradeEventView) -> bool {
        match self {
            UpgradeStateView::Claiming => event is Claimed,
            UpgradeStateView::CreatingPipes => event is PipesCreated,
            UpgradeStateView::Spawning => event is Spawned,
            UpgradeStateView::AwaitingReady => event is ReadyJoined,
            UpgradeStateView::AwaitingChild(_) => event is ChildJoined,
            UpgradeStateView::Done => false,
        }
    }

    /// Whether this upgrade is in progress: it was let in, and is not over.
    pub open spec fn in_progress(self) -> bool {
        !(self is Claiming) && !(self is Done)
    }

    /// How the upgrade goes on.
    pub open spec fn next(self, event: UpgradeEventView) -> (UpgradeStateView, UpgradeActionView) {
        match (self, event) {
            (UpgradeStateView::Claiming, UpgradeEventView::Claimed { already_upgrading }) => {
                if already_upgrading {
                    (
                        UpgradeStateView::Done,
                        UpgradeActionView::Return(
                            Err(UpgradeErrorView::NotStarted("Already in upgrade"@)),
                        ),
                    )
                } else {
                    (UpgradeStateView::CreatingPipes, UpgradeActionView::CreatePipes)
                }
            },
            (UpgradeStateView::CreatingPipes, UpgradeEventView::PipesCreated(finished)) => {
                match finished {
                    Ok(_) => (UpgradeStateView::Spawning, UpgradeActionView::Spawn),
                    Err(error) => (
                        UpgradeStateView::Done,
                        UpgradeActionView::ReleaseAndReturn(Err(error)),
                    ),
                }
            },
            (UpgradeStateView::Spawning, UpgradeEventView::Spawned(finished)) => {
                match finished {
                    Ok(_) => (UpgradeStateView::AwaitingReady, UpgradeActionView::StartWorkers),
                    Err(error) => (
                        UpgradeStateView::Done,
                        UpgradeActionView::ReleaseAndReturn(Err(error)),
                    ),
                }
            },
            (UpgradeStateView::AwaitingReady, UpgradeEventView::ReadyJoined(ready)) => {
                (
                    UpgradeStateView::AwaitingChild(
                        match ready {
                            Some(finished) => finished,
                            None => Err(UpgradeErrorView::ChildExit),
                        },
                    ),
                    UpgradeActionView::CancelWatchAndJoinChild,
                )
            },
            (UpgradeStateView::AwaitingChild(ready), UpgradeEventView::ChildJoined(watched)) => {
                (
                    UpgradeStateView::Done,
                    UpgradeActionView::JoinSenderReleaseAndReturn(
                        match watched {
                            Ok(_) => ready,
                            Err(error) => Err(error),
                        },
                    ),
                )
            },
            _ => arbitrary(),
        }
    }
}

/// How an upgrade goes on from `state` when it is told `event`. It starts by claiming the flag that
/// an upgrade is in progress, and clears it again as the last thing it does, however it comes out,
/// unless the flag was set on behalf of another upgrade.
///
/// The worker that waits for the child to be ready decides when to move on. Once it has, the worker
/// that watches over the child of this upgrade is told to come to its end; if that one says that the
/// child exited, this holds even where the child had declared itself ready.
pub fn upgrade(state: UpgradeState, event: UpgradeEvent) -> (r: (UpgradeState, UpgradeAction))
    requires
        state@.awaits(event@),
    ensures
        (r.0@, r.1@) == state@.next(event@),
{
    match (state, event) {
        (UpgradeState::Claiming, UpgradeEvent::Claimed { already_upgrading }) => {
            if already_upgrading {
                (
                    UpgradeState::Done,
                    UpgradeAction::Return(
                        Err(UpgradeError::NotStarted("Already in upgrade".to_owned())),
                    ),
                )
            } else {
                (UpgradeState::CreatingPipes, UpgradeAction::CreatePipes)
            }
        },
        (UpgradeState::CreatingPipes, UpgradeEvent::PipesCreated(Ok(_))) => {
            (UpgradeState::Spawning, UpgradeAction::Spawn)
        },
        (UpgradeState::CreatingPipes, UpgradeEvent::PipesCreated(Err(error))) => {
            (UpgradeState::Done, UpgradeAction::ReleaseAndReturn(Err(error)))
        },
        (UpgradeState::Spawning, UpgradeEvent::Spawned(Ok(_))) => {
            (UpgradeState::AwaitingReady, UpgradeAction::StartWorkers)
        },
        (UpgradeState::Spawning, UpgradeEvent::Spawned(Err(error))) => {
            (UpgradeState::Done, UpgradeAction::ReleaseAndReturn(Err(error)))
        },
        (UpgradeState::AwaitingReady, UpgradeEvent::ReadyJoined(ready)) => {
            let ready: UpgradeFinished = match ready {
                Some(finished) => finished,
                None => Err(UpgradeError::ChildExit),
            };
            (UpgradeState::AwaitingChild(ready), UpgradeAction::CancelWatchAndJoinChild)
        },
        (UpgradeState::AwaitingChild(ready), UpgradeEvent::ChildJoined(watched)) => {
            let finished: UpgradeFinished = match watched {
                Ok(_) => ready,
                Err(error) => Err(error),
            };
            (UpgradeState::Done, UpgradeAction::JoinSenderReleaseAndReturn(finished))
        },
        _ => {
            assert(false);
            (
                UpgradeState::Done,
                UpgradeAction::Return(
                    Err(UpgradeError::Internal("unexpected event in upgrade".to_owned())),
                ),
            )
        },
    }
}

/// The upgrades of a process that were ever begun, and the flag that one is in progress.
pub struct Upgrades {
    pub flag: bool,
    pub runs: Seq<UpgradeStateView>,
}

impl Upgrades {
    /// Of all upgrades at most one was let in and is not over, and the flag says whether there is
    /// one.
    pub open spec fn exclusive(self) -> bool {
        &&& forall|i: int, j: int|
            0 <= i < self.runs.len() && 0 <= j < self.runs.len()
                && #[trigger] self.runs[i].in_progress() && #[trigger] self.runs[j].in_progress() ==> i
                == j
        &&& self.flag <==> exists|i: int|
            0 <= i < self.runs.len() && #[trigger] self.runs[i].in_progress()
    }

    /// One more upgrade.
    pub open spec fn begun(self) -> Upgrades {
        Upgrades { flag: self.flag, runs: self.runs.push(UpgradeStateView::Claiming) }
    }

    /// Whether the upgrade `i` can be told `event`. Setting the flag tells what it was before.
    pub open spec fn possible(self, i: int, event: UpgradeEventView) -> bool {
        &&& 0 <= i < self.runs.len()
        &&& self.runs[i].awaits(event)
        &&& event matches UpgradeEventView::Claimed { already_upgrading } ==> already_upgrading
            == self.flag
    }

    /// The upgrades after the upgrade `i` was told `event`, and did what it then does.
    pub open spec fn told(self, i: int, event: UpgradeEventView) -> Upgrades {
        let (next, action) = self.runs[i].next(event);
        Upgrades {
            flag: if event is Claimed {
                true
            } else if action.releases() {
                false
            } else {
                self.flag
            },
            runs: self.runs.update(i, next),
        }
    }
}

/// Only a single upgrade is ever run at a time, from the start of the process on, whatever is begun
/// and in whatever order things happen.
pub proof fn law_one_upgrade_at_a_time(upgrades: Upgrades, i: int, event: UpgradeEventView)
    requires
        upgrades.exclusive(),
    ensures
        (Upgrades { flag: false, runs: seq![] }).exclusive(),
        upgrades.begun().exclusive(),
        upgrades.possible(i, event) ==> upgrades.told(i, event).exclusive(),
{
    let begun = upgrades.begun();
    if upgrades.flag {
        let k = choose|k: int| 0 <= k < upgrades.runs.len() && upgrades.runs[k].in_progress();
        assert(begun.runs[k].in_progress());
    }
    assert forall|a: int, b: int|
        0 <= a < begun.runs.len() && 0 <= b < begun.runs.len()
            && #[trigger] begun.runs[a].in_progress() && #[trigger] begun.runs[b].in_progress() implies a
        == b by {
        assert(a < upgrades.runs.len() && b < upgrades.runs.len());
        assert(upgrades.runs[a].in_progress() && upgrades.runs[b].in_progress());
    }
    if begun.flag == false && exists|k: int|
        0 <= k < begun.runs.len() && #[trigger] begun.runs[k].in_progress() {
        let k = choose|k: int| 0 <= k < begun.runs.len() && begun.runs[k].in_progress();
        assert(upgrades.runs[k].in_progress());
    }
    if upgrades.possible(i, event) {
        let told = upgrades.told(i, event);
        let (next, action) = upgrades.runs[i].next(event);
        assert(told.runs[i] == next);
        assert forall|k: int| 0 <= k < told.runs.len() && k != i implies #[trigger] told.runs[k]
            == upgrades.runs[k] by {}
        if upgrades.runs[i].in_progress() {
            assert forall|k: int| 0 <= k < told.runs.len() && k != i implies !(
            #[trigger] told.runs[k].in_progress()) by {
                if told.runs[k].in_progress() {
                    assert(upgrades.runs[k].in_progress());
                }
            }
            assert(told.flag <==> next.in_progress());
        } else {
            assert(event is Claimed);
            if upgrades.flag {
                let k = choose|k: int|
                    0 <= k < upgrades.runs.len() && upgrades.runs[k].in_progress();
                assert(told.runs[k].in_progress());
            } else {
                assert(told.runs[i].in_progress());
                assert forall|k: int| 0 <= k < told.runs.len() && k != i implies !(
                #[trigger] told.runs[k].in_progress()) by {
                    if told.runs[k].in_progress() {
                        assert(upgrades.runs[k].in_progress());
                    }
                }
            }
        }
        assert forall|a: int, b: int|
            0 <= a < told.runs.len() && 0 <= b < told.runs.len()
                && #[trigger] told.runs[a].in_progress()
                && #[trigger] told.runs[b].in_progress() implies a == b by {
            if a != i && b != i {
                assert(upgrades.runs[a].in_progress() && upgrades.runs[b].in_progress());
            }
        }
    }
}

/// A failed upgrade is no obstacle to the next: an upgrade is turned away while another one is in
/// progress, up to its very end, and at no other time.
pub proof fn law_upgrades_can_be_retried(upgrades: Upgrades, i: int, event: UpgradeEventView)
    requires
        upgrades.exclusive(),
        upgrades.possible(i, event),
        upgrades.runs[i] is Claiming,
    ensures
        if exists|k: int| 0 <= k < upgrades.runs.len() && #[trigger] upgrades.runs[k].in_progress() {
            upgrades.runs[i].next(event) == (
                UpgradeStateView::Done,
                UpgradeActionView::Return(
                    Err(UpgradeErrorView::NotStarted("Already in upgrade"@)),
                ),
            )
        } else {
            upgrades.runs[i].next(event) == (
                UpgradeStateView::CreatingPipes,
                UpgradeActionView::CreatePipes,
            )
        },
{
}

/// An upgrade returns when it is over and not before. Whoever was let in clears the flag in that
/// last step and not before; whoever was turned away leaves it alone.
pub proof fn law_upgrades_release_the_flag(state: UpgradeStateView, event: UpgradeEventView)
    requires
        state.awaits(event),
    ensures
        ({
            let (next, action) = state.next(event);
            &&& action.returned() is Some <==> next is Done
            &&& action.releases() <==> state.in_progress() && next is Done
            &&& state.in_progress() && !(next is Done) ==> next.in_progress()
        }),
{
}

/// An upgrade succeeds if and only if the child declared itself ready and was still running when
/// the watch over it ended. A child that exits or is too late fails the upgrade, ready or not.
pub proof fn law_upgrade_needs_a_running_child(
    ready: Option<Result<(), UpgradeErrorView>>,
    watched: Result<(), UpgradeErrorView>,
)
    ensures
        ({
            let (waiting, _) = UpgradeStateView::AwaitingReady.next(
                UpgradeEventView::ReadyJoined(ready),
            );
            let (_, end) = waiting.next(UpgradeEventView::ChildJoined(watched));
            &&& end.returned() == Some(Ok::<(), UpgradeErrorView>(())) <==> ready == Some(
                Ok::<(), UpgradeErrorView>(()),
            ) && watched is Ok
            &&& watched is Err ==> end.returned() == Some(watched)
        }),
{
}

/// How long a child has to declare itself ready.
pub const CHILD_TIMEOUT_MILLIS: u128 = 5000;

/// How long to sleep between two looks at the child.
pub const CHILD_POLL_MILLIS: u64 = 500;

/// Where the watch over a child stands: what it waits to be told.
#[derive(Debug)]
pub enum WatchState {
    /// How long the child has been running.
    Timing,
    /// Whether the child is running.
    Polling,
    /// Whether there is nothing more to wait for.
    Checking,
    /// Whether the child is running, for the last time.
    LastPolling,
    /// Nothing: the watch is over.
    Done,
}

/// What the watch over a child is told.
#[derive(Debug)]
pub enum WatchEvent {
    /// The child was started so many milliseconds ago.
    Elapsed(u128),
    /// What asking for the child's exit status gave: none while it is running, its status once it
    /// has exited, or a failure.
    Polled(Result<Option<i32>, ()>),
    /// Whether the upgrade to which the child belongs has moved on, and the watch is to end.
    Cancelled(bool),
}

/// What to do next.
#[derive(Debug)]
pub enum WatchAction {
    ReadClock,
    /// Sleep for so many milliseconds, then see whether the child is running.
    SleepAndPoll(u64),
    /// See whether the upgrade to which the child belongs has moved on.
    ReadSignal,
    Poll,
    /// Kill the child, reap it, and return.
    KillAndReturn(UpgradeFinished),
    Return(UpgradeFinished),
}

/// Whether the child is still running. One of which that cannot be said counts as exited.
pub open spec fn still_running(polled: Result<Option<i32>, ()>) -> UpgradeFinished {
    if polled == Ok::<Option<i32>, ()>(None) {
        Ok(())
    } else {
        Err(UpgradeError::ChildExit)
    }
}

pub fn proc_wait(polled: Result<Option<i32>, ()>) -> (r: UpgradeFinished)
    ensures
        r == still_running(polled),
{
    match polled {
        Ok(None) => Ok(()),
        _ => Err(UpgradeError::ChildExit),
    }
}

impl WatchState {
    /// Whether this is what the watch waits to be told.
    pub open spec fn awaits(self, event: WatchEvent) -> bool {
        match self {
            WatchState::Timing => event is Elapsed,
            WatchState::Polling => event is Polled,
            WatchState::Checking => event is Cancelled,
            WatchState::LastPolling => event is Polled,
            WatchState::Done => false,
        }
    }

    /// How the watch goes on.
    pub open spec fn next(self, event: WatchEvent) -> (WatchState, WatchAction) {
        match (self, event) {
            (WatchState::Timing, WatchEvent::Elapsed(millis)) => {
                if millis < CHILD_TIMEOUT_MILLIS {
                    (WatchState::Polling, WatchAction::SleepAndPoll(CHILD_POLL_MILLIS))
                } else {
                    (
                        WatchState::Done,
                        WatchAction::KillAndReturn(Err(UpgradeError::ChildTimeout)),
                    )
                }
            },
            (WatchState::Polling, WatchEvent::Polled(polled)) => {
                match still_running(polled) {
                    Ok(_) => (WatchState::Checking, WatchAction::ReadSignal),
                    Err(error) => (WatchState::Done, WatchAction::Return(Err(error))),
                }
            },
            (WatchState::Checking, WatchEvent::Cancelled(cancelled)) => {
                if cancelled {
                    (WatchState::LastPolling, WatchAction::Poll)
                } else {
                    (WatchState::Timing, WatchAction::ReadClock)
                }
            },
            (WatchState::LastPolling, WatchEvent::Polled(polled)) => {
                (WatchState::Done, WatchAction::Return(still_running(polled)))
            },
            _ => arbitrary(),
        }
    }
}

/// How the watch over a child goes on from `state` when it is told `event`. It starts by looking at
/// the clock. The watch ends well if the child is running when the upgrade has moved on. If the child
/// exits, or its time is up, the watch ends badly; in the latter case the child is killed.
pub fn wait_child(state: WatchState, event: WatchEvent) -> (r: (WatchState, WatchAction))
    requires
        state.awaits(event),
    ensures
        r == state.next(event),
{
    match (state, event) {
        (WatchState::Timing, WatchEvent::Elapsed(millis)) => {
            if millis < CHILD_TIMEOUT_MILLIS {
                (WatchState::Polling, WatchAction::SleepAndPoll(CHILD_POLL_MILLIS))
            } else {
                (
                    WatchState::Done,
                    WatchAction::KillAndReturn(Err(UpgradeError::ChildTimeout)),
                )
            }
        },
        (WatchState::Polling, WatchEvent::Polled(polled)) => {
            match proc_wait(polled) {
                Ok(_) => (WatchState::Checking, WatchAction::ReadSignal),
                Err(error) => (WatchState::Done, WatchAction::Return(Err(error))),
            }
        },
        (WatchState::Checking, WatchEvent::Cancelled(cancelled)) => {
            if cancelled {
                (WatchState::LastPolling, WatchAction::Poll)
            } else {
                (WatchState::Timing, WatchAction::ReadClock)
            }
        },
        (WatchState::LastPolling, WatchEvent::Polled(polled)) => {
            (WatchState::Done, WatchAction::Return(proc_wait(polled)))
        },
        _ => {
            assert(false);
            (
                WatchState::Done,
                WatchAction::Return(
                    Err(UpgradeError::Internal("unexpected event in watch".to_owned())),
                ),
            )
        },
    }
}

/// A child has its full time to get ready: it is killed only once the time is up, and by then
/// always.
pub proof fn law_children_have_their_time(state: WatchState, event: WatchEvent)
    requires
        state.awaits(event),
    ensures
        state.next(event).1 is KillAndReturn <==> (event matches WatchEvent::Elapsed(millis)
            && millis >= CHILD_TIMEOUT_MILLIS),
{
}

/// The watch ends well only over a running child, after the upgrade has moved on; a child that
/// exited, or of which it cannot be said that it is running, is always reported.
pub proof fn law_watch_tells_the_truth(state: WatchState, event: WatchEvent)
    requires
        state.awaits(event),
    ensures
        state.next(event).1 == WatchAction::Return(Ok(())) <==> state is LastPolling && event
            == WatchEvent::Polled(Ok(None)),
        event is Polled && event != WatchEvent::Polled(Ok(None)) ==> state.next(event) == (
            WatchState::Done,
            WatchAction::Return(Err(UpgradeError::ChildExit)),
        ),
        state.next(event).0 is LastPolling ==> event == WatchEvent::Cancelled(true),
{
}

/// The watch always comes round to the clock: from one look at it the watch either ends, or sleeps
/// for the fixed while, asks for the child, sees whether the upgrade has moved on, and looks at the
/// clock again or asks for the child one last time, which ends it. So it is over at the latest with
/// the first look at the clock that finds the time up.
pub proof fn law_watch_comes_round_to_the_clock(
    clock: WatchEvent,
    poll: WatchEvent,
    signal: WatchEvent,
)
    ensures
        WatchState::Timing.awaits(clock) ==> {
            let (first, action) = WatchState::Timing.next(clock);
            &&& first is Done || first is Polling
            &&& first is Polling <==> action == WatchAction::SleepAndPoll(CHILD_POLL_MILLIS)
            &&& first is Done <==> action is KillAndReturn
            &&& first is Done <==> (clock matches WatchEvent::Elapsed(millis) && millis
                >= CHILD_TIMEOUT_MILLIS)
            &&& first.awaits(poll) ==> {
                let (second, _) = first.next(poll);
                &&& second is Done || second is Checking
                &&& second.awaits(signal) ==> second.next(signal) == (
                    WatchState::Timing,
                    WatchAction::ReadClock,
                ) || second.next(signal) == (WatchState::LastPolling, WatchAction::Poll)
            }
        },
        WatchState::LastPolling.awaits(poll) ==> WatchState::LastPolling.next(poll).0 is Done,
{
}

/// What a child writes once it is ready, or what the parent makes of anything else. Nothing was
/// read if the child closed the pipe before it had written two bytes.
pub fn wait_ready(read: Option<[u8; 2]>) -> (r: UpgradeFinished)
    ensures
        r == (if read matches Some(bytes) && bytes[0] == 0x4f && bytes[1] == 0x4b {
            Ok::<(), UpgradeError>(())
        } else {
            Err::<(), UpgradeError>(UpgradeError::ChildExit)
        }),
{
    match read {
        Some(bytes) => {
            if bytes[0] == 0x4f && bytes[1] == 0x4b {
                return Ok(());
            }
            Err(UpgradeError::ChildExit)
        },
        None => Err(UpgradeError::ChildExit),
    }
}

pub const ENV_UPGRADE: &'static str = "ECDYSIS_RUST_UPGRADE";

pub const ENV_PIPE_READY: &'static str = "ECDYSIS_RUST_PIPE_READY";

pub const ENV_PIPE_FDS: &'static str = "ECDYSIS_RUST_PIPE_FDS";

pub const UPGRADE_TRUE_VAL: &'static str = "yes";

/// How to start the next generation.
#[derive(Debug)]
pub struct ExecPlan {
    pub program: String,
    pub args: Vec<String>,
    /// The variables to set.
    pub env: Vec<(String, String)>,
    /// The variables to remove.
    pub env_remove: Vec<String>,
    /// The descriptors to keep open, to be marked so between fork and exec.
    pub inherit_fds: Vec<i32>,
}

/// The name and the value of a variable.
pub open spec fn setting(entry: (String, String)) -> (Seq<char>, Seq<char>) {
    (entry.0@, entry.1@)
}

/// The variables that a child finds.
pub open spec fn child_environment(recv_listeners_fd: i32, send_ready_fd: i32) -> Seq<
    (Seq<char>, Seq<char>),
> {
    seq![
        (ENV_UPGRADE@, UPGRADE_TRUE_VAL@),
        (ENV_PIPE_FDS@, text::signed_decimal(recv_listeners_fd as int)),
        (ENV_PIPE_READY@, text::signed_decimal(send_ready_fd as int)),
    ]
}

/// How to start the next generation: the same command line, and an environment that tells it that
/// it is an upgrade and where its pipes are. A service that takes sockets from systemd does not pass
/// on what systemd said of them.
pub fn exec_upgraded(
    run_args: Vec<String>,
    recv_listeners_fd: i32,
    send_ready_fd: i32,
    inherit_fds: Vec<i32>,
    systemd_sockets: bool,
) -> (plan: ExecPlan)
    requires
        run_args@.len() > 0,
    ensures
        plan.program == run_args@[0],
        plan.args@ == run_args@.skip(1),
        plan.env@.map_values(|entry: (String, String)| setting(entry)) == child_environment(
            recv_listeners_fd,
            send_ready_fd,
        ),
        text::contents(plan.env_remove@) == (if systemd_sockets {
            seq!["LISTEN_PID"@, "LISTEN_FDNAMES"@, "LISTEN_FDS"@]
        } else {
            seq![]
        }),
        plan.inherit_fds == inherit_fds,
{
    let mut args: Vec<String> = run_args;
    let program: String = args.remove(0);
    assert(args@ =~= run_args@.skip(1));
    let mut fds: String = String::new();
    text::push_signed(&mut fds, recv_listeners_fd);
    let mut ready: String = String::new();
    text::push_signed(&mut ready, send_ready_fd);
    let mut env: Vec<(String, String)> = Vec::new();
    env.push((ENV_UPGRADE.to_owned(), UPGRADE_TRUE_VAL.to_owned()));
    env.push((ENV_PIPE_FDS.to_owned(), fds));
    env.push((ENV_PIPE_READY.to_owned(), ready));
    let mut env_remove: Vec<String> = Vec::new();
    if systemd_sockets {
        env_remove.push("LISTEN_PID".to_owned());
        env_remove.push("LISTEN_FDNAMES".to_owned());
        env_remove.push("LISTEN_FDS".to_owned());
    }
    proof {
        assert(fds@ =~= text::signed_decimal(recv_listeners_fd as int));
        assert(ready@ =~= text::signed_decimal(send_ready_fd as int));
        assert(env@.map_values(|entry: (String, String)| setting(entry)) =~= child_environment(
            recv_listeners_fd,
            send_ready_fd,
        ));
        assert(text::contents(env_remove@) =~= (if systemd_sockets {
            seq!["LISTEN_PID"@, "LISTEN_FDNAMES"@, "LISTEN_FDS"@]
        } else {
            seq![]
        }));
    }
    ExecPlan { program, args, env, env_remove, inherit_fds }
}

/// An upgrade is a way through its stages, one after the other, out of which it may end early: what
/// each event leads to, for every event that can come.
pub proof fn law_upgrades_go_from_stage_to_stage(
    state: UpgradeState,
    event: UpgradeEvent,
    r: (UpgradeState, UpgradeAction),
)
    requires
        state@.awaits(event@),
        call_ensures(upgrade, (state, event), r),
    ensures
        event == (UpgradeEvent::Claimed { already_upgrading: true }) ==> r.0@
            == UpgradeStateView::Done && r.1@ == UpgradeActionView::Return(
            Err(UpgradeErrorView::NotStarted("Already in upgrade"@)),
        ),
        event == (UpgradeEvent::Claimed { already_upgrading: false }) ==> r.0@
            == UpgradeStateView::CreatingPipes && r.1@ == UpgradeActionView::CreatePipes,
        event matches UpgradeEvent::PipesCreated(Ok(_)) ==> r.0@ == UpgradeStateView::Spawning
            && r.1@ == UpgradeActionView::Spawn,
        event matches UpgradeEvent::PipesCreated(Err(error)) ==> r.0@ == UpgradeStateView::Done
            && r.1@ == UpgradeActionView::ReleaseAndReturn(Err(error@)),
        event matches UpgradeEvent::Spawned(Ok(_)) ==> r.0@ == UpgradeStateView::AwaitingReady
            && r.1@ == UpgradeActionView::StartWorkers,
        event matches UpgradeEvent::Spawned(Err(error)) ==> r.0@ == UpgradeStateView::Done && r.1@
            == UpgradeActionView::ReleaseAndReturn(Err(error@)),
        event is ReadyJoined ==> r.1@ == UpgradeActionView::CancelWatchAndJoinChild,
        event matches UpgradeEvent::ReadyJoined(Some(Ok(_))) ==> r.0@
            == UpgradeStateView::AwaitingChild(Ok(())),
        event matches UpgradeEvent::ReadyJoined(Some(Err(error))) ==> r.0@
            == UpgradeStateView::AwaitingChild(Err(error@)),
        event matches UpgradeEvent::ReadyJoined(None) ==> r.0@ == UpgradeStateView::AwaitingChild(
            Err(UpgradeErrorView::ChildExit),
        ),
        event is ChildJoined ==> r.0@ == UpgradeStateView::Done,
        event matches UpgradeEvent::ChildJoined(Err(error)) ==> r.1@
            == UpgradeActionView::JoinSenderReleaseAndReturn(Err(error@)),
        event matches UpgradeEvent::ChildJoined(Ok(_)) ==> (state@
            matches UpgradeStateView::AwaitingChild(ready) && r.1@
            == UpgradeActionView::JoinSenderReleaseAndReturn(ready)),
{
}

/// Each state that waits for something is entered with the one action that brings it about, and that
/// action is taken at no other time; where nothing is waited for any more, the upgrade returns.
pub proof fn law_actions_bring_about_what_is_awaited(
    state: UpgradeState,
    event: UpgradeEvent,
    r: (UpgradeState, UpgradeAction),
)
    requires
        state@.awaits(event@),
        call_ensures(upgrade, (state, event), r),
    ensures
        !(r.0@ is Claiming),
        r.0@ is CreatingPipes <==> r.1@ is CreatePipes,
        r.0@ is Spawning <==> r.1@ is Spawn,
        r.0@ is AwaitingReady <==> r.1@ is StartWorkers,
        r.0@ is AwaitingChild <==> r.1@ is CancelWatchAndJoinChild,
        r.0@ is Done <==> r.1@ is Return || r.1@ is ReleaseAndReturn
            || r.1@ is JoinSenderReleaseAndReturn,
{
}

/// Each state waits for one event, and an upgrade that is over for none.
pub proof fn law_states_await_one_event(state: UpgradeStateView, event: UpgradeEventView)
    ensures
        state.awaits(event) <==> match event {
            UpgradeEventView::Claimed { .. } => state is Claiming,
            UpgradeEventView::PipesCreated(_) => state is CreatingPipes,
            UpgradeEventView::Spawned(_) => state is Spawning,
            UpgradeEventView::ReadyJoined(_) => state is AwaitingReady,
            UpgradeEventView::ChildJoined(_) => state is AwaitingChild,
        },
{
}

/// How many children are started from `state` on, while the upgrade is told what it waits for.
pub open spec fn children_started(state: UpgradeStateView, events: Seq<UpgradeEventView>) -> nat
    decreases events.len(),
{
    if events.len() == 0 || !state.awaits(events[0]) {
        0
    } else {
        let (next, action) = state.next(events[0]);
        (if action is Spawn {
            1nat
        } else {
            0nat
        }) + children_started(next, events.drop_first())
    }
}

/// An upgrade starts at most one child, whatever happens, and none unless it was let in and had its
/// pipes.
pub proof fn law_one_child_for_an_upgrade(state: UpgradeStateView, events: Seq<UpgradeEventView>)
    ensures
        children_started(state, events) <= 1,
        !(state is Claiming) && !(state is CreatingPipes) ==> children_started(state, events) == 0,
    decreases events.len(),
{
    if events.len() > 0 && state.awaits(events[0]) {
        law_one_child_for_an_upgrade(state.next(events[0]).0, events.drop_first());
    }
}

/// A child has five seconds. While they last, the watch sleeps for half a second and then asks for
/// the child; once they are up, the child is killed and the watch says that it was too late, for
/// every reading of the clock.
pub proof fn law_watch_keeps_the_time(millis: u128, r: (WatchState, WatchAction))
    requires
        call_ensures(wait_child, (WatchState::Timing, WatchEvent::Elapsed(millis)), r),
    ensures
        millis < 5000 ==> r == (WatchState::Polling, WatchAction::SleepAndPoll(500)),
        millis >= 5000 ==> r == (
            WatchState::Done,
            WatchAction::KillAndReturn(Err(UpgradeError::ChildTimeout)),
        ),
{
}

/// Asking for the child: as long as it runs the watch goes on, and with the last question it ends
/// well. A child that has exited, with whatever status, or that cannot be asked for, ends the watch
/// badly.
pub proof fn law_watch_asks_for_the_child(
    polled: Result<Option<i32>, ()>,
    again: (WatchState, WatchAction),
    last: (WatchState, WatchAction),
    alone: UpgradeFinished,
)
    requires
        call_ensures(wait_child, (WatchState::Polling, WatchEvent::Polled(polled)), again),
        call_ensures(wait_child, (WatchState::LastPolling, WatchEvent::Polled(polled)), last),
        call_ensures(proc_wait, (polled,), alone),
    ensures
        polled matches Ok(None) ==> {
            &&& again == (WatchState::Checking, WatchAction::ReadSignal)
            &&& last == (WatchState::Done, WatchAction::Return(Ok(())))
            &&& alone == Ok::<(), UpgradeError>(())
        },
        !(polled matches Ok(None)) ==> {
            &&& again == (WatchState::Done, WatchAction::Return(Err(UpgradeError::ChildExit)))
            &&& last == again
            &&& alone == Err::<(), UpgradeError>(UpgradeError::ChildExit)
        },
{
}

/// The watch asks for the child one last time once the upgrade has moved on, and looks at the clock
/// again as long as it has not.
pub proof fn law_watch_follows_the_upgrade(cancelled: bool, r: (WatchState, WatchAction))
    requires
        call_ensures(wait_child, (WatchState::Checking, WatchEvent::Cancelled(cancelled)), r),
    ensures
        cancelled ==> r == (WatchState::LastPolling, WatchAction::Poll),
        !cancelled ==> r == (WatchState::Timing, WatchAction::ReadClock),
{
}

/// No end of the watch carries success, whether the child is killed or not, unless the child was last
/// seen running after the upgrade had moved on; and whenever the child is killed, the watch says that
/// it was too late.
pub proof fn law_watch_ends_well_only_over_a_running_child(
    state: WatchState,
    event: WatchEvent,
    r: (WatchState, WatchAction),
)
    requires
        state.awaits(event),
        call_ensures(wait_child, (state, event), r),
    ensures
        r.1 matches WatchAction::KillAndReturn(finished) ==> finished == Err::<(), UpgradeError>(
            UpgradeError::ChildTimeout,
        ),
        r.1 matches WatchAction::Return(Ok(_)) ==> state is LastPolling && (event
            matches WatchEvent::Polled(Ok(None))),
        r.0 is Done <==> r.1 is Return || r.1 is KillAndReturn,
        r.0 is Timing <==> r.1 is ReadClock,
        r.0 is Polling <==> r.1 is SleepAndPoll,
        r.0 is Checking <==> r.1 is ReadSignal,
        r.0 is LastPolling <==> r.1 is Poll,
{
}

/// Each state of the watch waits for one thing to be told, and a watch that is over for none.
pub proof fn law_watch_awaits_one_event(state: WatchState, event: WatchEvent)
    ensures
        state.awaits(event) <==> match event {
            WatchEvent::Elapsed(_) => state is Timing,
            WatchEvent::Polled(_) => state is Polling || state is LastPolling,
            WatchEvent::Cancelled(_) => state is Checking,
        },
{
}

/// A child is ready if and only if it wrote the two letters `OK`; anything else, and nothing, is taken
/// for its exit.
pub proof fn law_ready_is_two_letters(read: Option<[u8; 2]>, r: UpgradeFinished)
    requires
        call_ensures(wait_ready, (read,), r),
    ensures
        r is Ok <==> (read matches Some(bytes) && bytes@ == seq![79u8, 75u8]),
        r is Err ==> r == Err::<(), UpgradeError>(UpgradeError::ChildExit),
{
    if let Some(bytes) = read {
        if bytes@[0] == 79 && bytes@[1] == 75 {
            assert(bytes@ =~= seq![79u8, 75u8]);
        }
    }
}

/// An error says what kind of failure it is and then, word for word, the detail that it carries.
pub proof fn law_upgrade_errors_are_described(
    error: UpgradeError,
    cause: &str,
    line: String,
    whole: String,
)
    requires
        call_ensures(UpgradeError::describe, (&error, cause), line),
        call_ensures(UpgradeError::to_string, (&error,), whole),
    ensures
        match error {
            UpgradeError::ChildExit => line@ == "child exited unexpectedly"@ && whole@ == line@,
            UpgradeError::ChildTimeout => line@ == "timed out waiting for ready signal from child"@
                && whole@ == line@,
            UpgradeError::NotStarted(detail) => line@ == "upgrade not started: "@ + detail@
                && whole@ == line@,
            UpgradeError::SerializationError(beneath) => line@ == "serialization error: "@ + cause@
                && exists|own: String| #[trigger]
                call_ensures(bincode_error_text, (&beneath,), own) && whole@
                    == "serialization error: "@ + own@,
            UpgradeError::Internal(detail) => line@ == "internal error: "@ + detail@ && whole@
                == line@,
        },
{
}

/// Only a serialization error has an error beneath it, and each kind of failure has its own label.
pub proof fn law_upgrade_errors_are_labelled(
    error: UpgradeError,
    beneath: Option<&bincode::Error>,
    reason: &'static str,
)
    requires
        call_ensures(UpgradeError::source, (&error,), beneath),
        call_ensures(UpgradeError::reason, (&error,), reason),
    ensures
        match error {
            UpgradeError::ChildExit => beneath is None && reason@ == "child_exit"@,
            UpgradeError::ChildTimeout => beneath is None && reason@ == "child_timeout"@,
            UpgradeError::NotStarted(_) => beneath is None && reason@ == "not_started"@,
            UpgradeError::SerializationError(cause) => beneath == Some(&cause) && reason@
                == "serialization_error"@,
            UpgradeError::Internal(_) => beneath is None && reason@ == "internal"@,
        },
        reason@ == error@.reason(),
{
}

/// A child is started by the same command line, finds three variables set, that it is an upgrade and
/// the two ends of its pipes, and inherits the descriptors that it was to inherit. What systemd said
/// of sockets is removed if and only if the service takes sockets from systemd.
pub proof fn law_children_are_started_alike(
    run_args: Vec<String>,
    recv_listeners_fd: i32,
    send_ready_fd: i32,
    inherit_fds: Vec<i32>,
    systemd_sockets: bool,
    plan: ExecPlan,
)
    requires
        run_args@.len() > 0,
        call_ensures(
            exec_upgraded,
            (run_args, recv_listeners_fd, send_ready_fd, inherit_fds, systemd_sockets),
            plan,
        ),
    ensures
        seq![plan.program] + plan.args@ == run_args@,
        plan.env@.len() == 3,
        plan.env@[0].0@ == "ECDYSIS_RUST_UPGRADE"@ && plan.env@[0].1@ == "yes"@,
        plan.env@[1].0@ == "ECDYSIS_RUST_PIPE_FDS"@ && plan.env@[1].1@ == text::signed_decimal(
            recv_listeners_fd as int,
        ),
        plan.env@[2].0@ == "ECDYSIS_RUST_PIPE_READY"@ && plan.env@[2].1@ == text::signed_decimal(
            send_ready_fd as int,
        ),
        plan.inherit_fds@ == inherit_fds@,
        !systemd_sockets ==> plan.env_remove@.len() == 0,
        systemd_sockets ==> plan.env_remove@.len() == 3 && plan.env_remove@[0]@ == "LISTEN_PID"@
            && plan.env_remove@[1]@ == "LISTEN_FDNAMES"@ && plan.env_remove@[2]@ == "LISTEN_FDS"@,
{
    assert(seq![plan.program] + plan.args@ =~= run_args@);
    let env = plan.env@.map_values(|entry: (String, String)| setting(entry));
    assert(env.len() == 3);
    assert(env[0] == setting(plan.env@[0]));
    assert(env[1] == setting(plan.env@[1]));
    assert(env[2] == setting(plan.env@[2]));
    let removed = text::contents(plan.env_remove@);
    assert(removed.len() == plan.env_remove@.len());
    if systemd_sockets {
        assert(removed[0] == plan.env_remove@[0]@);
        assert(removed[1] == plan.env_remove@[1]@);
        assert(removed[2] == plan.env_remove@[2]@);
    }
}

/// A serialization error is kept as it is; an I/O error means that the upgrade was not started, with
/// what the error says of itself as the detail.
pub proof fn law_upgrade_errors_are_made_of_others(
    serialization: bincode::Error,
    kept: UpgradeError,
    io: std::io::Error,
    told: UpgradeError,
)
    requires
        call_ensures(<UpgradeError as From<bincode::Error>>::from, (serialization,), kept),
        call_ensures(<UpgradeError as From<std::io::Error>>::from, (io,), told),
    ensures
        kept == UpgradeError::SerializationError(serialization),
        exists|detail: String| #[trigger]
            call_ensures(io_error_debug, (&io,), detail) && told@ == UpgradeErrorView::NotStarted(
                detail@,
            ),
{
}

} // verus!
