//! What sets off a reload or a shutdown.

use vstd::prelude::*;
use vstd::string::*;

verus! {

/// Anything that can set off a reload or a shutdown: a signal of the kind `K` that comes in on
/// `G`, or a connection on the listener `L` at the path `P`.
#[derive(Debug)]
pub enum Trigger<K, G, P, L> {
    Signal(K, G),
    Uds(P, L),
}

/// What identifies the trigger that was triggered, and the connection that has to be kept while the
/// service changes state.
#[derive(Debug)]
pub enum TriggerReason<K, P, C> {
    Signal(K),
    UnixStream(P, C),
}

impl<K, G, P, L> Trigger<K, G, P, L> {
    /// What is left to remove of a trigger that is no longer used: the path of a listener. The
    /// trigger itself is gone.
    pub fn cleanup(self) -> (path: Option<P>)
        ensures
            path == match self {
                Trigger::Signal(_, _) => None,
                Trigger::Uds(path, _) => Some(path),
            },
    {
        match self {
            Trigger::Signal(_kind, _signals) => None,
            Trigger::Uds(path, _listener) => Some(path),
        }
    }
}

/// What a listener did next: it ended, failed to accept a connection, with the text of the error,
/// or accepted one.
#[derive(Debug)]
pub enum Accepted<C> {
    Ended,
    Failed(String),
    Connection(C),
}

/// The reason that a signal gives.
pub fn signal_reason<K, P, C>(kind: K) -> (r: TriggerReason<K, P, C>)
    ensures
        r == TriggerReason::<K, P, C>::Signal(kind),
{
    TriggerReason::Signal(kind)
}

/// The reason that what happened on a listener gives, or what to say of it. A listener never comes
/// to its end in good order.
pub fn listener_reason<K, P, C>(path: P, accepted: Accepted<C>) -> (r: Result<
    TriggerReason<K, P, C>,
    String,
>)
    ensures
        match accepted {
            Accepted::Ended => r matches Err(message) && message@
                == "Socket shut down unexpectedly."@,
            Accepted::Failed(error) => r matches Err(message) && message@
                == "Unexpected error accepting connection on socket: "@ + error@,
            Accepted::Connection(connection) => r == Ok::<TriggerReason<K, P, C>, String>(
                TriggerReason::UnixStream(path, connection),
            ),
        },
{
    match accepted {
        Accepted::Ended => Err("Socket shut down unexpectedly.".to_owned()),
        Accepted::Failed(error) => {
            let mut message: String = "Unexpected error accepting connection on socket: ".to_owned();
            message.append(error.as_str());
            Err(message)
        },
        Accepted::Connection(connection) => Ok(TriggerReason::UnixStream(path, connection)),
    }
}

/// A signal gives itself as the reason; a connection gives itself and where it came in; and a listener
/// that ended or failed gives no reason but says what happened, the failure word for word. Of a
/// trigger that is no longer used only the path of a listener is left.
pub proof fn law_triggers_give_their_reason<K, G, P, L, C>(
    kind: K,
    signal: TriggerReason<K, P, C>,
    path: P,
    accepted: Accepted<C>,
    reason: Result<TriggerReason<K, P, C>, String>,
    trigger: Trigger<K, G, P, L>,
    left: Option<P>,
)
    requires
        call_ensures(signal_reason::<K, P, C>, (kind,), signal),
        call_ensures(listener_reason::<K, P, C>, (path, accepted), reason),
        call_ensures(Trigger::<K, G, P, L>::cleanup, (trigger,), left),
    ensures
        signal == TriggerReason::<K, P, C>::Signal(kind),
        accepted matches Accepted::Connection(connection) ==> reason == Ok::<
            TriggerReason<K, P, C>,
            String,
        >(TriggerReason::UnixStream(path, connection)),
        accepted is Ended ==> (reason matches Err(message) && message@
            == "Socket shut down unexpectedly."@),
        accepted matches Accepted::Failed(error) ==> (reason matches Err(message) && message@
            == "Unexpected error accepting connection on socket: "@ + error@),
        trigger is Signal ==> left is None,
        trigger matches Trigger::Uds(at, _) ==> left == Some(at),
{
}

} // verus!
