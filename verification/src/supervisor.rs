//! What goes on and what stops when the service is told to exit.

use vstd::prelude::*;

verus! {

/// Why the service exits.
#[derive(Clone, Copy, Debug, Eq, PartialEq, Structural)]
pub enum ExitCondition {
    /// A new generation has taken over.
    Upgrade,
    /// The service shuts down.
    Stop,
    /// The service stops what may be stopped, and serves the rest to its end.
    PartialStop,
}

/// None means run.
pub type RunState = Option<ExitCondition>;

/// Whether something stops when the service shuts down.
#[derive(Clone, Copy, Debug, Eq, PartialEq, Structural)]
pub enum StopOnShutdown {
    Yes,
    No,
}

impl StopOnShutdown {
    /// What goes on: everything while the service runs, nothing once a new generation has taken
    /// over, and in a shutdown what does not stop on it.
    pub open spec fn continues(self, state: RunState) -> bool {
        match state {
            None => true,
            Some(ExitCondition::Upgrade) => false,
            Some(_) => self == StopOnShutdown::No,
        }
    }

    pub fn should_continue(&self, state: &RunState) -> (r: bool)
        ensures
            r == self.continues(*state),
    {
        match state {
            None => true,
            Some(ExitCondition::Upgrade) => false,
            Some(ExitCondition::Stop) | Some(ExitCondition::PartialStop) => {
                matches!(self, StopOnShutdown::No)
            },
        }
    }
}

/// A stream that ends early when it is stopped.
pub struct StoppableStream<S> {
    stream: S,
    stop_on_shutdown: StopOnShutdown,
    state: RunState,
}

/// What a [`StoppableStream`] knows.
pub struct StoppableStreamView<S> {
    pub stream: S,
    pub stop_on_shutdown: StopOnShutdown,
    pub state: RunState,
}

impl<S> View for StoppableStream<S> {
    type V = StoppableStreamView<S>;

    closed spec fn view(&self) -> StoppableStreamView<S> {
        StoppableStreamView {
            stream: self.stream,
            stop_on_shutdown: self.stop_on_shutdown,
            state: self.state,
        }
    }
}

impl<S> StoppableStreamView<S> {
    /// Whether the stream beneath is to be polled, after the given changes of state were seen. If
    /// not, the stream has ended.
    pub open spec fn goes_on(self, updates: Seq<RunState>) -> bool {
        self.stop_on_shutdown.continues(self.after(updates))
    }

    /// The state after the given changes: the last of them.
    pub open spec fn after(self, updates: Seq<RunState>) -> RunState {
        if updates.len() == 0 {
            self.state
        } else {
            updates.last()
        }
    }
}

impl<S> StoppableStream<S> {
    pub fn new(stream: S, stop_on_shutdown: StopOnShutdown) -> (r: Self)
        ensures
            r@ == (StoppableStreamView { stream, stop_on_shutdown, state: None }),
    {
        StoppableStream { stream, stop_on_shutdown, state: None }
    }

    /// Takes note of a change of state.
    pub fn observe(&mut self, state: RunState)
        ensures
            final(self)@ == (StoppableStreamView { state, ..old(self)@ }),
    {
        self.state = state;
    }

    /// Takes note of the changes of state that have come in since the last poll, and decides whether
    /// to poll the stream beneath. If not, the stream has ended.
    pub fn poll_next(&mut self, updates: Vec<RunState>) -> (poll: bool)
        ensures
            poll == old(self)@.goes_on(updates@),
            updates@.len() == 0 ==> final(self)@.state == old(self)@.state,
            updates@.len() > 0 ==> final(self)@.state == updates@[updates@.len() - 1],
            poll <==> final(self)@.state is None || (final(self)@.state != Some(
                ExitCondition::Upgrade,
            ) && old(self)@.stop_on_shutdown == StopOnShutdown::No),
            final(self)@ == (StoppableStreamView { state: old(self)@.after(updates@), ..old(self)@ }),
    {
        let mut i: usize = 0;
        while i < updates.len()
            invariant
                i <= updates@.len(),
                self@ == (StoppableStreamView {
                    state: old(self)@.after(updates@.take(i as int)),
                    ..old(self)@
                }),
            decreases updates@.len() - i,
        {
            self.observe(updates[i]);
            assert(updates@.take(i + 1).last() == updates@[i as int]);
            i = i + 1;
        }
        assert(updates@.take(updates@.len() as int) =~= updates@);
        self.stop_on_shutdown.should_continue(&self.state)
    }

    /// The stream beneath, to be polled.
    pub fn stream_mut(&mut self) -> (r: &mut S)
        ensures
            *r == old(self)@.stream,
            final(self)@ == (StoppableStreamView { stream: *final(r), ..old(self)@ }),
    {
        &mut self.stream
    }
}

/// A wrapper around something that has long-running operations which should be interrupted during
/// a shutdown.
pub struct Stoppable<S> {
    s: S,
    stop_on_shutdown: StopOnShutdown,
}

/// What a [`Stoppable`] holds.
pub struct StoppableView<S> {
    pub inner: S,
    pub stop_on_shutdown: StopOnShutdown,
}

impl<S> View for Stoppable<S> {
    type V = StoppableView<S>;

    closed spec fn view(&self) -> StoppableView<S> {
        StoppableView { inner: self.s, stop_on_shutdown: self.stop_on_shutdown }
    }
}

impl<S> Stoppable<S> {
    pub fn new(s: S, stop_on_shutdown: StopOnShutdown) -> (r: Self)
        ensures
            r@ == (StoppableView { inner: s, stop_on_shutdown }),
    {
        Stoppable { s, stop_on_shutdown }
    }

    /// Returns a direct reference to inner object, allowing direct _uninterrupted_ operations.
    pub fn as_unstoppable_ref(&self) -> (r: &S)
        ensures
            *r == self@.inner,
    {
        &self.s
    }

    /// Like [`Stoppable::as_unstoppable_ref`], but with mutable access.
    pub fn as_unstoppable_mut(&mut self) -> (r: &mut S)
        ensures
            *r == old(self)@.inner,
            final(self)@ == (StoppableView { inner: *final(r), ..old(self)@ }),
    {
        &mut self.s
    }

    /// What to do about an operation when something happened: it came to its end, or the service
    /// is in the given state. It is interrupted as soon as it is stopped, and then gives nothing.
    pub fn until_stopped<O>(&self, event: OperationEvent<O>) -> (step: OperationStep<O>)
        ensures
            step == match event {
                OperationEvent::Output(output) => OperationStep::Return(Some(output)),
                OperationEvent::State(state) => if self@.stop_on_shutdown.continues(state) {
                    OperationStep::Wait
                } else {
                    OperationStep::Return(None)
                },
            },
    {
        match event {
            OperationEvent::Output(output) => OperationStep::Return(Some(output)),
            OperationEvent::State(state) => {
                if self.stop_on_shutdown.should_continue(&state) {
                    OperationStep::Wait
                } else {
                    OperationStep::Return(None)
                }
            },
        }
    }
}

/// What can happen while an operation runs.
#[derive(Debug)]
pub enum OperationEvent<O> {
    /// The operation came to its end.
    Output(O),
    /// The service is in this state, as the operation starts or after a change.
    State(RunState),
}

/// What to do about an operation.
#[derive(Debug)]
pub enum OperationStep<O> {
    /// Let it run until something else happens.
    Wait,
    /// It is over. Without an output it was interrupted.
    Return(Option<O>),
}

/// No old code keeps running after a successful upgrade: everything stops, also what goes on in a
/// shutdown.
pub proof fn law_upgrade_stops_everything(stop_on_shutdown: StopOnShutdown)
    ensures
        !stop_on_shutdown.continues(Some(ExitCondition::Upgrade)),
{
}

/// Nothing is stopped while the service runs.
pub proof fn law_nothing_stops_while_running(stop_on_shutdown: StopOnShutdown)
    ensures
        stop_on_shutdown.continues(None),
{
}

/// A shutdown, partial or not, stops what asked to be stopped and nothing else.
pub proof fn law_shutdown_stops_on_request(stop_on_shutdown: StopOnShutdown, exit: ExitCondition)
    requires
        exit != ExitCondition::Upgrade,
    ensures
        stop_on_shutdown.continues(Some(exit)) <==> stop_on_shutdown == StopOnShutdown::No,
{
}

/// A stream that has ended stays ended as long as the state does not change.
pub proof fn law_ended_streams_stay_ended<S>(stream: StoppableStreamView<S>, updates: Seq<RunState>)
    ensures
        ({
            let next = StoppableStreamView { state: stream.after(updates), ..stream };
            !stream.goes_on(updates) ==> !next.goes_on(seq![])
        }),
{
}

/// The service is in a shutdown, partial or not.
pub open spec fn shuts_down(state: RunState) -> bool {
    state == Some(ExitCondition::Stop) || state == Some(ExitCondition::PartialStop)
}

/// Something goes on if and only if the service runs, or is in a shutdown that it does not stop on.
pub proof fn law_what_goes_on(stop_on_shutdown: StopOnShutdown, state: RunState, r: bool)
    requires
        call_ensures(StopOnShutdown::should_continue, (&stop_on_shutdown, &state), r),
    ensures
        state is None ==> r,
        state == Some(ExitCondition::Upgrade) ==> !r,
        shuts_down(state) ==> (r <==> stop_on_shutdown == StopOnShutdown::No),
        state is None || state == Some(ExitCondition::Upgrade) || shuts_down(state),
        stop_on_shutdown.continues(state) == r,
{
}

/// The last state that was seen decides over a stream, and nothing that came before it does: the
/// last of the changes, or without any the state that was known. While the service runs the stream
/// beneath is polled; after an upgrade it has ended; in a shutdown, partial or not, it is polled if
/// and only if the stream does not stop on one.
pub proof fn law_streams_go_by_the_last_state<S>(
    stream: StoppableStreamView<S>,
    updates: Seq<RunState>,
    last: RunState,
)
    ensures
        stream.after(seq![]) == stream.state,
        stream.after(updates.push(last)) == last,
        last is None ==> stream.goes_on(updates.push(last)),
        last == Some(ExitCondition::Upgrade) ==> !stream.goes_on(updates.push(last)),
        shuts_down(last) ==> (stream.goes_on(updates.push(last)) <==> stream.stop_on_shutdown
            == StopOnShutdown::No),
        stream.state is None ==> stream.goes_on(seq![]),
        stream.state == Some(ExitCondition::Upgrade) ==> !stream.goes_on(seq![]),
        shuts_down(stream.state) ==> (stream.goes_on(seq![]) <==> stream.stop_on_shutdown
            == StopOnShutdown::No),
{
}

/// A new stream runs, holds the stream that it was given, and stops as it was told to.
pub proof fn law_streams_start_running<S>(
    inner: S,
    stop_on_shutdown: StopOnShutdown,
    stream: StoppableStream<S>,
)
    requires
        call_ensures(StoppableStream::<S>::new, (inner, stop_on_shutdown), stream),
    ensures
        stream@.stream == inner,
        stream@.stop_on_shutdown == stop_on_shutdown,
        stream@.state is None,
        stream@.goes_on(seq![]),
{
}

/// An operation gives its output if it comes to its end. It is interrupted, and gives nothing, as soon
/// as the service is upgraded, or shuts down and the operation stops on that; otherwise it goes on.
pub proof fn law_operations_run_until_they_are_stopped<S, O>(
    inner: S,
    stop_on_shutdown: StopOnShutdown,
    stoppable: Stoppable<S>,
    held: &S,
    output: O,
    ended: OperationStep<O>,
    state: RunState,
    step: OperationStep<O>,
)
    requires
        call_ensures(Stoppable::<S>::new, (inner, stop_on_shutdown), stoppable),
        call_ensures(Stoppable::<S>::as_unstoppable_ref, (&stoppable,), held),
        call_ensures(
            Stoppable::<S>::until_stopped::<O>,
            (&stoppable, OperationEvent::Output(output)),
            ended,
        ),
        call_ensures(
            Stoppable::<S>::until_stopped::<O>,
            (&stoppable, OperationEvent::State(state)),
            step,
        ),
    ensures
        *held == inner,
        ended == OperationStep::Return(Some(output)),
        state is None ==> step == OperationStep::<O>::Wait,
        state == Some(ExitCondition::Upgrade) ==> step == OperationStep::Return(None::<O>),
        shuts_down(state) && stop_on_shutdown == StopOnShutdown::Yes ==> step
            == OperationStep::Return(None::<O>),
        shuts_down(state) && stop_on_shutdown == StopOnShutdown::No ==> step
            == OperationStep::<O>::Wait,
{
}

} // verus!
