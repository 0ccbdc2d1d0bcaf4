use vstd::prelude::*;

verus! {

/// Capability declarations: the directed edges of a state graph.
///
/// `a.into_state(b)` holds when control may pass from `a` to `b`. Edges are
/// declared one direction at a time: an edge from `a` to `b` says nothing of
/// an edge from `b` to `a`. A transition is only accepted by the verifier
/// where its edge is declared, so no code path can build an illegal one.
pub trait IntoState<S> {
    /// Whether an edge from `self` to `next` is declared.
    spec fn into_state(&self, next: S) -> bool;
}

/// A state of a machine whose shared context has type `T`.
///
/// Each lifecycle hook is described by a spec function over the view of the
/// shared context, which the hook must meet exactly. A hook that does nothing
/// is written with an empty body and a spec function that returns the context
/// unchanged.
pub trait State<T: View>: Sized + IntoState<Self> {
    /// The shared context as `on_enter` leaves it.
    spec fn enter_spec(&self, shared: T::V) -> T::V;

    /// The shared context as `on_exit` leaves it.
    spec fn exit_spec(&self, shared: T::V) -> T::V;

    /// The shared context as the event handler's own work leaves it, before
    /// any transition.
    spec fn event_spec(&self, shared: T::V) -> T::V;

    /// The successor the event handler picks, given the shared context as its
    /// own work left it; `None` when the machine stays in this state.
    spec fn next_spec(&self, shared: T::V) -> Option<Self>;

    /// The handler only picks successors along declared edges.
    proof fn lemma_next_declared(&self, shared: T::V)
        ensures
            self.next_spec(shared) matches Some(next) ==> self.into_state(next),
    ;

    /// The transition operation: the one sanctioned way for a state to hand
    /// control to a successor, only along a declared edge. Runs this state's
    /// exit hook, then `into`'s enter hook, and wraps `into` as the next state.
    fn transition(&self, into: Self, shared: &mut T) -> (r: NextState<T, Self>)
        requires
            self.into_state(into),
        ensures
            r.successor() == into,
            final(shared)@ == into.enter_spec(self.exit_spec(old(shared)@)),
    {
        self.on_exit(shared);
        into.on_enter(shared);
        NextState::new(into)
    }

    /// Called once when this state becomes current.
    fn on_enter(&self, shared: &mut T)
        ensures
            final(shared)@ == self.enter_spec(old(shared)@),
    ;

    /// Called once when this state stops being current, just before its
    /// successor's `on_enter`.
    fn on_exit(&self, shared: &mut T)
        ensures
            final(shared)@ == self.exit_spec(old(shared)@),
    ;

    /// Handles one event: does the handler's own work, then either stays
    /// (`None`) or transitions to the successor that `next_spec` names, in
    /// which case this state's exit hook and the successor's enter hook have
    /// run, in that order.
    fn on_event(&self, shared: &mut T) -> (r: Option<NextState<T, Self>>)
        ensures
            ({
                let worked = self.event_spec(old(shared)@);
                match self.next_spec(worked) {
                    None => r is None && final(shared)@ == worked,
                    Some(next) => r matches Some(n) && n.successor() == next && final(shared)@
                        == next.enter_spec(self.exit_spec(worked)),
                }
            }),
    ;
}

/// The event result: the next state to install, produced by a transition and
/// consumed once by the driver.
pub struct NextState<T, S> {
    state: S,
    marker: core::marker::PhantomData<T>,
}

impl<T, S> NextState<T, S> {
    /// The state this result carries.
    pub closed spec fn successor(&self) -> S {
        self.state
    }

    /// Wraps `state` as the next state.
    pub fn new(state: S) -> (r: Self)
        ensures
            r.successor() == state,
    {
        NextState { state, marker: core::marker::PhantomData }
    }

    /// Hands out the state this result carries.
    pub fn process(self) -> (r: S)
        ensures
            r == self.successor(),
    {
        self.state
    }
}

/// What one event does to a machine in `state` over the shared context
/// `shared`: the new current state and shared context.
pub open spec fn step<T: View, S: State<T>>(state: S, shared: T::V) -> (S, T::V) {
    let worked = state.event_spec(shared);
    match state.next_spec(worked) {
        None => (state, worked),
        Some(next) => (next, next.enter_spec(state.exit_spec(worked))),
    }
}

/// Every state a step installs is the one it started from, when the handler
/// stays, or a successor along a declared edge.
pub proof fn lemma_step_follows_edge<T: View, S: State<T>>(state: S, shared: T::V)
    ensures
        step::<T, S>(state, shared).0 == state || state.into_state(step::<T, S>(state, shared).0),
{
    state.lemma_next_declared(state.event_spec(shared));
}

/// When the handler transitions, the outgoing state's exit hook runs on the
/// context the handler left, and the incoming state's enter hook runs after it.
pub proof fn lemma_exit_before_enter<T: View, S: State<T>>(state: S, shared: T::V, next: S)
    requires
        state.next_spec(state.event_spec(shared)) == Some(next),
    ensures
        step::<T, S>(state, shared) == (next, next.enter_spec(
            state.exit_spec(state.event_spec(shared)),
        )),
        state.into_state(next),
{
    state.lemma_next_declared(state.event_spec(shared));
}

/// When the handler stays, the current state is unchanged and no hook runs:
/// the context is what the handler's own work left.
pub proof fn lemma_stay<T: View, S: State<T>>(state: S, shared: T::V)
    requires
        state.next_spec(state.event_spec(shared)) is None,
    ensures
        step::<T, S>(state, shared) == (state, state.event_spec(shared)),
{
}

/// Two events on a machine at `a` whose handler goes to `b`, and whose handler
/// at `b` goes back to `a`, bring it back to `a`; the hooks ran in the order
/// exit `a`, enter `b`, exit `b`, enter `a`.
pub proof fn lemma_cycle<T: View, S: State<T>>(a: S, b: S, shared: T::V)
    requires
        a.into_state(b),
        b.into_state(a),
        a.next_spec(a.event_spec(shared)) == Some(b),
        b.next_spec(b.event_spec(b.enter_spec(a.exit_spec(a.event_spec(shared))))) == Some(a),
    ensures
        ({
            let first = step::<T, S>(a, shared);
            let second = step::<T, S>(first.0, first.1);
            &&& first.0 == b
            &&& second == (a, a.enter_spec(
                b.exit_spec(b.event_spec(b.enter_spec(a.exit_spec(a.event_spec(shared))))),
            ))
        }),
{
}

/// The driver: owns the current state and the shared context.
pub struct StateMachine<T: View, S: State<T>> {
    state: S,
    shared: T,
}

impl<T: View, S: State<T>> StateMachine<T, S> {
    /// The current state.
    pub closed spec fn current(&self) -> S {
        self.state
    }

    /// The view of the shared context.
    pub closed spec fn context(&self) -> T::V {
        self.shared@
    }

    /// Stores `initial_state` and `shared`, then runs the initial state's
    /// enter hook, once.
    pub fn new(initial_state: S, shared: T) -> (r: Self)
        ensures
            r.current() == initial_state,
            r.context() == initial_state.enter_spec(shared@),
    {
        let mut state_machine = StateMachine { state: initial_state, shared };
        state_machine.state.on_enter(&mut state_machine.shared);
        state_machine
    }

    /// Dispatches one event to the current state, and installs the successor
    /// it transitions to, if any.
    pub fn send_event(&mut self)
        ensures
            (final(self).current(), final(self).context()) == step::<T, S>(
                old(self).current(),
                old(self).context(),
            ),
    {
        match self.state.on_event(&mut self.shared) {
            Some(next) => {
                self.state = next.process();
            },
            None => {},
        }
    }

    /// The current state.
    pub fn state(&self) -> (r: &S)
        ensures
            *r == self.current(),
    {
        &self.state
    }

    /// The shared context.
    pub fn shared(&self) -> (r: &T)
        ensures
            r@ == self.context(),
    {
        &self.shared
    }
}

} // verus!
