//! The state machine abstraction and its basic implementation.
//!
//! [`StateMachine`] is the operational contract every machine of this library
//! meets: reading the current state, advancing it by consuming an input,
//! previewing a transition without committing it, resetting to the initial
//! state, and forcing a state directly. [`BasicStateMachine`] implements it
//! with a caller-supplied transition rule; its instances are assembled by
//! [`builder::StateMachineBuilder`].

pub mod builder;
pub mod error;

use core::marker::PhantomData;
use vstd::prelude::*;

verus! {

/// The basic operations of a state machine: getting its current state,
/// transitioning to the next state, resetting the current state to the
/// initial state, and setting a particular state forcibly.
/// [`BasicStateMachine`] is a good example of an implementation; a machine of
/// your own can implement it as well, and every caller then gets the same
/// guarantees from the contracts below.
///
/// The specification surface is five functions: an implementation's
/// well-formedness, its fixed initial state, its current state, and the
/// precondition and input/output relation of its transition rule. The rule is
/// exercised only by `consume` and `peek`, which are both bound to the same
/// relation, so the committed transition and the preview cannot diverge.
pub trait StateMachine<State, Input>: Sized {
    /// Holds of every machine this library hands out; operations preserve it.
    spec fn well_formed(&self) -> bool;

    /// The state the machine returns to on `reset`; fixed for the machine's
    /// whole life.
    spec fn initial(&self) -> State;

    /// The state the machine occupies now.
    spec fn current(&self) -> State;

    /// When the transition rule may be asked about `(state, input)` at all.
    /// Pairs outside it are a caller contract violation, and the operations
    /// below refuse them rather than pass a failure through.
    spec fn rule_admits(&self, state: State, input: Input) -> bool;

    /// The transition rule as a relation: `next` is an outcome the rule can
    /// produce for `(state, input)`. A rule given as a pure function makes
    /// this a singleton for each admitted pair.
    spec fn rule_rel(&self, state: State, input: Input, next: State) -> bool;

    /// Returns the current state of the state machine.
    fn current_state(&self) -> (state: State)
        requires
            self.well_formed(),
        ensures
            state == self.current(),
    ;

    /// Feeds `input` to the transition rule, commits the outcome as the new
    /// current state, and returns it. The clauses spell out
    /// [`consume_step`]`(*old(self), *final(self), input, state)`.
    fn consume(&mut self, input: Input) -> (state: State)
        requires
            old(self).well_formed(),
            old(self).rule_admits(old(self).current(), input),
        ensures
            final(self).well_formed(),
            final(self).initial() == old(self).initial(),
            forall|s: State, i: Input|
                #![trigger old(self).rule_admits(s, i)]
                #![trigger final(self).rule_admits(s, i)]
                final(self).rule_admits(s, i) == old(self).rule_admits(s, i),
            forall|s: State, i: Input, t: State|
                #![trigger old(self).rule_rel(s, i, t)]
                #![trigger final(self).rule_rel(s, i, t)]
                final(self).rule_rel(s, i, t) == old(self).rule_rel(s, i, t),
            old(self).rule_rel(old(self).current(), input, final(self).current()),
            state == final(self).current(),
    ;

    /// Returns the next state from the current state, but the machine
    /// retains its current state: a dry run of the transition rule. The
    /// shared borrow alone already rules out any change to the machine.
    fn peek(&self, input: Input) -> (state: State)
        requires
            self.well_formed(),
            self.rule_admits(self.current(), input),
        ensures
            self.rule_rel(self.current(), input, state),
    ;

    /// Resets the current state to the initial state and returns it. The
    /// clauses spell out [`reset_step`]`(*old(self), *final(self), state)`.
    fn reset(&mut self) -> (state: State)
        requires
            old(self).well_formed(),
        ensures
            final(self).well_formed(),
            final(self).initial() == old(self).initial(),
            forall|s: State, i: Input|
                #![trigger old(self).rule_admits(s, i)]
                #![trigger final(self).rule_admits(s, i)]
                final(self).rule_admits(s, i) == old(self).rule_admits(s, i),
            forall|s: State, i: Input, t: State|
                #![trigger old(self).rule_rel(s, i, t)]
                #![trigger final(self).rule_rel(s, i, t)]
                final(self).rule_rel(s, i, t) == old(self).rule_rel(s, i, t),
            final(self).current() == old(self).initial(),
            state == final(self).current(),
    ;

    /// Sets `new_state` forcibly as the current state, bypassing the
    /// transition rule entirely. The clauses spell out
    /// [`set_step`]`(*old(self), *final(self), new_state)`.
    fn set(&mut self, new_state: State)
        requires
            old(self).well_formed(),
        ensures
            final(self).well_formed(),
            final(self).initial() == old(self).initial(),
            forall|s: State, i: Input|
                #![trigger old(self).rule_admits(s, i)]
                #![trigger final(self).rule_admits(s, i)]
                final(self).rule_admits(s, i) == old(self).rule_admits(s, i),
            forall|s: State, i: Input, t: State|
                #![trigger old(self).rule_rel(s, i, t)]
                #![trigger final(self).rule_rel(s, i, t)]
                final(self).rule_rel(s, i, t) == old(self).rule_rel(s, i, t),
            final(self).current() == new_state,
    ;
}

/// What every mutating operation leaves untouched: the machine stays
/// well-formed, and its initial state and its transition rule are exactly
/// those of the machine before the call.
pub open spec fn preserves_config<State, Input, M: StateMachine<State, Input>>(
    pre: M,
    post: M,
) -> bool {
    &&& post.well_formed()
    &&& post.initial() == pre.initial()
    &&& forall|s: State, i: Input|
        #![trigger pre.rule_admits(s, i)]
        #![trigger post.rule_admits(s, i)]
        post.rule_admits(s, i) == pre.rule_admits(s, i)
    &&& forall|s: State, i: Input, t: State|
        #![trigger pre.rule_rel(s, i, t)]
        #![trigger post.rule_rel(s, i, t)]
        post.rule_rel(s, i, t) == pre.rule_rel(s, i, t)
}

/// One committed transition: the new current state is an outcome of the rule
/// on the prior current state and `input`, that new current state is what the
/// call returned, and nothing but the current state changed.
pub open spec fn consume_step<State, Input, M: StateMachine<State, Input>>(
    pre: M,
    post: M,
    input: Input,
    ret: State,
) -> bool {
    &&& preserves_config(pre, post)
    &&& pre.rule_rel(pre.current(), input, post.current())
    &&& ret == post.current()
}

/// One reset: the current state is back at the initial state, that state is
/// what the call returned, and nothing but the current state changed.
pub open spec fn reset_step<State, Input, M: StateMachine<State, Input>>(
    pre: M,
    post: M,
    ret: State,
) -> bool {
    &&& preserves_config(pre, post)
    &&& post.current() == pre.initial()
    &&& ret == post.current()
}

/// One forced override: the current state is exactly the state that was set,
/// and nothing but the current state changed.
pub open spec fn set_step<State, Input, M: StateMachine<State, Input>>(
    pre: M,
    post: M,
    new_state: State,
) -> bool {
    &&& preserves_config(pre, post)
    &&& post.current() == new_state
}

/// The machine's transition rule produces at most one outcome per admitted
/// `(state, input)` pair. A rule supplied as a pure function has this by
/// construction; the laws about previews matching commits assume it.
pub open spec fn deterministic_rule<State, Input, M: StateMachine<State, Input>>(m: M) -> bool {
    forall|s: State, i: Input, t1: State, t2: State|
        #![trigger m.rule_rel(s, i, t1), m.rule_rel(s, i, t2)]
        m.rule_rel(s, i, t1) && m.rule_rel(s, i, t2) ==> t1 == t2
}

/// `consume` commits exactly what the rule relates to the prior state and the
/// input, and returns exactly the committed state.
pub proof fn lemma_consume_commits<State, Input, M: StateMachine<State, Input>>(
    pre: M,
    post: M,
    input: Input,
    ret: State,
)
    requires
        consume_step(pre, post, input, ret),
    ensures
        pre.rule_rel(pre.current(), input, ret),
        ret == post.current(),
        post.initial() == pre.initial(),
{
}

/// Resetting twice in a row yields the initial state both times: the second
/// reset returns the same state as the first, because a reset never moves
/// the initial state itself.
pub proof fn lemma_reset_idempotent<State, Input, M: StateMachine<State, Input>>(
    m0: M,
    m1: M,
    m2: M,
    first: State,
    second: State,
)
    requires
        reset_step(m0, m1, first),
        reset_step(m1, m2, second),
    ensures
        first == m0.initial(),
        second == m0.initial(),
        second == first,
{
}

/// A forced `set` puts the machine exactly in the state that was given, so an
/// immediately following read returns that state, whatever the rule says or
/// leaves undefined about it.
pub proof fn lemma_set_overrides_rule<State, Input, M: StateMachine<State, Input>>(
    pre: M,
    post: M,
    new_state: State,
)
    requires
        set_step(pre, post, new_state),
    ensures
        post.current() == new_state,
        post.initial() == pre.initial(),
{
}

/// A preview never changes what a subsequent read returns: the current state
/// read before `peek` equals the current state read after it. `peek` only
/// borrows the machine, so this holds of every implementation of the trait;
/// the pair of reads around a preview makes Verus check it on the calls
/// themselves.
pub fn peek_keeps_current_state<State, Input, M: StateMachine<State, Input>>(
    machine: &M,
    input: Input,
) -> (reads: (State, State))
    requires
        machine.well_formed(),
        machine.rule_admits(machine.current(), input),
    ensures
        reads.0 == reads.1,
        reads.0 == machine.current(),
{
    let before = machine.current_state();
    let _previewed = machine.peek(input);
    let after = machine.current_state();
    (before, after)
}

/// For a deterministic rule, a preview and a commit from the same state on
/// the same input agree: `peek` can never show a state other than the one
/// `consume` would move to.
pub proof fn lemma_peek_matches_consume<State, Input, M: StateMachine<State, Input>>(
    pre: M,
    post: M,
    input: Input,
    peeked: State,
    consumed: State,
)
    requires
        deterministic_rule(pre),
        pre.rule_rel(pre.current(), input, peeked),
        consume_step(pre, post, input, consumed),
    ensures
        peeked == consumed,
{
    assert(pre.rule_rel(pre.current(), input, consumed));
}

/// [`StateWrapper`] is the cell that holds a machine's current state.
/// It is the one place through which the current state is read and replaced.
pub struct StateWrapper<State>(State);

impl<State> View for StateWrapper<State> {
    type V = State;

    closed spec fn view(&self) -> State {
        self.0
    }
}

impl<State> StateWrapper<State> where State: Copy {
    /// Wraps a starting state.
    pub fn new(state: State) -> (wrapper: Self)
        ensures
            wrapper@ == state,
    {
        StateWrapper(state)
    }

    /// Returns the held state.
    pub fn get(&self) -> (state: State)
        ensures
            state == self@,
    {
        self.0
    }

    /// Replaces the held state.
    pub fn set(&mut self, state: State)
        ensures
            final(self)@ == state,
    {
        self.0 = state;
    }
}

/// The basic state machine implementation. It holds an initial state, a
/// current state, and a transition rule, and it works through a mutable
/// handle: reads borrow the machine, mutations borrow it exclusively, so one
/// owner at a time drives it and no lock is needed.
#[verifier::reject_recursive_types(State)]
#[verifier::reject_recursive_types(Input)]
pub struct BasicStateMachine<State, Input, Transition> where
    Transition: Fn(State, Input) -> State,
    State: Copy,
 {
    /// `initial_state` is literally the initial state of the state machine.
    /// The field is never updated over the whole life of its machine.
    initial_state: State,
    /// `current_state` is the current state of the state machine. It moves to
    /// the next state via `transition`.
    current_state: StateWrapper<State>,
    /// `transition` is the definition of state transition: it is consulted by
    /// `consume` and `peek` and by nothing else.
    transition: Transition,
    _maker: PhantomData<Input>,
}

/// How a machine looks the moment it is built: well-formed, with the given
/// initial and current states, and with the given rule as its transition
/// relation, admitted exactly where the rule's own precondition admits it.
pub open spec fn fresh_machine<State, Input, Transition>(
    m: BasicStateMachine<State, Input, Transition>,
    initial: State,
    current: State,
    rule: Transition,
) -> bool where Transition: Fn(State, Input) -> State, State: Copy {
    &&& m.well_formed()
    &&& m.initial() == initial
    &&& m.current() == current
    &&& forall|s: State, i: Input| #[trigger]
        m.rule_admits(s, i) == call_requires(rule, (s, i))
    &&& forall|s: State, i: Input, t: State| #[trigger]
        m.rule_rel(s, i, t) == call_ensures(rule, (s, i), t)
}

impl<State, Input, Transition> BasicStateMachine<State, Input, Transition> where
    Transition: Fn(State, Input) -> State,
    State: Copy,
 {
    /// Assembles a machine from its three parts. The builder is the usual
    /// way in: it fills in the starting current state and reports what is
    /// missing instead of demanding it here.
    pub fn new(initial_state: State, current_state: State, transition: Transition) -> (machine:
        Self)
        ensures
            fresh_machine(machine, initial_state, current_state, transition),
    {
        BasicStateMachine {
            initial_state,
            current_state: StateWrapper::new(current_state),
            transition,
            _maker: PhantomData,
        }
    }
}

impl<State, Input, Transition> StateMachine<State, Input> for BasicStateMachine<
    State,
    Input,
    Transition,
> where Transition: Fn(State, Input) -> State, State: Copy {
    closed spec fn well_formed(&self) -> bool {
        true
    }

    closed spec fn initial(&self) -> State {
        self.initial_state
    }

    closed spec fn current(&self) -> State {
        self.current_state@
    }

    closed spec fn rule_admits(&self, state: State, input: Input) -> bool {
        call_requires(self.transition, (state, input))
    }

    closed spec fn rule_rel(&self, state: State, input: Input, next: State) -> bool {
        call_ensures(self.transition, (state, input), next)
    }

    fn current_state(&self) -> (state: State) {
        self.current_state.get()
    }

    fn consume(&mut self, input: Input) -> (state: State) {
        let next = (self.transition)(self.current_state.get(), input);
        self.current_state.set(next);
        self.current_state.get()
    }

    fn peek(&self, input: Input) -> (state: State) {
        (self.transition)(self.current_state.get(), input)
    }

    fn reset(&mut self) -> (state: State) {
        self.current_state.set(self.initial_state);
        self.current_state.get()
    }

    fn set(&mut self, new_state: State) {
        self.current_state.set(new_state);
    }
}

} // verus!
