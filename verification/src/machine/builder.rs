//! The builder that assembles a [`BasicStateMachine`].

use core::marker::PhantomData;
use vstd::prelude::*;

use crate::machine::error::StateMachineError;
use crate::machine::fresh_machine;
use crate::machine::BasicStateMachine;

verus! {

/// This builder enables us to assemble a state machine
/// (a [`BasicStateMachine`]) more easily: each piece of the configuration is
/// supplied by a chained call, with the last write winning, and `build`
/// validates that nothing required is still missing before it hands a
/// machine out.
#[verifier::reject_recursive_types(State)]
#[verifier::reject_recursive_types(Input)]
pub struct StateMachineBuilder<State, Input, Transition> where
    Transition: Fn(State, Input) -> State,
    State: Copy,
 {
    initial_state: Option<State>,
    current_state: Option<State>,
    transition: Option<Transition>,
    _marker: PhantomData<Input>,
}

impl<State, Input, Transition> StateMachineBuilder<State, Input, Transition> where
    Transition: Fn(State, Input) -> State,
    State: Copy,
 {
    /// The recorded initial state, none while `initial_state` was not called.
    pub closed spec fn spec_initial(&self) -> Option<State> {
        self.initial_state
    }

    /// The recorded override for the starting current state, none while
    /// `current_state` was not called.
    pub closed spec fn spec_current(&self) -> Option<State> {
        self.current_state
    }

    /// The recorded transition rule, none while `transition` was not called.
    pub closed spec fn spec_transition(&self) -> Option<Transition> {
        self.transition
    }

    /// Starts the builder: nothing is configured yet.
    pub fn start() -> (builder: Self)
        ensures
            builder.spec_initial() is None,
            builder.spec_current() is None,
            builder.spec_transition() is None,
    {
        Self::default()
    }

    /// Sets the state the machine starts from and returns to on reset.
    /// Calling it again overwrites the prior value.
    pub fn initial_state(self, state: State) -> (builder: Self)
        ensures
            builder.spec_initial() == Some(state),
            builder.spec_current() == self.spec_current(),
            builder.spec_transition() == self.spec_transition(),
    {
        let mut builder = self;
        builder.initial_state = Some(state);
        builder
    }

    /// Sets a particular state as the machine's starting current state, in
    /// place of the initial state. Calling it again overwrites the prior
    /// value.
    pub fn current_state(self, state: State) -> (builder: Self)
        ensures
            builder.spec_initial() == self.spec_initial(),
            builder.spec_current() == Some(state),
            builder.spec_transition() == self.spec_transition(),
    {
        let mut builder = self;
        builder.current_state = Some(state);
        builder
    }

    /// Sets the transition rule of the state machine. Calling it again
    /// overwrites the prior value.
    pub fn transition(self, next: Transition) -> (builder: Self)
        ensures
            builder.spec_initial() == self.spec_initial(),
            builder.spec_current() == self.spec_current(),
            builder.spec_transition() == Some(next),
    {
        let mut builder = self;
        builder.transition = Some(next);
        builder
    }

    /// Finishes the builder. With both required fields set it returns a
    /// machine whose current state is the override when one was given and the
    /// initial state otherwise; with a required field missing it returns
    /// [`StateMachineError::MissingField`] naming the first missing one,
    /// `initial_state` before `transition`.
    pub fn build(self) -> (result: Result<
        BasicStateMachine<State, Input, Transition>,
        StateMachineError,
    >)
        ensures
            self.spec_initial() is Some && self.spec_transition() is Some ==> (result matches Ok(m)
                && fresh_machine(
                m,
                self.spec_initial()->0,
                if self.spec_current() is Some {
                    self.spec_current()->0
                } else {
                    self.spec_initial()->0
                },
                self.spec_transition()->0,
            )),
            self.spec_initial() is None ==> (result matches Err(
                StateMachineError::MissingField(field),
            ) && field@ == "initial_state"@),
            self.spec_initial() is Some && self.spec_transition() is None ==> (result matches Err(
                StateMachineError::MissingField(field),
            ) && field@ == "transition"@),
    {
        match (self.initial_state, self.transition) {
            (Some(initial_state), Some(transition)) => {
                // With no override recorded, the initial state doubles as the
                // starting current state.
                let current_state = match self.current_state {
                    Some(state) => state,
                    None => initial_state,
                };
                Ok(BasicStateMachine::new(initial_state, current_state, transition))
            },
            (None, _) => Err(StateMachineError::MissingField("initial_state".to_string())),
            (_, None) => Err(StateMachineError::MissingField("transition".to_string())),
        }
    }
}

impl<State, Input, Transition> Default for StateMachineBuilder<State, Input, Transition> where
    Transition: Fn(State, Input) -> State,
    State: Copy,
 {
    /// An empty builder: no initial state, no current-state override, no
    /// transition rule.
    fn default() -> (builder: Self)
        ensures
            builder.spec_initial() is None,
            builder.spec_current() is None,
            builder.spec_transition() is None,
    {
        StateMachineBuilder {
            initial_state: None,
            current_state: None,
            transition: None,
            _marker: PhantomData,
        }
    }
}

} // verus!
