use vstd::prelude::*;

use crate::events::PlayerEvent;

verus! {

/// A leaf state of the player's motion mode. All three nest under the single
/// superstate of the hierarchy.
#[derive(Clone, Copy, PartialEq, Eq, Structural, Debug)]
pub enum State {
    Falling,
    Landing,
    Idle,
}

/// A superstate of the hierarchy. There is one, covering the whole machine;
/// it absorbs every event its leaf states defer.
#[derive(Clone, Copy, PartialEq, Eq, Structural, Debug)]
pub enum Superstate {
    Player,
}

/// What a state handler decides for an event: consume it where it stands,
/// defer it to the superstate, or transition to a target state.
#[derive(Clone, Copy, PartialEq, Eq, Structural, Debug)]
pub enum Response {
    Handled,
    Super,
    Transition(State),
}

/// The state or superstate an event was dispatched to, as reported to the
/// dispatch hook.
#[derive(Clone, Copy, PartialEq, Eq, Structural, Debug)]
pub enum StateOrSuperstate {
    State(State),
    Superstate(Superstate),
}

/// A record of one state change: fired to the transition hook exactly when
/// the state after a dispatch differs from the state before it.
#[derive(Clone, Copy, PartialEq, Eq, Structural, Debug)]
pub struct Transition {
    pub source: State,
    pub target: State,
}

/// What one dispatch did: where the event went (the dispatch hook fires
/// exactly once per dispatch, with this value) and the state change, if any
/// (the transition hook fires exactly when this is `Some`). The caller runs
/// the hooks on these records.
#[derive(Clone, Copy, Debug)]
pub struct DispatchOutcome {
    pub dispatched_to: StateOrSuperstate,
    pub transition: Option<Transition>,
}

/// What the current leaf state decides for an event. Every leaf currently
/// defers every event to the superstate; state-specific transition rules
/// slot in here.
pub open spec fn leaf_response(state: State, event: PlayerEvent) -> Response {
    match state {
        State::Falling => Response::Super,
        State::Landing => Response::Super,
        State::Idle => Response::Super,
    }
}

/// What the superstate decides for an event it was deferred: it absorbs
/// every event with no transition.
pub open spec fn superstate_response(event: PlayerEvent) -> Response {
    Response::Handled
}

/// The decision a dispatch acts on: the leaf's response, with a deferral
/// resolved by the superstate.
pub open spec fn resolved_response(state: State, event: PlayerEvent) -> Response {
    match leaf_response(state, event) {
        Response::Super => superstate_response(event),
        r => r,
    }
}

/// The state after dispatching `event` in `state`: the transition's target
/// when the resolved response is one, otherwise the state unchanged.
pub open spec fn next_state(state: State, event: PlayerEvent) -> State {
    match resolved_response(state, event) {
        Response::Transition(target) => target,
        _ => state,
    }
}

/// The player's motion state machine: the current leaf state of the
/// hierarchy plus an internal frame counter. Created at player spawn in
/// `Falling`; dispatch is total, so no event ever fails in any state.
#[derive(Debug)]
pub struct PlayerStateMachine {
    pub state: State,
    pub frame: u16,
}

impl Default for PlayerStateMachine {
    /// A fresh machine: initial state `Falling`, frame counter zero.
    fn default() -> (r: PlayerStateMachine)
        ensures
            r.state == State::Falling,
            r.frame == 0,
    {
        PlayerStateMachine { state: State::Falling, frame: 0 }
    }
}

impl PlayerStateMachine {
    /// Handler for the `Falling` state: defers every event.
    pub fn falling(event: &PlayerEvent) -> (r: Response)
        ensures
            r == leaf_response(State::Falling, *event),
    {
        match event {
            _ => Response::Super,
        }
    }

    /// Handler for the `Landing` state: defers every event.
    pub fn landing(event: &PlayerEvent) -> (r: Response)
        ensures
            r == leaf_response(State::Landing, *event),
    {
        match event {
            _ => Response::Super,
        }
    }

    /// Handler for the `Idle` state: defers every event.
    pub fn idle(event: &PlayerEvent) -> (r: Response)
        ensures
            r == leaf_response(State::Idle, *event),
    {
        match event {
            _ => Response::Super,
        }
    }

    /// Handler for the superstate: absorbs every deferred event.
    pub fn player(event: &PlayerEvent) -> (r: Response)
        ensures
            r == superstate_response(*event),
    {
        Response::Handled
    }

    /// Dispatches one event to the machine. Total: every event in every
    /// state is handled, by the current leaf or by the superstate it defers
    /// to. The outcome names where the event went, exactly once per call,
    /// and carries a transition record exactly when the state changed.
    pub fn dispatch(&mut self, event: &PlayerEvent) -> (r: DispatchOutcome)
        ensures
            final(self).state == next_state(old(self).state, *event),
            final(self).frame == old(self).frame,
            r.dispatched_to == StateOrSuperstate::State(old(self).state),
            r.transition is Some <==> final(self).state != old(self).state,
            match r.transition {
                Some(t) => t.source == old(self).state && t.target == final(self).state,
                None => true,
            },
    {
        let source = self.state;
        let dispatched_to = StateOrSuperstate::State(source);
        let response = match source {
            State::Falling => Self::falling(event),
            State::Landing => Self::landing(event),
            State::Idle => Self::idle(event),
        };
        let resolved = match response {
            Response::Super => Self::player(event),
            r => r,
        };
        let transition: Option<Transition> = match resolved {
            Response::Transition(target) => {
                if target != source {
                    self.state = target;
                    Some(Transition { source, target })
                } else {
                    None
                }
            },
            _ => None,
        };
        DispatchOutcome { dispatched_to, transition }
    }
}

} // verus!
