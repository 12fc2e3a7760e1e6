//! The reconcile workflows of playbooks and actors: a state machine whose states
//! each run one task against the cluster and then name the state that follows.
//! The tasks themselves talk to the cluster; here stand the decisions.
use vstd::prelude::*;

pub mod actor;
pub mod playbook;

verus! {

/// What a controller asks of the runtime once a reconcile pass ends.
pub enum Action {
    /// Reconcile again after this many seconds.
    Requeue(u64),
    /// Wait until the object changes.
    AwaitChange,
}

/// What a state or a task hands back: the state to go on with, or an action
/// for the controller.
pub enum Intent<S> {
    State(S),
    Action(Action),
}

/// A workflow: the state it is in.
pub struct Workflow<S> {
    pub state: S,
}

impl<S> Workflow<S> {
    /// Creates a new workflow in an initial state.
    pub fn new(state: S) -> (w: Self)
        ensures
            w.state == state,
    {
        Workflow { state }
    }

    /// Transitions to a new state.
    pub fn transition(&mut self, new_state: S)
        ensures
            final(self).state == new_state,
    {
        self.state = new_state;
    }
}

/// What a state hands back once its task has run: the intent the task gave, if any,
/// else the state that follows, if any.
pub open spec fn after_task<S>(task_intent: Option<Intent<S>>, next: Option<S>) -> Option<Intent<S>> {
    match task_intent {
        Some(i) => Some(i),
        None => match next {
            Some(s) => Some(Intent::State(s)),
            None => None,
        },
    }
}

} // verus!
