//! The actor controller that follows the conditions in an actor's status.
use vstd::prelude::*;

use crate::composer::controller::Event;
use crate::workflow::Action;
use crate::resources::crds;
use vstd::string::*;

verus! {

broadcast use vstd::string::group_string_axioms;

/// What a reconcile pass of an actor does.
pub enum ActorStep {
    /// Move the actor from pending to building.
    Init,
    /// Build the actor's image.
    Build,
    /// Deploy the actor.
    Run,
    /// Nothing to do in the current state.
    Idle,
}

/// The step a reconcile pass takes for an actor with the given status:
/// the first of pending, building and running that the status reports.
pub open spec fn step_for(status: Option<crds::ActorStatus>) -> ActorStep {
    match status {
        Some(s) => if s.reports(crds::ActorState::Pending, true) {
            ActorStep::Init
        } else if s.reports(crds::ActorState::Building, true) {
            ActorStep::Build
        } else if s.reports(crds::ActorState::Running, true) {
            ActorStep::Run
        } else {
            ActorStep::Idle
        },
        None => ActorStep::Idle,
    }
}

/// The step a reconcile pass takes for an actor with the given status.
pub fn actor_step(status: &Option<crds::ActorStatus>) -> (res: ActorStep)
    ensures
        res == step_for(*status),
{
    match status {
        Some(s) => {
            if s.pending() {
                ActorStep::Init
            } else if s.building() {
                ActorStep::Build
            } else if s.running() {
                ActorStep::Run
            } else {
                ActorStep::Idle
            }
        },
        None => ActorStep::Idle,
    }
}

/// The event recorded when actor `name` is deleted.
pub fn delete_event(name: &String) -> (e: Event)
    ensures
        e.reason@ == "DeleteActor"@,
        e.note@ == "Delete actor `"@ + name@ + "`"@,
        e.action@ == "Reconciling"@,
{
    let mut note = "Delete actor `".to_owned();
    note.append(name.as_str());
    note.append("`");
    Event { reason: "DeleteActor".to_owned(), note, action: "Reconciling".to_owned() }
}

/// A reconcile pass of an actor: the step its status calls for, after which the
/// controller waits for the actor to change.
pub fn reconcile(status: &Option<crds::ActorStatus>) -> (res: (ActorStep, Action))
    ensures
        res.0 == step_for(*status),
        res.1 == Action::AwaitChange,
{
    (actor_step(status), Action::AwaitChange)
}

/// The condition that a step patches on the actor once it has succeeded: the init
/// step moves a pending actor to building (reason "Build"); building and deploying
/// patch nothing here.
pub fn recorded_condition(step: &ActorStep) -> (res: Option<crds::Condition>)
    ensures
        match step {
            ActorStep::Init => res matches Some(c) && crds::made_for(
                c,
                crds::actor_state_name(crds::ActorState::Building),
                true,
                "Build"@,
                None,
            ),
            _ => res is None,
        },
{
    match step {
        ActorStep::Init => Some(crds::ActorState::building()),
        _ => None,
    }
}

} // verus!
