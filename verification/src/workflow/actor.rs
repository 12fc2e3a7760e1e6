//! The actor workflow: initial, building, deploying and exposing, and cleanup.
use vstd::prelude::*;

use crate::resources::crds::{ActorState, ActorStatus};
use crate::workflow::{after_task, Action, Intent};

verus! {

/// The states of the actor workflow.
pub enum Stage {
    Initial,
    Building,
    Deploying,
    Exposing,
    Cleanup,
}

/// The state that follows each state when its task hands back no intent.
pub open spec fn next_stage(s: Stage) -> Option<Stage> {
    match s {
        Stage::Initial => Some(Stage::Building),
        Stage::Building => Some(Stage::Deploying),
        Stage::Deploying => Some(Stage::Exposing),
        Stage::Exposing => None,
        Stage::Cleanup => None,
    }
}

/// Where the workflow stands after `n` transitions from `s` (`None` once it has ended),
/// when no task hands back an intent.
pub open spec fn stage_after(s: Option<Stage>, n: nat) -> Option<Stage>
    decreases n,
{
    if n == 0 {
        s
    } else {
        match s {
            Some(t) => stage_after(next_stage(t), (n - 1) as nat),
            None => None,
        }
    }
}

/// The actor workflow ends: from any state, when the tasks hand back no intent,
/// it has ended after at most four transitions.
pub proof fn lemma_actor_workflow_ends(s: Stage)
    ensures
        stage_after(Some(s), 4) is None,
{
    reveal_with_fuel(stage_after, 5);
}

/// Once the workflow has ended, no further transition starts it again.
proof fn lemma_ended_stays_ended(n: nat)
    ensures
        stage_after(None, n) is None,
    decreases n,
{
    if n > 0 {
        lemma_ended_stays_ended((n - 1) as nat);
    }
}

/// The path of an actor through its workflow, when no task hands back an intent:
/// initial, building, deploying, exposing, and then the end. No state hands over to
/// the cleanup state or back to the initial state, so a live actor is never cleaned
/// up by the workflow's own transitions, and every run from the initial state reaches
/// the exposing state, where the actor's service is created, before it ends.
pub proof fn lemma_actor_workflow_path()
    ensures
        stage_after(Some(Stage::Initial), 1) == Some(Stage::Building),
        stage_after(Some(Stage::Initial), 2) == Some(Stage::Deploying),
        stage_after(Some(Stage::Initial), 3) == Some(Stage::Exposing),
        stage_after(Some(Stage::Initial), 4) is None,
        forall|s: Stage| #[trigger] next_stage(s) != Some(Stage::Cleanup) && next_stage(s) != Some(Stage::Initial),
        forall|n: nat| #[trigger] stage_after(Some(Stage::Initial), n) != Some(Stage::Cleanup),
        forall|n: nat| #[trigger] stage_after(Some(Stage::Initial), n) is None ==> n >= 4,
{
    reveal_with_fuel(stage_after, 5);
    assert forall|n: nat| #[trigger] stage_after(Some(Stage::Initial), n) != Some(Stage::Cleanup) && (
    stage_after(Some(Stage::Initial), n) is None ==> n >= 4) by {
        if n >= 4 {
            assert(stage_after(Some(Stage::Initial), n) == stage_after(None, (n - 4) as nat));
            lemma_ended_stays_ended((n - 4) as nat);
        }
    }
}

/// `status` is present and reports state `s` as true.
pub open spec fn status_reports(status: &Option<ActorStatus>, s: ActorState) -> bool {
    match status {
        Some(st) => st.reports(s, true),
        None => false,
    }
}

fn reports_pending(status: &Option<ActorStatus>) -> (res: bool)
    ensures
        res == status_reports(status, ActorState::Pending),
{
    match status {
        Some(st) => st.pending(),
        None => false,
    }
}

fn reports_building(status: &Option<ActorStatus>) -> (res: bool)
    ensures
        res == status_reports(status, ActorState::Building),
{
    match status {
        Some(st) => st.building(),
        None => false,
    }
}

fn reports_running(status: &Option<ActorStatus>) -> (res: bool)
    ensures
        res == status_reports(status, ActorState::Running),
{
    match status {
        Some(st) => st.running(),
        None => false,
    }
}

/// The first state of an actor: it moves the actor from pending to building.
pub struct InitialState;

impl InitialState {
    /// Hands back the intent of the init task if it gave one, else the building state.
    pub fn handle(&self, task_intent: Option<Intent<Stage>>) -> (res: Option<Intent<Stage>>)
        ensures
            res == after_task(task_intent, next_stage(Stage::Initial)),
            task_intent is None ==> res == Some(Intent::State(Stage::Building)),
    {
        match task_intent {
            Some(i) => Some(i),
            None => Some(Intent::State(Stage::Building)),
        }
    }
}

/// Patches an actor from pending to building.
pub struct InitTask;

impl InitTask {
    pub fn new() -> (t: Self) {
        InitTask
    }

    /// The task runs for an actor whose status reports pending.
    pub fn matches(&self, status: &Option<ActorStatus>) -> (res: bool)
        ensures
            res == status_reports(status, ActorState::Pending),
    {
        reports_pending(status)
    }

    /// The condition the task patches: building, reason "Build".
    pub fn recorded_condition(&self) -> (c: crate::resources::crds::Condition)
        ensures
            crate::resources::crds::made_for(c, crate::resources::crds::actor_state_name(ActorState::Building), true, "Build"@, None),
    {
        ActorState::building()
    }
}

/// The state in which an actor's image is built.
pub struct BuildingState;

impl BuildingState {
    /// Hands back the intent of the build task if it gave one, else the deploying state.
    pub fn handle(&self, task_intent: Option<Intent<Stage>>) -> (res: Option<Intent<Stage>>)
        ensures
            res == after_task(task_intent, next_stage(Stage::Building)),
            task_intent is None ==> res == Some(Intent::State(Stage::Deploying)),
    {
        match task_intent {
            Some(i) => Some(i),
            None => Some(Intent::State(Stage::Deploying)),
        }
    }
}

/// Builds an actor's image, waits for the build, then marks the actor running.
pub struct BuildTask;

impl BuildTask {
    pub fn new() -> (t: Self) {
        BuildTask
    }

    /// The task runs for an actor whose status reports building.
    pub fn matches(&self, status: &Option<ActorStatus>) -> (res: bool)
        ensures
            res == status_reports(status, ActorState::Building),
    {
        reports_building(status)
    }

    /// An image is built when the actor is live, or when its image is not built yet.
    pub fn should_build(&self, live: bool, built: bool) -> (res: bool)
        ensures
            res == (live || !built),
    {
        live || !built
    }

    /// After a build: wait five seconds and look again while the build has not completed.
    pub fn after_build(&self, completed: bool) -> (res: Option<Intent<Stage>>)
        ensures
            res == if completed {
                None::<Intent<Stage>>
            } else {
                Some(Intent::<Stage>::Action(Action::Requeue(5)))
            },
    {
        if completed {
            None
        } else {
            Some(Intent::Action(Action::Requeue(5)))
        }
    }

    /// The condition patched once the image is built: running, reason "AutoRun".
    pub fn recorded_condition(&self) -> (c: crate::resources::crds::Condition)
        ensures
            crate::resources::crds::made_for(c, crate::resources::crds::actor_state_name(ActorState::Running), true, "AutoRun"@, None),
    {
        ActorState::running(true, "AutoRun", None)
    }
}

/// The state in which an actor's deployment is created or refreshed.
pub struct DeployingState;

impl DeployingState {
    /// Hands back the intent of the deploy task if it gave one, else the exposing state.
    pub fn handle(&self, task_intent: Option<Intent<Stage>>) -> (res: Option<Intent<Stage>>)
        ensures
            res == after_task(task_intent, next_stage(Stage::Deploying)),
            task_intent is None ==> res == Some(Intent::State(Stage::Exposing)),
    {
        match task_intent {
            Some(i) => Some(i),
            None => Some(Intent::State(Stage::Exposing)),
        }
    }
}

/// Creates the deployment of a running actor, or updates it.
pub struct DeployTask;

impl DeployTask {
    pub fn new() -> (t: Self) {
        DeployTask
    }

    /// The task runs for an actor whose status reports running.
    pub fn matches(&self, status: &Option<ActorStatus>) -> (res: bool)
        ensures
            res == status_reports(status, ActorState::Running),
    {
        reports_running(status)
    }
}

/// The state in which an actor's service is created or refreshed.
pub struct ExposingState;

impl ExposingState {
    /// Hands back the intent of the expose task if it gave one; the workflow ends here.
    pub fn handle(&self, task_intent: Option<Intent<Stage>>) -> (res: Option<Intent<Stage>>)
        ensures
            res == after_task(task_intent, next_stage(Stage::Exposing)),
            task_intent is None ==> res is None,
    {
        task_intent
    }
}

/// Creates the service of a running actor that has services, or updates it.
pub struct ExposeTask;

impl ExposeTask {
    pub fn new() -> (t: Self) {
        ExposeTask
    }

    /// The task runs for an actor whose status reports running and that has services.
    pub fn matches(&self, status: &Option<ActorStatus>, has_services: bool) -> (res: bool)
        ensures
            res == (status_reports(status, ActorState::Running) && has_services),
    {
        reports_running(status) && has_services
    }
}

/// The state in which a deleted actor is cleaned up; the workflow ends here.
pub struct CleanupState;

impl CleanupState {
    /// The workflow ends after cleanup, whatever the task did.
    pub fn handle(&self) -> (res: Option<Intent<Stage>>)
        ensures
            res is None,
    {
        None
    }
}

/// Cleans up after a deleted actor.
pub struct CleanupTask;

impl CleanupTask {
    pub fn new() -> (t: Self) {
        CleanupTask
    }

    /// The task is called directly by the controller, so it always runs.
    pub fn matches(&self) -> (res: bool)
        ensures
            res,
    {
        true
    }
}

/// An actor moves forward: once the condition that the init task records replaces
/// its status, the build task runs and the init task does not; once the condition
/// that the build task records replaces it, the deploy task runs and the build task
/// does not.
pub proof fn lemma_recorded_condition_enables_next_task(
    c: crate::resources::crds::Condition,
    status: ActorStatus,
    recorded: ActorState,
    reason: Seq<char>,
)
    requires
        recorded is Building || recorded is Running,
        status.conditions@ == seq![c],
        crate::resources::crds::made_for(c, crate::resources::crds::actor_state_name(recorded), true, reason, None),
    ensures
        recorded is Building ==> status_reports(&Some(status), ActorState::Building) && !status_reports(
            &Some(status),
            ActorState::Pending,
        ),
        recorded is Running ==> status_reports(&Some(status), ActorState::Running) && !status_reports(
            &Some(status),
            ActorState::Building,
        ),
{
    crate::resources::crds::lemma_actor_status_reports_its_only_condition(status, recorded, reason, None, ActorState::Pending);
    crate::resources::crds::lemma_actor_status_reports_its_only_condition(status, recorded, reason, None, ActorState::Building);
    crate::resources::crds::lemma_actor_status_reports_its_only_condition(status, recorded, reason, None, ActorState::Running);
}

} // verus!
