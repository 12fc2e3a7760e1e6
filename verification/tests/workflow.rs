use amphitheatre::resources::crds::{ActorState, ActorStatus, Partner, PlaybookState, PlaybookStatus};
use amphitheatre::workflow::actor::{self, Stage};
use amphitheatre::workflow::playbook;
use amphitheatre::workflow::{Action, Intent, Workflow};

fn next(i: Option<Intent<Stage>>) -> Option<Stage> {
    match i {
        Some(Intent::State(s)) => Some(s),
        _ => None,
    }
}

#[test]
fn actor_workflow_walks_through_its_states_and_ends() {
    let mut stage = Some(Stage::Initial);
    let mut steps = 0;
    while let Some(s) = stage {
        stage = match s {
            Stage::Initial => next(actor::InitialState.handle(None)),
            Stage::Building => next(actor::BuildingState.handle(None)),
            Stage::Deploying => next(actor::DeployingState.handle(None)),
            Stage::Exposing => next(actor::ExposingState.handle(None)),
            Stage::Cleanup => next(actor::CleanupState.handle()),
        };
        steps += 1;
    }
    assert_eq!(steps, 4);
}

#[test]
fn task_intents_take_precedence() {
    let i = actor::BuildingState.handle(Some(Intent::Action(Action::Requeue(5))));
    assert!(matches!(i, Some(Intent::Action(Action::Requeue(5)))));
    let i = actor::InitialState.handle(None);
    assert!(matches!(i, Some(Intent::State(Stage::Building))));
}

#[test]
fn build_task_decisions() {
    let t = actor::BuildTask::new();
    assert!(t.should_build(true, true));
    assert!(t.should_build(false, false));
    assert!(!t.should_build(false, true));
    assert!(matches!(t.after_build(false), Some(Intent::Action(Action::Requeue(5)))));
    assert!(t.after_build(true).is_none());
    let c = t.recorded_condition();
    assert_eq!((c.type_.as_str(), c.status.as_str(), c.reason.as_str()), ("Running", "True", "AutoRun"));
}

#[test]
fn actor_tasks_match_their_status() {
    let pending = Some(ActorStatus { conditions: vec![ActorState::pending()] });
    let running = Some(ActorStatus { conditions: vec![ActorState::running(true, "AutoRun", None)] });
    assert!(actor::InitTask::new().matches(&pending));
    assert!(!actor::InitTask::new().matches(&running));
    assert!(!actor::InitTask::new().matches(&None));
    assert!(actor::DeployTask::new().matches(&running));
    assert!(actor::ExposeTask::new().matches(&running, true));
    assert!(!actor::ExposeTask::new().matches(&running, false));
    assert!(!actor::BuildTask::new().matches(&running));
    assert!(actor::CleanupTask::new().matches());
}

#[test]
fn playbook_workflow_states_and_tasks() {
    let pending = Some(PlaybookStatus { conditions: vec![PlaybookState::pending()] });
    let solving = Some(PlaybookStatus { conditions: vec![PlaybookState::solving()] });
    assert!(playbook::InitTask::new().matches(&pending));
    assert!(!playbook::InitTask::new().matches(&solving));
    assert!(playbook::ResolveTask::new().matches(&solving));
    assert!(!playbook::ResolveTask::new().matches(&None));
    assert!(playbook::CleanupTask::new().matches());
    assert!(matches!(
        playbook::InitialState.handle(None),
        Some(Intent::State(playbook::Stage::Resolving))
    ));
    assert!(matches!(
        playbook::ResolvingState.handle(None),
        Some(Intent::State(playbook::Stage::Running))
    ));
    assert!(playbook::CleanupState.handle(None).is_none());
}

#[test]
fn workflow_transitions() {
    let mut w = Workflow::new(Stage::Initial);
    w.transition(Stage::Building);
    assert!(matches!(w.state, Stage::Building));
}

#[test]
fn actor_tasks_hand_over_to_each_other() {
    let after_init = Some(ActorStatus { conditions: vec![actor::InitTask::new().recorded_condition()] });
    assert!(actor::BuildTask::new().matches(&after_init));
    assert!(!actor::InitTask::new().matches(&after_init));
    let after_build = Some(ActorStatus { conditions: vec![actor::BuildTask::new().recorded_condition()] });
    assert!(actor::DeployTask::new().matches(&after_build));
    assert!(!actor::BuildTask::new().matches(&after_build));
}


fn named(name: &str, repo: &str) -> (String, Partner) {
    (name.to_string(), Partner { name: name.into(), repository: repo.into(), reference: None, path: None })
}

#[test]
fn resolving_fetches_partners_missing_by_name() {
    let t = playbook::ResolveTask::new();
    let existing = vec!["web".to_string()];
    let partners = vec![named("web", "https://web.git"), named("db", "https://db.git"), named("db", "https://db.git")];
    let res = t.fetches(&existing, &partners);
    assert_eq!(res.len(), 1);
    assert_eq!((res[0].0.as_str(), res[0].1.repository.as_str()), ("db", "https://db.git"));
    let c = t.recorded_condition(true).unwrap();
    assert_eq!((c.type_.as_str(), c.reason.as_str()), ("Running", "AutoRun"));
    assert!(t.recorded_condition(false).is_none());
}

#[test]
fn resolving_step_records_running_only_when_nothing_is_left() {
    let t = playbook::ResolveTask::new();
    let existing = vec!["web".to_string()];
    let (fetched, c) = t.resolve(&existing, &vec![named("db", "https://db.git")]);
    assert_eq!(fetched.len(), 1);
    assert!(c.is_none());
    let (fetched, c) = t.resolve(&existing, &vec![named("web", "https://web.git")]);
    assert!(fetched.is_empty());
    assert_eq!(c.unwrap().type_, "Running");
}
