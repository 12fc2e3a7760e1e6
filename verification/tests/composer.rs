use amphitheatre::composer::controller::{delete_event, read_partner_event, solved_event, solving_event};
use std::collections::HashMap;

use amphitheatre::composer::actor_controller::{actor_step, ActorStep};
use amphitheatre::composer::controller::{
    error_policy, fetches, read_partner, reconcile, Error, PlaybookStatus as Phase, Reconcile,
};
use amphitheatre::composer::playbook_controller::{
    partners_to_fetch, playbook_step, reconciler, recorded_condition, solve, PlaybookStep,
};
use amphitheatre::composer::types::{Actor, PlaybookSpec};
use amphitheatre::resources::crds::{ActorState, ActorStatus, Partner, PlaybookState, PlaybookStatus};
use amphitheatre::workflow::Action;

fn spec(actors: Vec<Actor>) -> PlaybookSpec {
    PlaybookSpec { title: "t".into(), description: "d".into(), actors }
}

fn actor(repo: &str, partners: &[&str]) -> Actor {
    Actor {
        name: repo.to_string(),
        description: String::new(),
        image: String::new(),
        repo: repo.to_string(),
        path: ".".to_string(),
        reference: "master".to_string(),
        commit: String::new(),
        environment: HashMap::new(),
        partners: partners.iter().map(|p| p.to_string()).collect(),
    }
}

#[test]
fn fetches_lists_missing_partners_once_in_order() {
    let actors = vec![
        actor("https://a.git", &["https://b.git", "https://c.git", "https://a.git"]),
        actor("https://b.git", &["https://c.git", "https://d.git"]),
    ];
    assert_eq!(fetches(&actors), vec!["https://c.git".to_string(), "https://d.git".to_string()]);
}

#[test]
fn fetches_is_empty_when_all_partners_are_actors() {
    let actors = vec![actor("https://a.git", &["https://b.git"]), actor("https://b.git", &["https://a.git"])];
    assert!(fetches(&actors).is_empty());
    assert!(fetches(&vec![]).is_empty());
}

#[test]
fn resolution_completes_after_adding_read_partners() {
    let mut actors = vec![actor("https://a.git", &["https://x.git", "https://y.git"])];
    let fetched = fetches(&actors);
    assert_eq!(fetched.len(), 2);
    for url in &fetched {
        actors.push(read_partner(url));
    }
    assert!(fetches(&actors).is_empty());
}

#[test]
fn read_partner_makes_the_rust_demo_actor() {
    let a = read_partner(&"https://github.com/amphitheatre-app/amp-example-rust-demo".to_string());
    assert_eq!(a.name, "amp-example-rust-demo");
    assert_eq!(a.description, "A simple Rust example app");
    assert_eq!(a.image, "amp-example-rust-demo");
    assert_eq!(a.repo, "https://github.com/amphitheatre-app/amp-example-rust-demo");
    assert_eq!(a.path, ".");
    assert_eq!(a.reference, "master");
    assert_eq!(a.commit, "d582e8ddf81177ecf2ae6b136642868ba089a898");
    assert!(a.environment.is_empty());
    assert!(a.partners.is_empty());
}

#[test]
fn playbook_step_follows_the_status() {
    assert!(matches!(playbook_step(&None), PlaybookStep::Idle));
    let pending = Some(PlaybookStatus { conditions: vec![PlaybookState::pending()] });
    assert!(matches!(playbook_step(&pending), PlaybookStep::Init));
    let solving = Some(PlaybookStatus { conditions: vec![PlaybookState::solving()] });
    assert!(matches!(playbook_step(&solving), PlaybookStep::Solve));
    let running = Some(PlaybookStatus { conditions: vec![PlaybookState::running(true, "AutoRun", None)] });
    assert!(matches!(playbook_step(&running), PlaybookStep::Run));
    let stopped = Some(PlaybookStatus { conditions: vec![PlaybookState::running(false, "Stopped", None)] });
    assert!(matches!(playbook_step(&stopped), PlaybookStep::Idle));
    let ready = Some(PlaybookStatus { conditions: vec![PlaybookState::ready()] });
    assert!(matches!(playbook_step(&ready), PlaybookStep::Idle));
    let both = Some(PlaybookStatus { conditions: vec![PlaybookState::solving(), PlaybookState::pending()] });
    assert!(matches!(playbook_step(&both), PlaybookStep::Init));
}

#[test]
fn actor_step_follows_the_status() {
    assert!(matches!(actor_step(&None), ActorStep::Idle));
    let pending = Some(ActorStatus { conditions: vec![ActorState::pending()] });
    assert!(matches!(actor_step(&pending), ActorStep::Init));
    let building = Some(ActorStatus { conditions: vec![ActorState::building()] });
    assert!(matches!(actor_step(&building), ActorStep::Build));
    let running = Some(ActorStatus { conditions: vec![ActorState::running(true, "AutoRun", None)] });
    assert!(matches!(actor_step(&running), ActorStep::Run));
    let empty = Some(ActorStatus { conditions: vec![] });
    assert!(matches!(actor_step(&empty), ActorStep::Idle));
}

#[test]
fn error_policy_requeues_after_a_minute() {
    assert!(matches!(error_policy(), Action::Requeue(60)));
}

#[test]
fn reconcile_refuses_playbooks_without_actors() {
    assert!(matches!(reconcile(&spec(vec![]), &None), Err(Error::EmptyActorsError)));
    assert!(matches!(reconcile(&spec(vec![]), &Some(Phase::Running)), Err(Error::EmptyActorsError)));
}

#[test]
fn reconcile_moves_a_playbook_through_solving() {
    let actors = spec(vec![actor("https://a.git", &["https://b.git"])]);
    assert!(matches!(reconcile(&actors, &None), Ok((Reconcile::Solving, Action::Requeue(300)))));
    assert!(matches!(reconcile(&actors, &Some(Phase::Pending)), Ok((Reconcile::Solving, _))));
    match reconcile(&actors, &Some(Phase::Solving)) {
        Ok((Reconcile::Fetch(list), Action::Requeue(300))) => assert_eq!(list, vec!["https://b.git".to_string()]),
        _ => panic!("expected the partner to be fetched"),
    }
    let solved = spec(vec![actor("https://a.git", &[])]);
    assert!(matches!(reconcile(&solved, &Some(Phase::Solving)), Ok((Reconcile::Solved, _))));
    assert!(matches!(reconcile(&solved, &Some(Phase::Solved)), Ok((Reconcile::Build, _))));
}

#[test]
fn reconcile_events() {
    let name = "pb".to_string();
    let e = solving_event(&name);
    assert_eq!((e.reason.as_str(), e.note.as_str(), e.action.as_str()), ("SolvingPlaybook", "Solving playbook `pb`", "Reconciling"));
    let e = read_partner_event(&"https://b.git".to_string(), &name);
    assert_eq!((e.reason.as_str(), e.note.as_str()), ("ReadPartner", "Reading partner from `https://b.git for pb`"));
    let e = solved_event(&name);
    assert_eq!((e.reason.as_str(), e.note.as_str()), ("SolvedPlaybook", "Solved playbook `pb`"));
    let e = delete_event(&name);
    assert_eq!((e.reason.as_str(), e.note.as_str()), ("DeletePlaybook", "Delete playbook `pb`"));
    let e = amphitheatre::composer::actor_controller::delete_event(&"web".to_string());
    assert_eq!((e.reason.as_str(), e.note.as_str()), ("DeleteActor", "Delete actor `web`"));
}

#[test]
fn new_playbook_spec_has_no_actors() {
    let s = amphitheatre::composer::resource::new_spec("t".into(), "d".into());
    assert_eq!((s.title.as_str(), s.description.as_str()), ("t", "d"));
    assert!(s.actors.is_empty());
    assert!(matches!(reconcile(&s, &None), Err(Error::EmptyActorsError)));
}

#[test]
fn playbook_steps_hand_over_to_each_other() {
    check_recorded(PlaybookStep::Init, true, Some("Solving"));
    check_recorded(PlaybookStep::Solve, true, Some("Running"));
    check_recorded(PlaybookStep::Solve, false, None);
    check_recorded(PlaybookStep::Run, true, None);
    check_recorded(PlaybookStep::Idle, true, None);

    let after_init = Some(PlaybookStatus {
        conditions: vec![recorded_condition(&PlaybookStep::Init, false).unwrap()],
    });
    assert!(matches!(playbook_step(&after_init), PlaybookStep::Solve));
    let after_solve = Some(PlaybookStatus {
        conditions: vec![recorded_condition(&PlaybookStep::Solve, true).unwrap()],
    });
    assert!(matches!(playbook_step(&after_solve), PlaybookStep::Run));
}

fn check_recorded(step: PlaybookStep, nothing_to_fetch: bool, expected: Option<&str>) {
    let c = recorded_condition(&step, nothing_to_fetch);
    assert_eq!(c.map(|c| c.type_), expected.map(|s| s.to_string()));
}

#[test]
fn playbook_pass_acts_on_playbooks_without_actors() {
    let empty = spec(vec![]);
    assert!(matches!(empty.reconcile(&None), (Reconcile::Solving, Action::Requeue(300))));
    assert!(matches!(empty.reconcile(&Some(Phase::Pending)), (Reconcile::Solving, _)));
    assert!(matches!(empty.reconcile(&Some(Phase::Solving)), (Reconcile::Solved, Action::Requeue(300))));
    assert!(matches!(empty.reconcile(&Some(Phase::Solved)), (Reconcile::Build, _)));
}

#[test]
fn controllers_wait_for_changes() {
    let pending = Some(ActorStatus { conditions: vec![ActorState::pending()] });
    let (step, action) = amphitheatre::composer::actor_controller::reconcile(&pending);
    assert!(matches!(step, ActorStep::Init));
    assert!(matches!(action, Action::AwaitChange));
    let c = amphitheatre::composer::actor_controller::recorded_condition(&ActorStep::Init).unwrap();
    assert_eq!((c.type_.as_str(), c.status.as_str(), c.reason.as_str()), ("Building", "True", "Build"));
    assert!(amphitheatre::composer::actor_controller::recorded_condition(&ActorStep::Build).is_none());
    let after = Some(ActorStatus { conditions: vec![c] });
    assert!(matches!(actor_step(&after), ActorStep::Build));

    let solving = Some(PlaybookStatus { conditions: vec![PlaybookState::solving()] });
    let (step, action) = amphitheatre::composer::playbook_controller::reconcile(&solving);
    assert!(matches!(step, PlaybookStep::Solve));
    assert!(matches!(action, Action::AwaitChange));
}

fn partner(name: &str, repo: &str, reference: Option<&str>) -> Partner {
    Partner {
        name: name.into(),
        repository: repo.into(),
        reference: reference.map(|r| r.to_string()),
        path: None,
    }
}

#[test]
fn solving_fetches_partners_by_url() {
    let actor_urls = vec!["https://a.git#master".to_string()];
    let partners = vec![
        partner("a", "https://a.git", Some("master")),
        partner("b", "https://b.git", None),
        partner("a2", "https://a.git", None),
        partner("b", "https://b.git", None),
    ];
    let res = partners_to_fetch(&actor_urls, &partners);
    assert_eq!(res.len(), 2);
    assert_eq!((res[0].name.as_str(), res[0].repository.as_str()), ("b", "https://b.git"));
    assert_eq!((res[1].name.as_str(), res[1].url().as_str()), ("a2", "https://a.git"));
    assert!(partners_to_fetch(&actor_urls, &vec![]).is_empty());
}

#[test]
fn solving_step_records_running_only_when_nothing_is_left() {
    let urls = vec!["https://a.git".to_string()];
    let (fetched, c) = solve(&urls, &vec![partner("b", "https://b.git", None)]);
    assert_eq!(fetched.len(), 1);
    assert!(c.is_none());
    let (fetched, c) = solve(&urls, &vec![partner("a", "https://a.git", None)]);
    assert!(fetched.is_empty());
    let c = c.unwrap();
    assert_eq!((c.type_.as_str(), c.reason.as_str()), ("Running", "AutoRun"));

    let pending = Some(PlaybookStatus { conditions: vec![PlaybookState::pending()] });
    assert!(matches!(reconciler(0, &pending), Err(Error::EmptyActorsError)));
    assert!(matches!(reconciler(2, &pending), Ok((PlaybookStep::Init, Action::AwaitChange))));
}
