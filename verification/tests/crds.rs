use amphitheatre::resources::crds::{url, ActorState, PlaybookState, PlaybookStatus, PLAYBOOK_RESOURCE_NAME};

#[test]
fn url_joins_repository_reference_and_path() {
    let repo = "https://github.com/amphitheatre-app/amp-example-go.git".to_string();
    assert_eq!(url(&repo, &None, &None), repo);
    assert_eq!(url(&repo, &Some("master".into()), &None), format!("{}#master", repo));
    assert_eq!(url(&repo, &None, &Some("app".into())), format!("{}#:app", repo));
    assert_eq!(
        url(&repo, &Some("v1".into()), &Some("examples/app".into())),
        format!("{}#v1:examples/app", repo)
    );
}

#[test]
fn playbook_state_names() {
    assert_eq!(PlaybookState::Pending.to_string(), "Pending");
    assert_eq!(PlaybookState::Solving.to_string(), "Solving");
    assert_eq!(PlaybookState::Ready.to_string(), "Ready");
    assert_eq!(PlaybookState::Running.to_string(), "Running");
    assert_eq!(PlaybookState::Succeeded.to_string(), "Succeeded");
    assert_eq!(PlaybookState::Failed.to_string(), "Failed");
    assert_eq!(PLAYBOOK_RESOURCE_NAME, "playbooks.amphitheatre.app");
}

#[test]
fn playbook_conditions_carry_type_status_and_reason() {
    let c = PlaybookState::pending();
    assert_eq!(c.type_, "Pending");
    assert_eq!(c.status, "True");
    assert_eq!(c.reason, "Created");
    assert_eq!(c.message, "");
    assert_eq!(c.observed_generation, None);

    let c = PlaybookState::solving();
    assert_eq!((c.type_.as_str(), c.reason.as_str()), ("Solving", "Solve"));
    let c = PlaybookState::ready();
    assert_eq!((c.type_.as_str(), c.reason.as_str()), ("Ready", "Solved"));

    let c = PlaybookState::running(false, "auto_run", Some("stopped by user".into()));
    assert_eq!(c.type_, "Running");
    assert_eq!(c.status, "False");
    assert_eq!(c.reason, "AutoRun");
    assert_eq!(c.message, "stopped by user");

    let c = PlaybookState::succeeded(true, "Done", None);
    assert_eq!((c.type_.as_str(), c.status.as_str()), ("Succeeded", "True"));
    let c = PlaybookState::failed(true, "Crashed", None);
    assert_eq!((c.type_.as_str(), c.status.as_str()), ("Failed", "True"));
}

#[test]
fn status_reports_only_its_condition() {
    let status = PlaybookStatus { conditions: vec![PlaybookState::solving()] };
    assert!(status.solving());
    assert!(!status.pending());
    assert!(!status.ready());
    assert!(!status.running());
    assert!(!status.succeeded());
    assert!(!status.failed());

    let status = PlaybookStatus { conditions: vec![PlaybookState::failed(true, "Crashed", None)] };
    assert!(status.failed());
    assert!(!status.succeeded());
}

#[test]
fn status_with_false_condition_does_not_report_it() {
    let status = PlaybookStatus { conditions: vec![PlaybookState::succeeded(false, "NotYet", None)] };
    assert!(!status.succeeded());
    let empty = PlaybookStatus { conditions: vec![] };
    assert!(!empty.pending());
}

#[test]
fn actor_conditions_and_status() {
    let c = ActorState::building();
    assert_eq!((c.type_.as_str(), c.status.as_str(), c.reason.as_str()), ("Building", "True", "Build"));
    let c = ActorState::pending();
    assert_eq!((c.type_.as_str(), c.reason.as_str()), ("Pending", "Created"));
    assert_eq!(ActorState::Running.to_string(), "Running");
}
