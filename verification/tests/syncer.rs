use amphitheatre::syncer::{
    after_handling, create_op, handler_for, remove_op, Config, EventKind, FsOp, Handler, Outcome, SyncPath, CONSUMER_NAME,
};

fn config() -> Config {
    Config {
        nats_url: "nats://localhost:4222".into(),
        workspace: "/workspace".into(),
        playbook: "pb1".into(),
        actor: "web".into(),
    }
}

#[test]
fn syncer_subjects() {
    assert_eq!(config().subject(), "pb1.web");
    assert_eq!(config().stream_subject(), "pb1.*");
    assert_eq!(CONSUMER_NAME, "amp-syncer");
}

#[test]
fn messages_are_acknowledged_once_handled() {
    assert!(matches!(after_handling(&EventKind::Create, false, true), Outcome::Unacknowledged));
    assert!(matches!(after_handling(&EventKind::Create, true, true), Outcome::Acknowledge));
    assert!(matches!(after_handling(&EventKind::Overwrite, true, false), Outcome::Acknowledge));
    assert!(matches!(after_handling(&EventKind::Overwrite, true, true), Outcome::AcknowledgeAndExit));
    assert!(matches!(after_handling(&EventKind::Overwrite, false, true), Outcome::Unacknowledged));
}

#[test]
fn filesystem_operations_of_requests() {
    let f = SyncPath::File("a.txt".into());
    let d = SyncPath::Directory("src".into());
    assert!(matches!(create_op(&f, true), FsOp::Skip));
    assert!(matches!(create_op(&f, false), FsOp::CreateFile(p) if p == "a.txt"));
    assert!(matches!(create_op(&d, false), FsOp::CreateDir(p) if p == "src"));
    assert!(matches!(remove_op(&f, false), FsOp::Skip));
    assert!(matches!(remove_op(&f, true), FsOp::RemoveFile(p) if p == "a.txt"));
    assert!(matches!(remove_op(&d, true), FsOp::RemoveDir(p) if p == "src"));
}

#[test]
fn requests_are_dispatched_by_kind() {
    assert!(matches!(handler_for(&EventKind::Create), Handler::Create));
    assert!(matches!(handler_for(&EventKind::Modify), Handler::Modify));
    assert!(matches!(handler_for(&EventKind::Rename), Handler::Rename));
    assert!(matches!(handler_for(&EventKind::Remove), Handler::Remove));
    assert!(matches!(handler_for(&EventKind::Overwrite), Handler::Overwrite));
    assert!(matches!(handler_for(&EventKind::Other), Handler::Ignore));
}
