//! The syncer: it receives synchronization requests for an actor's workspace from
//! a NATS stream and applies them to the files. Here stand the subjects it
//! subscribes to, the requests, and what it does for each.
use vstd::prelude::*;
use vstd::string::*;

verus! {

broadcast use vstd::string::group_string_axioms;

/// The name of the durable consumer through which the syncer reads its stream.
pub const CONSUMER_NAME: &'static str = "amp-syncer";

/// The configuration parameters of the syncer.
pub struct Config {
    /// The NATS URL.
    pub nats_url: String,
    /// The workspace path.
    pub workspace: String,
    /// The playbook identifier.
    pub playbook: String,
    /// The actor name.
    pub actor: String,
}

impl Config {
    /// The subject of this actor's requests: `<playbook>.<actor>`.
    pub fn subject(&self) -> (res: String)
        ensures
            res@ == self.playbook@ + "."@ + self.actor@,
    {
        let mut s = self.playbook.clone();
        s.append(".");
        s.append(self.actor.as_str());
        s
    }

    /// The subjects of the playbook's stream: `<playbook>.*`, all its actors.
    pub fn stream_subject(&self) -> (res: String)
        ensures
            res@ == self.playbook@ + ".*"@,
    {
        let mut s = self.playbook.clone();
        s.append(".*");
        s
    }
}

/// What happened to the workspace.
pub enum EventKind {
    Create,
    Modify,
    Rename,
    Remove,
    Overwrite,
    Other,
}

/// A path in the workspace.
pub enum SyncPath {
    File(String),
    Directory(String),
}

/// A synchronization request: what happened, to which paths, and a tarball of
/// the changed files where there is one.
pub struct Synchronization {
    pub kind: EventKind,
    pub paths: Vec<SyncPath>,
    pub payload: Option<Vec<u8>>,
}

/// How a request is applied to the workspace.
pub enum Handler {
    /// Create the paths that are not there yet.
    Create,
    /// Unpack the payload over the workspace.
    Modify,
    /// Nothing to do for a rename.
    Rename,
    /// Remove the paths that are there.
    Remove,
    /// Unpack the payload over the workspace.
    Overwrite,
    /// Nothing to do for another event.
    Ignore,
}

/// Each kind of request has its own handler; other events are ignored.
pub fn handler_for(kind: &EventKind) -> (res: Handler)
    ensures
        res == match kind {
            EventKind::Create => Handler::Create,
            EventKind::Modify => Handler::Modify,
            EventKind::Rename => Handler::Rename,
            EventKind::Remove => Handler::Remove,
            EventKind::Overwrite => Handler::Overwrite,
            EventKind::Other => Handler::Ignore,
        },
{
    match kind {
        EventKind::Create => Handler::Create,
        EventKind::Modify => Handler::Modify,
        EventKind::Rename => Handler::Rename,
        EventKind::Remove => Handler::Remove,
        EventKind::Overwrite => Handler::Overwrite,
        EventKind::Other => Handler::Ignore,
    }
}

/// What the syncer does with a message once it has tried to handle it.
pub enum Outcome {
    /// Leave the message unacknowledged and go on with the next one.
    Unacknowledged,
    /// Acknowledge the message and go on.
    Acknowledge,
    /// Acknowledge the message and exit: a one-time sync is complete.
    AcknowledgeAndExit,
}

/// A message that could not be handled stays unacknowledged; one that was is
/// acknowledged, and in one-time mode an overwrite ends the syncer.
pub fn after_handling(kind: &EventKind, handled: bool, once: bool) -> (res: Outcome)
    ensures
        res == if !handled {
            Outcome::Unacknowledged
        } else if once && *kind is Overwrite {
            Outcome::AcknowledgeAndExit
        } else {
            Outcome::Acknowledge
        },
{
    if !handled {
        Outcome::Unacknowledged
    } else if once && matches!(kind, EventKind::Overwrite) {
        Outcome::AcknowledgeAndExit
    } else {
        Outcome::Acknowledge
    }
}

/// A change to one path of the workspace.
pub enum FsOp<'a> {
    /// Create the file, and its parent directories where they are missing.
    CreateFile(&'a String),
    /// Create the directory and its parents.
    CreateDir(&'a String),
    RemoveFile(&'a String),
    RemoveDir(&'a String),
    /// Leave the path as it is.
    Skip,
}

/// What a create request does to a path: nothing when it is already there,
/// else it creates the file or the directory.
pub fn create_op<'a>(path: &'a SyncPath, present: bool) -> (res: FsOp<'a>)
    ensures
        res == if present {
            FsOp::Skip
        } else {
            match path {
                SyncPath::File(f) => FsOp::CreateFile(f),
                SyncPath::Directory(d) => FsOp::CreateDir(d),
            }
        },
{
    if present {
        FsOp::Skip
    } else {
        match path {
            SyncPath::File(f) => FsOp::CreateFile(f),
            SyncPath::Directory(d) => FsOp::CreateDir(d),
        }
    }
}

/// What a remove request does to a path: nothing when it is not there,
/// else it removes the file or the directory with all it holds.
pub fn remove_op<'a>(path: &'a SyncPath, present: bool) -> (res: FsOp<'a>)
    ensures
        res == if !present {
            FsOp::Skip
        } else {
            match path {
                SyncPath::File(f) => FsOp::RemoveFile(f),
                SyncPath::Directory(d) => FsOp::RemoveDir(d),
            }
        },
{
    if !present {
        FsOp::Skip
    } else {
        match path {
            SyncPath::File(f) => FsOp::RemoveFile(f),
            SyncPath::Directory(d) => FsOp::RemoveDir(d),
        }
    }
}

} // verus!
