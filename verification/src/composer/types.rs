//! The types of the composer: a playbook's actors and phases.
use std::collections::HashMap;
use vstd::prelude::*;

verus! {

/// An actor of a playbook: a repository to build and run.
pub struct Actor {
    /// The title of the actor.
    pub name: String,
    /// The description of the actor.
    pub description: String,
    /// Specifies the image to launch the container. The image must follow
    /// the Open Container Specification addressable image format,
    /// such as: [<registry>/][<project>/]<image>[:<tag>|@<digest>].
    pub image: String,
    /// Git repository the package should be cloned from,
    /// e.g. https://github.com/amphitheatre-app/amphitheatre.git.
    pub repo: String,
    /// Relative path from the repo root to the configuration file,
    /// e.g. getting-started/amp.yaml.
    pub path: String,
    /// Git ref the package should be cloned from, e.g. master or main.
    pub reference: String,
    /// The selected commit of the actor.
    pub commit: String,
    pub environment: HashMap<String, String>,
    /// Repositories of the actors that this actor needs beside it.
    pub partners: Vec<String>,
}

/// The phases of a playbook as the composer records them.
pub enum PlaybookStatus {
    Initial,
    Completed,
    Downloaded,
    Builded,
    Published,
    Deployed,
    Finished,
}

/// The spec of a playbook: what it is, and its actors.
pub struct PlaybookSpec {
    pub title: String,
    pub description: String,
    /// The actors of the playbook; a playbook is reconciled only with at least one.
    pub actors: Vec<Actor>,
}

} // verus!
