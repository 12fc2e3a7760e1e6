//! The configuration parameters of the application.
use vstd::prelude::*;

verus! {

/// The configuration parameters for the application.
///
/// These can either be passed on the command line, or pulled from environment variables.
/// The latter is preferred as environment variables are one of the recommended ways to
/// get configuration from Kubernetes Secrets in deployment.
pub struct Config {
    /// The connection URL for the Postgres database this application should use.
    pub database_url: String,
    /// The registry prefix for its corresponding registry.
    pub registry_url: String,
    /// The path between the unique registry and the repo.
    /// Depending on the registry, it may be nested, or single depth.
    pub registry_namespace: String,
    /// The username of Docker Image Registry
    pub registry_username: String,
    /// The password of Docker Image Registry
    pub registry_password: String,
}

} // verus!
