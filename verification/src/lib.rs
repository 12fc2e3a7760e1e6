//! Amphitheatre: the verified core of a Kubernetes playbook and actor composer.
pub mod composer;
pub mod config;
pub mod handlers;
pub mod models;
pub mod repositories;
pub mod resources;
pub mod response;
pub mod schema;
pub mod services;
pub mod syncer;
pub mod workflow;
