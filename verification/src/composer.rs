//! The composer: the controllers that reconcile playbooks and actors.
pub mod actor_controller;
pub mod controller;
pub mod playbook_controller;
pub mod resource;
pub mod types;
