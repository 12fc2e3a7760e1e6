//! The playbook resources that the composer creates.
use vstd::prelude::*;

use crate::composer::types::PlaybookSpec;

verus! {

/// The spec of a new playbook: its title and description, and no actors yet.
pub fn new_spec(title: String, description: String) -> (spec: PlaybookSpec)
    ensures
        spec.title == title,
        spec.description == description,
        spec.actors@.len() == 0,
{
    PlaybookSpec { title, description, actors: Vec::new() }
}

} // verus!
