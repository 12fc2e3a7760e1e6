//! The repositories through which the API reads its records.
use vstd::prelude::*;

verus! {

/// The repository of plays.
pub struct PlayRepository;

/// The repository of playbooks.
pub struct PlaybookRepository;

} // verus!
