//! The namespace in which a playbook's resources live.
use vstd::prelude::*;
use vstd::string::*;

use crate::resources::{MANAGED_BY_LABEL, MANAGER};

verus! {

broadcast use vstd::string::group_string_axioms;

/// The labels of a playbook's namespace: it is managed by Amphitheatre.
pub fn labels() -> (res: Vec<(String, String)>)
    ensures
        res@.len() == 1,
        res@[0].0@ == MANAGED_BY_LABEL@,
        res@[0].1@ == MANAGER@,
{
    let mut res = Vec::new();
    res.push((MANAGED_BY_LABEL.to_owned(), MANAGER.to_owned()));
    res
}

} // verus!
