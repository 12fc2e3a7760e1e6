//! The playbook workflow: initial, resolving, running, and cleanup.
use vstd::prelude::*;

use crate::composer::controller::{has_string, listed};
use crate::resources::crds::{Partner, PartnerView, PlaybookState, PlaybookStatus};
use crate::workflow::{after_task, Intent};

verus! {

/// The states of the playbook workflow.
pub enum Stage {
    Initial,
    Resolving,
    Running,
    Cleanup,
}

/// `status` is present and reports state `s` as true.
pub open spec fn status_reports(status: &Option<PlaybookStatus>, s: PlaybookState) -> bool {
    match status {
        Some(st) => st.reports(s, true),
        None => false,
    }
}

/// A named partner seen as plain values.
pub type NamedView = (Seq<char>, PartnerView);

pub open spec fn named_view(it: (String, Partner)) -> NamedView {
    (it.0@, it.1.view_of())
}

/// Some named partner of `s` is `v`.
pub open spec fn has_named(s: Seq<(String, Partner)>, v: NamedView) -> bool {
    exists|k: int| 0 <= k < s.len() && named_view(#[trigger] s[k]) == v
}

/// No named partner occurs twice in `s`.
pub open spec fn distinct_named(s: Seq<(String, Partner)>) -> bool {
    forall|a: int, b: int| 0 <= a < b < s.len() ==> named_view(#[trigger] s[a]) != named_view(#[trigger] s[b])
}

fn contains_named(list: &Vec<(String, Partner)>, it: &(String, Partner)) -> (res: bool)
    ensures
        res == has_named(list@, named_view(*it)),
{
    let mut i: usize = 0;
    while i < list.len()
        invariant
            i <= list@.len(),
            forall|k: int| 0 <= k < i ==> named_view(#[trigger] list@[k]) != named_view(*it),
        decreases list@.len() - i,
    {
        if list[i].0 == it.0 && list[i].1.same_as(&it.1) {
            assert(named_view(list@[i as int]) == named_view(*it));
            return true;
        }
        i = i + 1;
    }
    false
}

/// The first state of a playbook: it creates its namespace, adds the preface and
/// moves the playbook to resolving.
pub struct InitialState;

impl InitialState {
    /// Hands back the intent of the init task if it gave one, else the resolving state.
    pub fn handle(&self, task_intent: Option<Intent<Stage>>) -> (res: Option<Intent<Stage>>)
        ensures
            res == after_task(task_intent, Some(Stage::Resolving)),
    {
        match task_intent {
            Some(i) => Some(i),
            None => Some(Intent::State(Stage::Resolving)),
        }
    }
}

/// Prepares a pending playbook.
pub struct InitTask;

impl InitTask {
    pub fn new() -> (t: Self) {
        InitTask
    }

    /// The task runs for a playbook whose status reports pending.
    pub fn matches(&self, status: &Option<PlaybookStatus>) -> (res: bool)
        ensures
            res == status_reports(status, PlaybookState::Pending),
    {
        match status {
            Some(st) => st.pending(),
            None => false,
        }
    }
}

/// The state in which the partners of a playbook are resolved into actors.
pub struct ResolvingState;

impl ResolvingState {
    /// Hands back the intent of the resolve task if it gave one, else the running state.
    pub fn handle(&self, task_intent: Option<Intent<Stage>>) -> (res: Option<Intent<Stage>>)
        ensures
            res == after_task(task_intent, Some(Stage::Running)),
    {
        match task_intent {
            Some(i) => Some(i),
            None => Some(Intent::State(Stage::Running)),
        }
    }
}

/// Fetches the partners that a playbook still lacks.
pub struct ResolveTask;

impl ResolveTask {
    pub fn new() -> (t: Self) {
        ResolveTask
    }

    /// The task runs for a playbook whose status reports that it is being solved.
    pub fn matches(&self, status: &Option<PlaybookStatus>) -> (res: bool)
        ensures
            res == status_reports(status, PlaybookState::Solving),
    {
        match status {
            Some(st) => st.solving(),
            None => false,
        }
    }

    /// The partners to fetch: each named partner whose name is not the name of an
    /// existing character, once each (a name with its partner), in the order first named.
    pub fn fetches(&self, existing: &Vec<String>, partners: &Vec<(String, Partner)>) -> (res: Vec<(String, Partner)>)
        ensures
            distinct_named(res@),
            forall|v: NamedView| has_named(res@, v) <==> (has_named(partners@, v) && !listed(existing@, v.0)),
    {
        let mut res: Vec<(String, Partner)> = Vec::new();
        let mut i: usize = 0;
        while i < partners.len()
            invariant
                i <= partners@.len(),
                distinct_named(res@),
                forall|k: int|
                    0 <= k < res@.len() ==> has_named(partners@, named_view(#[trigger] res@[k])) && !listed(
                        existing@,
                        res@[k].0@,
                    ),
                forall|j: int|
                    0 <= j < i && !listed(existing@, (#[trigger] partners@[j]).0@) ==> has_named(
                        res@,
                        named_view(partners@[j]),
                    ),
            decreases partners@.len() - i,
        {
            let item = &partners[i];
            assert(has_named(partners@, named_view(*item))) by {
                assert(named_view(partners@[i as int]) == named_view(*item));
            }
            if !has_string(existing, &item.0) && !contains_named(&res, item) {
                let ghost old_res = res@;
                res.push((item.0.clone(), item.1.duplicate()));
                assert(named_view(res@[old_res.len() as int]) == named_view(*item));
                assert forall|v: NamedView| has_named(old_res, v) implies has_named(res@, v) by {
                    let k = choose|k: int| 0 <= k < old_res.len() && named_view(#[trigger] old_res[k]) == v;
                    assert(res@[k] == old_res[k]);
                }
            }
            i = i + 1;
        }
        assert forall|v: NamedView| has_named(res@, v) <==> (has_named(partners@, v) && !listed(existing@, v.0)) by {
            if has_named(partners@, v) && !listed(existing@, v.0) {
                let j = choose|j: int| 0 <= j < partners@.len() && named_view(#[trigger] partners@[j]) == v;
            }
            if has_named(res@, v) {
                let k = choose|k: int| 0 <= k < res@.len() && named_view(#[trigger] res@[k]) == v;
            }
        }
        res
    }

    /// The resolving step: the named partners to fetch and, exactly when there is
    /// nothing to fetch, the condition that moves the playbook to running (reason "AutoRun").
    pub fn resolve(&self, existing: &Vec<String>, partners: &Vec<(String, Partner)>) -> (res: (
        Vec<(String, Partner)>,
        Option<crate::resources::crds::Condition>,
    ))
        ensures
            distinct_named(res.0@),
            forall|v: NamedView| has_named(res.0@, v) <==> (has_named(partners@, v) && !listed(existing@, v.0)),
            res.1 is Some <==> res.0@.len() == 0,
            res.1 matches Some(c) ==> crate::resources::crds::made_for(
                c,
                crate::resources::crds::playbook_state_name(PlaybookState::Running),
                true,
                "AutoRun"@,
                None,
            ),
    {
        let fetched = self.fetches(existing, partners);
        let condition = self.recorded_condition(fetched.len() == 0);
        (fetched, condition)
    }

    /// The condition recorded once resolving has nothing left to fetch: running,
    /// reason "AutoRun"; while partners remain, nothing is recorded.
    pub fn recorded_condition(&self, nothing_to_fetch: bool) -> (res: Option<crate::resources::crds::Condition>)
        ensures
            if nothing_to_fetch {
                res matches Some(c) && crate::resources::crds::made_for(
                    c,
                    crate::resources::crds::playbook_state_name(PlaybookState::Running),
                    true,
                    "AutoRun"@,
                    None,
                )
            } else {
                res is None
            },
    {
        if nothing_to_fetch {
            Some(PlaybookState::running(true, "AutoRun", None))
        } else {
            None
        }
    }
}

/// The state in which a deleted playbook is cleaned up; the workflow ends here.
pub struct CleanupState;

impl CleanupState {
    /// Hands back the intent of the cleanup task if it gave one; no state follows.
    pub fn handle(&self, task_intent: Option<Intent<Stage>>) -> (res: Option<Intent<Stage>>)
        ensures
            res == after_task(task_intent, None),
    {
        task_intent
    }
}

/// Cleans up after a deleted playbook.
pub struct CleanupTask;

impl CleanupTask {
    pub fn new() -> (t: Self) {
        CleanupTask
    }

    /// The task is called directly by the controller, so it always runs.
    pub fn matches(&self) -> (res: bool)
        ensures
            res,
    {
        true
    }
}

} // verus!
