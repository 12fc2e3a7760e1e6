//! The playbook controller that follows the conditions in a playbook's status.
use vstd::prelude::*;

use crate::composer::controller::{has_string, listed, Error};
use crate::resources::crds;
use crate::resources::crds::{partner_url, Partner, PartnerView};
use crate::workflow::Action;

verus! {

/// What a reconcile pass of a playbook does.
pub enum PlaybookStep {
    /// Create the namespace, credentials and service account, then move to solving.
    Init,
    /// Fetch the partners that are not yet actors of the playbook.
    Solve,
    /// Create or update each actor of the playbook.
    Run,
    /// Nothing to do in the current state.
    Idle,
}

/// The step a reconcile pass takes for a playbook with the given status:
/// the first of pending, solving and running that the status reports.
pub open spec fn step_for(status: Option<crds::PlaybookStatus>) -> PlaybookStep {
    match status {
        Some(s) => if s.reports(crds::PlaybookState::Pending, true) {
            PlaybookStep::Init
        } else if s.reports(crds::PlaybookState::Solving, true) {
            PlaybookStep::Solve
        } else if s.reports(crds::PlaybookState::Running, true) {
            PlaybookStep::Run
        } else {
            PlaybookStep::Idle
        },
        None => PlaybookStep::Idle,
    }
}

/// The step a reconcile pass takes for a playbook with the given status.
pub fn playbook_step(status: &Option<crds::PlaybookStatus>) -> (res: PlaybookStep)
    ensures
        res == step_for(*status),
{
    match status {
        Some(s) => {
            if s.pending() {
                PlaybookStep::Init
            } else if s.solving() {
                PlaybookStep::Solve
            } else if s.running() {
                PlaybookStep::Run
            } else {
                PlaybookStep::Idle
            }
        },
        None => PlaybookStep::Idle,
    }
}

/// The condition that a reconcile pass records once its step has succeeded: init
/// moves the playbook to solving; solving, once there is nothing left to fetch,
/// moves it to running (reason "AutoRun"); other steps record nothing.
pub fn recorded_condition(step: &PlaybookStep, nothing_to_fetch: bool) -> (res: Option<crds::Condition>)
    ensures
        match step {
            PlaybookStep::Init => res matches Some(c) && crds::made_for(
                c,
                crds::playbook_state_name(crds::PlaybookState::Solving),
                true,
                "Solve"@,
                None,
            ),
            PlaybookStep::Solve => if nothing_to_fetch {
                res matches Some(c) && crds::made_for(
                    c,
                    crds::playbook_state_name(crds::PlaybookState::Running),
                    true,
                    "AutoRun"@,
                    None,
                )
            } else {
                res is None
            },
            _ => res is None,
        },
{
    match step {
        PlaybookStep::Init => Some(crds::PlaybookState::solving()),
        PlaybookStep::Solve => {
            if nothing_to_fetch {
                Some(crds::PlaybookState::running(true, "AutoRun", None))
            } else {
                None
            }
        },
        _ => None,
    }
}

/// A playbook moves forward: once the condition that a step records replaces its
/// status, the next pass takes the following step; init leads to solve, and a
/// solve with nothing left to fetch leads to run.
pub proof fn lemma_recorded_condition_leads_to_next_step(
    step: PlaybookStep,
    c: crds::Condition,
    status: crds::PlaybookStatus,
)
    requires
        step is Init || step is Solve,
        status.conditions@ == seq![c],
        match step {
            PlaybookStep::Init => crds::made_for(
                c,
                crds::playbook_state_name(crds::PlaybookState::Solving),
                true,
                "Solve"@,
                None,
            ),
            _ => crds::made_for(
                c,
                crds::playbook_state_name(crds::PlaybookState::Running),
                true,
                "AutoRun"@,
                None,
            ),
        },
    ensures
        step_for(Some(status)) == if step is Init {
            PlaybookStep::Solve
        } else {
            PlaybookStep::Run
        },
{
    if step is Init {
        crds::lemma_status_reports_its_only_condition(status, crds::PlaybookState::Solving, "Solve"@, None, crds::PlaybookState::Pending);
        crds::lemma_status_reports_its_only_condition(status, crds::PlaybookState::Solving, "Solve"@, None, crds::PlaybookState::Solving);
    } else {
        crds::lemma_status_reports_its_only_condition(status, crds::PlaybookState::Running, "AutoRun"@, None, crds::PlaybookState::Pending);
        crds::lemma_status_reports_its_only_condition(status, crds::PlaybookState::Running, "AutoRun"@, None, crds::PlaybookState::Solving);
        crds::lemma_status_reports_its_only_condition(status, crds::PlaybookState::Running, "AutoRun"@, None, crds::PlaybookState::Running);
    }
}

/// A reconcile pass of a playbook: the step its status calls for, after which the
/// controller waits for the playbook to change.
pub fn reconcile(status: &Option<crds::PlaybookStatus>) -> (res: (PlaybookStep, Action))
    ensures
        res.0 == step_for(*status),
        res.1 == Action::AwaitChange,
{
    (playbook_step(status), Action::AwaitChange)
}

/// Some partner of `s` is `q`, seen as plain values.
pub open spec fn has_partner(s: Seq<Partner>, q: PartnerView) -> bool {
    exists|k: int| 0 <= k < s.len() && (#[trigger] s[k]).view_of() == q
}

/// No partner occurs twice in `s`.
pub open spec fn distinct_partners(s: Seq<Partner>) -> bool {
    forall|a: int, b: int| 0 <= a < b < s.len() ==> (#[trigger] s[a]).view_of() != (#[trigger] s[b]).view_of()
}

fn contains_partner(list: &Vec<Partner>, p: &Partner) -> (res: bool)
    ensures
        res == has_partner(list@, p.view_of()),
{
    let mut i: usize = 0;
    while i < list.len()
        invariant
            i <= list@.len(),
            forall|k: int| 0 <= k < i ==> (#[trigger] list@[k]).view_of() != p.view_of(),
        decreases list@.len() - i,
    {
        if list[i].same_as(p) {
            assert(list@[i as int].view_of() == p.view_of());
            return true;
        }
        i = i + 1;
    }
    false
}

/// The partners a solving playbook fetches: each partner named by its actors whose
/// URL is not the URL of one of its actors, once each, in the order first named.
pub fn partners_to_fetch(actor_urls: &Vec<String>, partners: &Vec<Partner>) -> (res: Vec<Partner>)
    ensures
        distinct_partners(res@),
        forall|q: PartnerView|
            has_partner(res@, q) <==> (has_partner(partners@, q) && !listed(actor_urls@, partner_url(q))),
{
    let mut res: Vec<Partner> = Vec::new();
    let mut i: usize = 0;
    while i < partners.len()
        invariant
            i <= partners@.len(),
            distinct_partners(res@),
            forall|k: int|
                0 <= k < res@.len() ==> has_partner(partners@, (#[trigger] res@[k]).view_of()) && !listed(
                    actor_urls@,
                    partner_url(res@[k].view_of()),
                ),
            forall|j: int|
                0 <= j < i && !listed(actor_urls@, partner_url((#[trigger] partners@[j]).view_of()))
                    ==> has_partner(res@, partners@[j].view_of()),
        decreases partners@.len() - i,
    {
        let p = &partners[i];
        assert(has_partner(partners@, p.view_of())) by {
            assert(partners@[i as int].view_of() == p.view_of());
        }
        let u = p.url();
        if !has_string(actor_urls, &u) && !contains_partner(&res, p) {
            let ghost old_res = res@;
            res.push(p.duplicate());
            assert(res@[old_res.len() as int].view_of() == p.view_of());
            assert forall|q: PartnerView| has_partner(old_res, q) implies has_partner(res@, q) by {
                let k = choose|k: int| 0 <= k < old_res.len() && (#[trigger] old_res[k]).view_of() == q;
                assert(res@[k] == old_res[k]);
            }
        }
        i = i + 1;
    }
    assert forall|q: PartnerView|
        has_partner(res@, q) <==> (has_partner(partners@, q) && !listed(actor_urls@, partner_url(q))) by {
        if has_partner(partners@, q) && !listed(actor_urls@, partner_url(q)) {
            let j = choose|j: int| 0 <= j < partners@.len() && (#[trigger] partners@[j]).view_of() == q;
        }
        if has_partner(res@, q) {
            let k = choose|k: int| 0 <= k < res@.len() && (#[trigger] res@[k]).view_of() == q;
        }
    }
    res
}

/// The solving step of a playbook: the partners to fetch, and, exactly when there is
/// nothing to fetch, the condition that moves the playbook to running (reason "AutoRun").
pub fn solve(actor_urls: &Vec<String>, partners: &Vec<Partner>) -> (res: (Vec<Partner>, Option<crds::Condition>))
    ensures
        distinct_partners(res.0@),
        forall|q: PartnerView|
            has_partner(res.0@, q) <==> (has_partner(partners@, q) && !listed(actor_urls@, partner_url(q))),
        res.1 is Some <==> res.0@.len() == 0,
        res.1 matches Some(c) ==> crds::made_for(
            c,
            crds::playbook_state_name(crds::PlaybookState::Running),
            true,
            "AutoRun"@,
            None,
        ),
{
    let fetched = partners_to_fetch(actor_urls, partners);
    let condition = recorded_condition(&PlaybookStep::Solve, fetched.len() == 0);
    (fetched, condition)
}

/// The reconciler that is called when a playbook changes: a playbook with no actors
/// is refused; any other takes the step its status calls for, after which the
/// controller waits for the playbook to change.
pub fn reconciler(actor_count: usize, status: &Option<crds::PlaybookStatus>) -> (res: Result<(PlaybookStep, Action), Error>)
    ensures
        res is Err <==> actor_count == 0,
        res matches Ok((step, a)) ==> step == step_for(*status) && a == Action::AwaitChange,
{
    if actor_count == 0 {
        return Err(Error::EmptyActorsError);
    }
    Ok(reconcile(status))
}

} // verus!
