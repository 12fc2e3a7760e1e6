//! The playbook controller of the composer: how the partners that a playbook's
//! actors name are resolved into further actors, and what a reconcile pass does.
use std::collections::HashMap;
use vstd::prelude::*;
use vstd::string::*;

use crate::composer::types::{Actor, PlaybookSpec};
use crate::workflow::Action;

verus! {

broadcast use vstd::string::group_string_axioms;

/// Some actor of `actors` is cloned from repository `r`.
pub open spec fn is_repo(actors: Seq<Actor>, r: Seq<char>) -> bool {
    exists|i: int| 0 <= i < actors.len() && (#[trigger] actors[i]).repo@ == r
}

/// Some actor of `actors` names repository `r` as a partner.
pub open spec fn is_partner(actors: Seq<Actor>, r: Seq<char>) -> bool {
    exists|i: int, j: int|
        0 <= i < actors.len() && 0 <= j < actors[i].partners@.len()
            && (#[trigger] actors[i].partners@[j])@ == r
}

/// `r` is one of the strings in `list`.
pub open spec fn listed(list: Seq<String>, r: Seq<char>) -> bool {
    exists|k: int| 0 <= k < list.len() && (#[trigger] list[k])@ == r
}

/// No string occurs twice in `list`.
pub open spec fn distinct(list: Seq<String>) -> bool {
    forall|a: int, b: int| 0 <= a < b < list.len() ==> (#[trigger] list[a])@ != (#[trigger] list[b])@
}

/// `fetched` lists, once each, exactly the partners that no actor is cloned from.
pub open spec fn fetches_of(actors: Seq<Actor>, fetched: Seq<String>) -> bool {
    &&& distinct(fetched)
    &&& forall|r: Seq<char>| listed(fetched, r) <==> (is_partner(actors, r) && !is_repo(actors, r))
}

/// Every partner that an actor names is the repository of some actor.
pub open spec fn resolved(actors: Seq<Actor>) -> bool {
    forall|r: Seq<char>| is_partner(actors, r) ==> is_repo(actors, r)
}

fn has_repo(actors: &Vec<Actor>, r: &String) -> (res: bool)
    ensures
        res == is_repo(actors@, r@),
{
    let mut i: usize = 0;
    while i < actors.len()
        invariant
            i <= actors@.len(),
            forall|k: int| 0 <= k < i ==> (#[trigger] actors@[k]).repo@ != r@,
        decreases actors@.len() - i,
    {
        if actors[i].repo == *r {
            assert(actors@[i as int].repo@ == r@);
            return true;
        }
        i = i + 1;
    }
    false
}

/// `r` is one of the strings in `list`.
pub fn has_string(list: &Vec<String>, r: &String) -> (res: bool)
    ensures
        res == listed(list@, r@),
{
    let mut i: usize = 0;
    while i < list.len()
        invariant
            i <= list@.len(),
            forall|k: int| 0 <= k < i ==> (#[trigger] list@[k])@ != r@,
        decreases list@.len() - i,
    {
        if list[i] == *r {
            assert(list@[i as int]@ == r@);
            return true;
        }
        i = i + 1;
    }
    false
}

/// The repositories to fetch for a playbook: each partner named by some actor that no
/// actor is cloned from, once, in the order in which they are first named.
pub fn fetches(actors: &Vec<Actor>) -> (res: Vec<String>)
    ensures
        fetches_of(actors@, res@),
        res@.len() == 0 <==> resolved(actors@),
{
    let mut res: Vec<String> = Vec::new();
    let mut i: usize = 0;
    while i < actors.len()
        invariant
            i <= actors@.len(),
            distinct(res@),
            forall|k: int|
                0 <= k < res@.len() ==> is_partner(actors@, (#[trigger] res@[k])@) && !is_repo(
                    actors@,
                    res@[k]@,
                ),
            forall|a: int, b: int|
                0 <= a < i && 0 <= b < actors@[a].partners@.len() && !is_repo(
                    actors@,
                    (#[trigger] actors@[a].partners@[b])@,
                ) ==> listed(res@, actors@[a].partners@[b]@),
        decreases actors@.len() - i,
    {
        let partners = &actors[i].partners;
        let mut j: usize = 0;
        while j < partners.len()
            invariant
                i < actors@.len(),
                partners@ == actors@[i as int].partners@,
                j <= partners@.len(),
                distinct(res@),
                forall|k: int|
                    0 <= k < res@.len() ==> is_partner(actors@, (#[trigger] res@[k])@) && !is_repo(
                        actors@,
                        res@[k]@,
                    ),
                forall|a: int, b: int|
                    0 <= a < i && 0 <= b < actors@[a].partners@.len() && !is_repo(
                        actors@,
                        (#[trigger] actors@[a].partners@[b])@,
                    ) ==> listed(res@, actors@[a].partners@[b]@),
                forall|b: int|
                    0 <= b < j && !is_repo(actors@, (#[trigger] partners@[b])@) ==> listed(
                        res@,
                        partners@[b]@,
                    ),
            decreases partners@.len() - j,
        {
            let p = &partners[j];
            assert(actors@[i as int].partners@[j as int] == *p);
            assert(is_partner(actors@, p@));
            if !has_repo(actors, p) && !has_string(&res, p) {
                let ghost old_res = res@;
                res.push(p.clone());
                assert(res@[old_res.len() as int]@ == p@);
                assert forall|r: Seq<char>| listed(old_res, r) implies listed(res@, r) by {
                    let k = choose|k: int| 0 <= k < old_res.len() && (#[trigger] old_res[k])@ == r;
                    assert(res@[k] == old_res[k]);
                }
            }
            j = j + 1;
        }
        i = i + 1;
    }
    assert forall|r: Seq<char>| listed(res@, r) <==> (is_partner(actors@, r) && !is_repo(actors@, r)) by {
        if is_partner(actors@, r) && !is_repo(actors@, r) {
            let (a, b) = choose|a: int, b: int|
                0 <= a < actors@.len() && 0 <= b < actors@[a].partners@.len()
                    && (#[trigger] actors@[a].partners@[b])@ == r;
        }
        if listed(res@, r) {
            let k = choose|k: int| 0 <= k < res@.len() && (#[trigger] res@[k])@ == r;
        }
    }
    proof {
        if res@.len() != 0 {
            assert(listed(res@, res@[0]@));
        } else {
            assert forall|r: Seq<char>| is_partner(actors@, r) implies is_repo(actors@, r) by {
                if !is_repo(actors@, r) {
                    assert(listed(res@, r));
                }
            }
        }
    }
    res
}

/// `a` is the actor that `read_partner` makes for repository `url`.
pub open spec fn read_from(a: Actor, url: Seq<char>) -> bool {
    &&& a.name@ == "amp-example-rust-demo"@
    &&& a.description@ == "A simple Rust example app"@
    &&& a.image@ == "amp-example-rust-demo"@
    &&& a.repo@ == url
    &&& a.path@ == "."@
    &&& a.reference@ == "master"@
    &&& a.commit@ == "d582e8ddf81177ecf2ae6b136642868ba089a898"@
    &&& a.environment@ == Map::<String, String>::empty()
    &&& a.partners@.len() == 0
}

/// Reads the actor that lives in a partner repository.
pub fn read_partner(url: &String) -> (a: Actor)
    ensures
        read_from(a, url@),
{
    Actor {
        name: "amp-example-rust-demo".to_owned(),
        description: "A simple Rust example app".to_owned(),
        image: "amp-example-rust-demo".to_owned(),
        repo: url.clone(),
        path: ".".to_owned(),
        reference: "master".to_owned(),
        commit: "d582e8ddf81177ecf2ae6b136642868ba089a898".to_owned(),
        environment: HashMap::new(),
        partners: Vec::new(),
    }
}

/// Resolution ends in one round: once the actors read from the fetched repositories
/// are added to a playbook, every partner it names is one of its actors.
pub proof fn lemma_resolution_completes_after_one_round(
    actors: Seq<Actor>,
    fetched: Seq<String>,
    added: Seq<Actor>,
)
    requires
        fetches_of(actors, fetched),
        added.len() == fetched.len(),
        forall|k: int| 0 <= k < added.len() ==> read_from(#[trigger] added[k], fetched[k]@),
    ensures
        resolved(actors + added),
{
    let all = actors + added;
    assert forall|r: Seq<char>| is_partner(all, r) implies is_repo(all, r) by {
        let (i, j) = choose|i: int, j: int|
            0 <= i < all.len() && 0 <= j < all[i].partners@.len() && (#[trigger] all[i].partners@[j])@
                == r;
        if i >= actors.len() {
            assert(read_from(added[i - actors.len()], fetched[i - actors.len()]@));
            assert(false);
        }
        assert(all[i] == actors[i]);
        assert(is_partner(actors, r));
        if is_repo(actors, r) {
            let k = choose|k: int| 0 <= k < actors.len() && (#[trigger] actors[k]).repo@ == r;
            assert(all[k] == actors[k]);
        } else {
            assert(listed(fetched, r));
            let k = choose|k: int| 0 <= k < fetched.len() && (#[trigger] fetched[k])@ == r;
            assert(read_from(added[k], fetched[k]@));
            assert(all[actors.len() + k] == added[k]);
        }
    }
}

/// When a reconcile pass fails, the object is reconciled again a minute later.
pub fn error_policy() -> (res: Action)
    ensures
        res == Action::Requeue(60),
{
    Action::Requeue(60)
}

/// The statuses on which a reconcile pass of the controller acts.
pub enum PlaybookStatus {
    Pending,
    Solving,
    Solved,
    Building,
    Running,
    Succeeded,
    Failed,
    Unknown,
}

/// Why a reconcile pass refuses a playbook.
pub enum Error {
    /// The playbook has no actors.
    EmptyActorsError,
}

/// What a reconcile pass of the controller does to a playbook.
pub enum Reconcile {
    /// Mark the playbook solving, and record that it is being solved.
    Solving,
    /// Read the actor of each of these partner repositories and add it to the playbook.
    Fetch(Vec<String>),
    /// Mark the playbook solved, and record it.
    Solved,
    /// Build each actor of the playbook.
    Build,
}

/// The statuses for which the controller has a reconcile pass: a playbook with no
/// status is pending.
pub open spec fn reconcilable(status: Option<PlaybookStatus>) -> bool {
    match status {
        None => true,
        Some(PlaybookStatus::Pending) => true,
        Some(PlaybookStatus::Solving) => true,
        Some(PlaybookStatus::Solved) => true,
        _ => false,
    }
}

/// The plan of a reconcile pass for a playbook with `actors` and `status`: a pending
/// one (or one without status) starts solving; a solving one fetches the partners it
/// lacks, or, when it lacks none, is solved; a solved one has its actors built. The
/// pass is repeated five minutes later.
pub open spec fn plans(actors: Seq<Actor>, status: Option<PlaybookStatus>, r: Reconcile, a: Action) -> bool {
    &&& a == Action::Requeue(300)
    &&& match status {
        None => r is Solving,
        Some(PlaybookStatus::Pending) => r is Solving,
        Some(PlaybookStatus::Solving) => if resolved(actors) {
            r is Solved
        } else {
            r matches Reconcile::Fetch(list) && fetches_of(actors, list@)
        },
        Some(PlaybookStatus::Solved) => r is Build,
        _ => false,
    }
}

/// Every reconcile pass of a playbook, whatever its status and actors, ends by
/// asking to be run again five minutes later: the action does not depend on the
/// status, so a solved playbook is checked again like any other.
pub proof fn lemma_every_pass_requeues_after_five_minutes(
    actors1: Seq<Actor>,
    status1: Option<PlaybookStatus>,
    r1: Reconcile,
    a1: Action,
    actors2: Seq<Actor>,
    status2: Option<PlaybookStatus>,
    r2: Reconcile,
    a2: Action,
)
    requires
        plans(actors1, status1, r1, a1),
        plans(actors2, status2, r2, a2),
    ensures
        a1 == Action::Requeue(300),
        a1 == a2,
{
}

impl PlaybookSpec {
    /// What a reconcile pass does for this playbook with `status`, whatever its
    /// actors: a pending one (or one without status) starts solving; a solving one
    /// fetches the partners it lacks, or, when it lacks none, is solved; a solved one
    /// has its actors built. The pass is repeated five minutes later.
    pub fn reconcile(&self, status: &Option<PlaybookStatus>) -> (res: (Reconcile, Action))
        requires
            reconcilable(*status),
        ensures
            plans(self.actors@, *status, res.0, res.1),
            res.1 == Action::Requeue(300),
    {
        let r = match status {
            None => Reconcile::Solving,
            Some(PlaybookStatus::Pending) => Reconcile::Solving,
            Some(PlaybookStatus::Solving) => {
                let list = fetches(&self.actors);
                if list.len() == 0 {
                    Reconcile::Solved
                } else {
                    Reconcile::Fetch(list)
                }
            },
            Some(PlaybookStatus::Solved) => Reconcile::Build,
            _ => {
                assert(false);
                Reconcile::Build
            },
        };
        (r, Action::Requeue(300))
    }
}

/// The reconciler that is called when a playbook changes: a playbook without actors
/// is refused; any other is reconciled by its own pass.
pub fn reconcile(playbook: &PlaybookSpec, status: &Option<PlaybookStatus>) -> (res: Result<(Reconcile, Action), Error>)
    requires
        playbook.actors@.len() == 0 || reconcilable(*status),
    ensures
        res is Err <==> playbook.actors@.len() == 0,
        res matches Ok((r, a)) ==> plans(playbook.actors@, *status, r, a),
        res matches Ok((_, a)) ==> a == Action::Requeue(300),
{
    if playbook.actors.len() == 0 {
        return Err(Error::EmptyActorsError);
    }
    Ok(playbook.reconcile(status))
}

/// A normal event that a reconcile pass records on a playbook.
pub struct Event {
    pub reason: String,
    pub note: String,
    pub action: String,
}

fn join3(a: &str, b: &String, c: &str) -> (res: String)
    ensures
        res@ == a@ + b@ + c@,
{
    let mut s = a.to_owned();
    s.append(b.as_str());
    s.append(c);
    s
}

/// The event recorded when playbook `name` starts solving.
pub fn solving_event(name: &String) -> (e: Event)
    ensures
        e.reason@ == "SolvingPlaybook"@,
        e.note@ == "Solving playbook `"@ + name@ + "`"@,
        e.action@ == "Reconciling"@,
{
    Event {
        reason: "SolvingPlaybook".to_owned(),
        note: join3("Solving playbook `", name, "`"),
        action: "Reconciling".to_owned(),
    }
}

/// The event recorded when the partner at `url` is read for playbook `name`.
pub fn read_partner_event(url: &String, name: &String) -> (e: Event)
    ensures
        e.reason@ == "ReadPartner"@,
        e.note@ == "Reading partner from `"@ + url@ + " for "@ + name@ + "`"@,
        e.action@ == "Reconciling"@,
{
    let mut note = join3("Reading partner from `", url, " for ");
    note.append(name.as_str());
    note.append("`");
    Event { reason: "ReadPartner".to_owned(), note, action: "Reconciling".to_owned() }
}

/// The event recorded when playbook `name` is solved.
pub fn solved_event(name: &String) -> (e: Event)
    ensures
        e.reason@ == "SolvedPlaybook"@,
        e.note@ == "Solved playbook `"@ + name@ + "`"@,
        e.action@ == "Reconciling"@,
{
    Event {
        reason: "SolvedPlaybook".to_owned(),
        note: join3("Solved playbook `", name, "`"),
        action: "Reconciling".to_owned(),
    }
}

/// The event recorded when playbook `name` is deleted.
pub fn delete_event(name: &String) -> (e: Event)
    ensures
        e.reason@ == "DeletePlaybook"@,
        e.note@ == "Delete playbook `"@ + name@ + "`"@,
        e.action@ == "Reconciling"@,
{
    Event {
        reason: "DeletePlaybook".to_owned(),
        note: join3("Delete playbook `", name, "`"),
        action: "Reconciling".to_owned(),
    }
}

} // verus!
