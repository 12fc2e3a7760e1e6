//! Custom resource helpers: the conditions that make up the status of playbooks
//! and actors, the states they report, and repository URLs.
use convert_case::{Case, Casing};
use k8s_openapi::apimachinery::pkg::apis::meta::v1::Time;
use vstd::prelude::*;
use vstd::string::*;

verus! {

broadcast use vstd::string::group_string_axioms;

/// The name of the playbook custom resource definition.
pub const PLAYBOOK_RESOURCE_NAME: &'static str = "playbooks.amphitheatre.app";

/// The Kubernetes `Time` of `k8s_openapi`: a condition carries it through, and
/// nothing here looks inside it.
#[verifier::external_type_specification]
#[verifier::external_body]
pub struct ExTime(Time);

/// Calls `k8s_openapi::chrono::Utc::now` and wraps the instant as a Kubernetes `Time`.
/// Nothing is claimed of the instant: it depends on the clock.
#[verifier::external_body]
fn now() -> Time {
    Time(k8s_openapi::chrono::Utc::now())
}

/// What `convert_case`'s `to_case(Case::Pascal)` returns for a string.
pub uninterp spec fn pascal_case(s: Seq<char>) -> Seq<char>;

/// Calls `convert_case::Casing::to_case` with `Case::Pascal`; the result is named
/// `pascal_case` of the input, which depends on the input alone.
#[verifier::external_body]
fn to_pascal_case(s: &str) -> (res: String)
    ensures
        res@ == pascal_case(s@),
{
    s.to_case(Case::Pascal)
}

/// How a `bool` is written by its `Display`.
pub open spec fn bool_str(b: bool) -> Seq<char> {
    if b {
        "true"@
    } else {
        "false"@
    }
}

/// The `status` text of a condition that holds `status`.
pub open spec fn status_text(status: bool) -> Seq<char> {
    pascal_case(bool_str(status))
}

fn bool_to_string(b: bool) -> (res: String)
    ensures
        res@ == bool_str(b),
{
    if b {
        "true".to_owned()
    } else {
        "false".to_owned()
    }
}

/// The `status` text of a condition that holds `status`: "true" or "false" in Pascal case.
fn status_string(status: bool) -> (res: String)
    ensures
        res@ == status_text(status),
{
    let s = bool_to_string(status);
    to_pascal_case(s.as_str())
}

/// The condition of a custom resource, as Kubernetes records it in a status.
pub struct Condition {
    /// The state this condition is about, e.g. "Pending".
    pub type_: String,
    /// "True" or "False".
    pub status: String,
    pub last_transition_time: Time,
    pub reason: String,
    pub observed_generation: Option<i64>,
    pub message: String,
}

/// `c` was made for state `kind` with the given status, reason and message.
pub open spec fn made_for(
    c: Condition,
    kind: Seq<char>,
    status: bool,
    reason: Seq<char>,
    message: Option<String>,
) -> bool {
    &&& c.type_@ == kind
    &&& c.status@ == status_text(status)
    &&& c.reason@ == pascal_case(reason)
    &&& c.observed_generation is None
    &&& c.message@ == match message {
        Some(m) => m@,
        None => Seq::<char>::empty(),
    }
}

/// Makes a condition for state `kind`, stamped with the current time.
fn new_condition(kind: String, status: bool, reason: &str, message: Option<String>) -> (c: Condition)
    ensures
        made_for(c, kind@, status, reason@, message),
{
    let ghost m = message;
    let message = match message {
        Some(message) => message,
        None => String::new(),
    };
    Condition {
        type_: kind,
        status: status_string(status),
        last_transition_time: now(),
        reason: to_pascal_case(reason),
        observed_generation: None,
        message,
    }
}

/// Some condition in `conditions` is about `kind` and holds `status`.
pub open spec fn holds(conditions: Seq<Condition>, kind: Seq<char>, status: bool) -> bool {
    exists|i: int|
        0 <= i < conditions.len() && #[trigger] conditions[i].type_@ == kind
            && conditions[i].status@ == status_text(status)
}

fn conditions_hold(conditions: &Vec<Condition>, kind: &String, status: bool) -> (res: bool)
    ensures
        res == holds(conditions@, kind@, status),
{
    let expected = status_string(status);
    let mut i: usize = 0;
    while i < conditions.len()
        invariant
            i <= conditions@.len(),
            expected@ == status_text(status),
            forall|j: int|
                0 <= j < i ==> !(#[trigger] conditions@[j].type_@ == kind@
                    && conditions@[j].status@ == status_text(status)),
        decreases conditions@.len() - i,
    {
        let c = &conditions[i];
        if c.type_ == *kind && c.status == expected {
            return true;
        }
        i = i + 1;
    }
    false
}

/// The states that a playbook passes through.
pub enum PlaybookState {
    Pending,
    Solving,
    Ready,
    Running,
    Succeeded,
    Failed,
}

/// The name under which a playbook state is recorded in a condition.
pub open spec fn playbook_state_name(s: PlaybookState) -> Seq<char> {
    match s {
        PlaybookState::Pending => "Pending"@,
        PlaybookState::Solving => "Solving"@,
        PlaybookState::Ready => "Ready"@,
        PlaybookState::Running => "Running"@,
        PlaybookState::Succeeded => "Succeeded"@,
        PlaybookState::Failed => "Failed"@,
    }
}

impl PlaybookState {
    /// The name of this state, as its `Display` writes it.
    pub fn to_string(&self) -> (res: String)
        ensures
            res@ == playbook_state_name(*self),
    {
        match self {
            PlaybookState::Pending => "Pending".to_owned(),
            PlaybookState::Solving => "Solving".to_owned(),
            PlaybookState::Ready => "Ready".to_owned(),
            PlaybookState::Running => "Running".to_owned(),
            PlaybookState::Succeeded => "Succeeded".to_owned(),
            PlaybookState::Failed => "Failed".to_owned(),
        }
    }

    /// The condition that a playbook is pending: status true, reason "Created".
    pub fn pending() -> (c: Condition)
        ensures
            made_for(c, playbook_state_name(PlaybookState::Pending), true, "Created"@, None),
    {
        PlaybookState::create(PlaybookState::Pending, true, "Created", None)
    }

    /// The condition that a playbook is solving: status true, reason "Solve".
    pub fn solving() -> (c: Condition)
        ensures
            made_for(c, playbook_state_name(PlaybookState::Solving), true, "Solve"@, None),
    {
        PlaybookState::create(PlaybookState::Solving, true, "Solve", None)
    }

    /// The condition that a playbook is ready: status true, reason "Solved".
    pub fn ready() -> (c: Condition)
        ensures
            made_for(c, playbook_state_name(PlaybookState::Ready), true, "Solved"@, None),
    {
        PlaybookState::create(PlaybookState::Ready, true, "Solved", None)
    }

    /// The condition that a playbook is (or is not) running.
    pub fn running(status: bool, reason: &str, message: Option<String>) -> (c: Condition)
        ensures
            made_for(c, playbook_state_name(PlaybookState::Running), status, reason@, message),
    {
        PlaybookState::create(PlaybookState::Running, status, reason, message)
    }

    /// The condition that a playbook has (or has not) succeeded.
    pub fn succeeded(status: bool, reason: &str, message: Option<String>) -> (c: Condition)
        ensures
            made_for(c, playbook_state_name(PlaybookState::Succeeded), status, reason@, message),
    {
        PlaybookState::create(PlaybookState::Succeeded, status, reason, message)
    }

    /// The condition that a playbook has (or has not) failed.
    pub fn failed(status: bool, reason: &str, message: Option<String>) -> (c: Condition)
        ensures
            made_for(c, playbook_state_name(PlaybookState::Failed), status, reason@, message),
    {
        PlaybookState::create(PlaybookState::Failed, status, reason, message)
    }

    fn create(state: PlaybookState, status: bool, reason: &str, message: Option<String>) -> (c: Condition)
        ensures
            made_for(c, playbook_state_name(state), status, reason@, message),
    {
        new_condition(state.to_string(), status, reason, message)
    }
}

/// The status of a playbook: the conditions recorded for it.
pub struct PlaybookStatus {
    pub conditions: Vec<Condition>,
}

impl PlaybookStatus {
    /// The status reports state `s` with status `status`.
    pub open spec fn reports(&self, s: PlaybookState, status: bool) -> bool {
        holds(self.conditions@, playbook_state_name(s), status)
    }

    pub fn pending(&self) -> (res: bool)
        ensures
            res == self.reports(PlaybookState::Pending, true),
    {
        self.state(PlaybookState::Pending, true)
    }

    pub fn solving(&self) -> (res: bool)
        ensures
            res == self.reports(PlaybookState::Solving, true),
    {
        self.state(PlaybookState::Solving, true)
    }

    pub fn ready(&self) -> (res: bool)
        ensures
            res == self.reports(PlaybookState::Ready, true),
    {
        self.state(PlaybookState::Ready, true)
    }

    pub fn running(&self) -> (res: bool)
        ensures
            res == self.reports(PlaybookState::Running, true),
    {
        self.state(PlaybookState::Running, true)
    }

    pub fn succeeded(&self) -> (res: bool)
        ensures
            res == self.reports(PlaybookState::Succeeded, true),
    {
        self.state(PlaybookState::Succeeded, true)
    }

    pub fn failed(&self) -> (res: bool)
        ensures
            res == self.reports(PlaybookState::Failed, true),
    {
        self.state(PlaybookState::Failed, true)
    }

    fn state(&self, s: PlaybookState, status: bool) -> (res: bool)
        ensures
            res == self.reports(s, status),
    {
        let name = s.to_string();
        conditions_hold(&self.conditions, &name, status)
    }
}

/// Distinct playbook states are recorded under distinct names.
pub proof fn lemma_playbook_state_names_distinct(s: PlaybookState, t: PlaybookState)
    ensures
        playbook_state_name(s) == playbook_state_name(t) <==> s == t,
{
    reveal_strlit("Pending");
    reveal_strlit("Solving");
    reveal_strlit("Ready");
    reveal_strlit("Running");
    reveal_strlit("Succeeded");
    reveal_strlit("Failed");
    if playbook_state_name(s) == playbook_state_name(t) && s != t {
        let a = playbook_state_name(s);
        let b = playbook_state_name(t);
        assert(a.len() == b.len());
        assert(a[0] == b[0]);
        assert(a[1] == b[1]);
        assert(false);
    }
}

/// A status whose only condition was made for state `s` with status true
/// reports `s`, and reports no other state as true.
pub proof fn lemma_status_reports_its_only_condition(
    status: PlaybookStatus,
    s: PlaybookState,
    reason: Seq<char>,
    message: Option<String>,
    t: PlaybookState,
)
    requires
        status.conditions@.len() == 1,
        made_for(status.conditions@[0], playbook_state_name(s), true, reason, message),
    ensures
        status.reports(t, true) <==> t == s,
{
    lemma_playbook_state_names_distinct(s, t);
    if t == s {
        assert(status.conditions@[0].type_@ == playbook_state_name(t));
    }
}

/// The states that an actor passes through.
pub enum ActorState {
    Pending,
    Building,
    Running,
}

/// The name under which an actor state is recorded in a condition.
pub open spec fn actor_state_name(s: ActorState) -> Seq<char> {
    match s {
        ActorState::Pending => "Pending"@,
        ActorState::Building => "Building"@,
        ActorState::Running => "Running"@,
    }
}

impl ActorState {
    /// The name of this state, as its `Display` writes it.
    pub fn to_string(&self) -> (res: String)
        ensures
            res@ == actor_state_name(*self),
    {
        match self {
            ActorState::Pending => "Pending".to_owned(),
            ActorState::Building => "Building".to_owned(),
            ActorState::Running => "Running".to_owned(),
        }
    }

    /// The condition that an actor is pending: status true, reason "Created".
    pub fn pending() -> (c: Condition)
        ensures
            made_for(c, actor_state_name(ActorState::Pending), true, "Created"@, None),
    {
        ActorState::create(ActorState::Pending, true, "Created", None)
    }

    /// The condition that an actor is building: status true, reason "Build".
    pub fn building() -> (c: Condition)
        ensures
            made_for(c, actor_state_name(ActorState::Building), true, "Build"@, None),
    {
        ActorState::create(ActorState::Building, true, "Build", None)
    }

    /// The condition that an actor is (or is not) running.
    pub fn running(status: bool, reason: &str, message: Option<String>) -> (c: Condition)
        ensures
            made_for(c, actor_state_name(ActorState::Running), status, reason@, message),
    {
        ActorState::create(ActorState::Running, status, reason, message)
    }

    fn create(state: ActorState, status: bool, reason: &str, message: Option<String>) -> (c: Condition)
        ensures
            made_for(c, actor_state_name(state), status, reason@, message),
    {
        new_condition(state.to_string(), status, reason, message)
    }
}

/// The status of an actor: the conditions recorded for it.
pub struct ActorStatus {
    pub conditions: Vec<Condition>,
}

impl ActorStatus {
    /// The status reports state `s` with status `status`.
    pub open spec fn reports(&self, s: ActorState, status: bool) -> bool {
        holds(self.conditions@, actor_state_name(s), status)
    }

    pub fn pending(&self) -> (res: bool)
        ensures
            res == self.reports(ActorState::Pending, true),
    {
        self.state(ActorState::Pending, true)
    }

    pub fn building(&self) -> (res: bool)
        ensures
            res == self.reports(ActorState::Building, true),
    {
        self.state(ActorState::Building, true)
    }

    pub fn running(&self) -> (res: bool)
        ensures
            res == self.reports(ActorState::Running, true),
    {
        self.state(ActorState::Running, true)
    }

    fn state(&self, s: ActorState, status: bool) -> (res: bool)
        ensures
            res == self.reports(s, status),
    {
        let name = s.to_string();
        conditions_hold(&self.conditions, &name, status)
    }
}

/// Distinct actor states are recorded under distinct names.
pub proof fn lemma_actor_state_names_distinct(s: ActorState, t: ActorState)
    ensures
        actor_state_name(s) == actor_state_name(t) <==> s == t,
{
    reveal_strlit("Pending");
    reveal_strlit("Building");
    reveal_strlit("Running");
    if actor_state_name(s) == actor_state_name(t) && s != t {
        let a = actor_state_name(s);
        let b = actor_state_name(t);
        assert(a.len() == b.len());
        assert(a[0] == b[0]);
        assert(false);
    }
}

/// An actor status whose only condition was made for state `s` with status true
/// reports `s`, and reports no other state as true.
pub proof fn lemma_actor_status_reports_its_only_condition(
    status: ActorStatus,
    s: ActorState,
    reason: Seq<char>,
    message: Option<String>,
    t: ActorState,
)
    requires
        status.conditions@.len() == 1,
        made_for(status.conditions@[0], actor_state_name(s), true, reason, message),
    ensures
        status.reports(t, true) <==> t == s,
{
    lemma_actor_state_names_distinct(s, t);
    if t == s {
        assert(status.conditions@[0].type_@ == actor_state_name(t));
    }
}

/// A partner that an actor names: another repository whose actor it needs.
pub struct Partner {
    pub name: String,
    pub repository: String,
    pub reference: Option<String>,
    pub path: Option<String>,
}

/// A partner seen as plain values: name, repository, reference and path.
pub type PartnerView = (Seq<char>, Seq<char>, Option<Seq<char>>, Option<Seq<char>>);

impl Partner {
    pub open spec fn view_of(self) -> PartnerView {
        (self.name@, self.repository@, opt_view(&self.reference), opt_view(&self.path))
    }

    /// The URL of the partner: its repository, reference and path joined by `url`.
    pub fn url(&self) -> (res: String)
        ensures
            res@ == partner_url(self.view_of()),
    {
        url(&self.repository, &self.reference, &self.path)
    }

    /// A copy of the partner.
    pub fn duplicate(&self) -> (res: Partner)
        ensures
            res.view_of() == self.view_of(),
    {
        Partner {
            name: self.name.clone(),
            repository: self.repository.clone(),
            reference: opt_clone(&self.reference),
            path: opt_clone(&self.path),
        }
    }

    /// The two partners have the same name, repository, reference and path.
    pub fn same_as(&self, other: &Partner) -> (res: bool)
        ensures
            res == (self.view_of() == other.view_of()),
    {
        self.name == other.name && self.repository == other.repository && opt_eq(
            &self.reference,
            &other.reference,
        ) && opt_eq(&self.path, &other.path)
    }
}

/// The URL of a partner seen as plain values.
pub open spec fn partner_url(p: PartnerView) -> Seq<char> {
    spec_url(p.1, p.2, p.3)
}

fn opt_clone(s: &Option<String>) -> (res: Option<String>)
    ensures
        opt_view(&res) == opt_view(s),
{
    match s {
        Some(v) => Some(v.clone()),
        None => None,
    }
}

fn opt_eq(a: &Option<String>, b: &Option<String>) -> (res: bool)
    ensures
        res == (opt_view(a) == opt_view(b)),
{
    match (a, b) {
        (Some(x), Some(y)) => *x == *y,
        (None, None) => true,
        _ => false,
    }
}

/// Joins a repository with an optional reference and path into one URL:
/// `repository`, then `#` when a reference or a path is given, the reference,
/// and `:` followed by the path.
pub open spec fn spec_url(repository: Seq<char>, reference: Option<Seq<char>>, path: Option<Seq<char>>) -> Seq<char> {
    let fragment: Seq<char> = if reference is Some || path is Some {
        seq!['#']
    } else {
        Seq::empty()
    };
    let with_ref: Seq<char> = match reference {
        Some(r) => r,
        None => Seq::empty(),
    };
    let with_path: Seq<char> = match path {
        Some(p) => seq![':'] + p,
        None => Seq::empty(),
    };
    repository + fragment + with_ref + with_path
}

pub open spec fn opt_view(s: &Option<String>) -> Option<Seq<char>> {
    match s {
        Some(v) => Some(v@),
        None => None,
    }
}

/// Joins a repository with an optional reference and path into one URL.
pub fn url(repository: &String, reference: &Option<String>, path: &Option<String>) -> (res: String)
    ensures
        res@ == spec_url(repository@, opt_view(reference), opt_view(path)),
{
    let mut url = repository.clone();
    if reference.is_some() || path.is_some() {
        url.append("#");
    }
    if let Some(reference) = reference {
        url.append(reference.as_str());
    }
    if let Some(path) = path {
        url.append(":");
        url.append(path.as_str());
    }
    proof {
        reveal_strlit("#");
        reveal_strlit(":");
    }
    assert(url@ =~= spec_url(repository@, opt_view(reference), opt_view(path)));
    url
}

} // verus!
