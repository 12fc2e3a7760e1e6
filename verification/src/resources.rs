//! The Kubernetes resources that the composer keeps for its actors: what they
//! are named, labelled and annotated with, and when an existing one is patched.
use sha2::{Digest, Sha256};
use vstd::prelude::*;
use vstd::string::*;

pub mod crds;
pub mod job;
pub mod namespace;
pub mod secret;
pub mod service_account;

verus! {

broadcast use vstd::string::group_string_axioms;

/// The annotation under which a resource records the hash of the spec it was made from.
pub const LAST_APPLIED_HASH_KEY: &'static str = "actors.amphitheatre.io/last-applied-hash";

/// The label that names the application of a resource.
pub const NAME_LABEL: &'static str = "app.kubernetes.io/name";

/// The label that names the manager of a resource.
pub const MANAGED_BY_LABEL: &'static str = "app.kubernetes.io/managed-by";

/// The manager that the composer's resources are labelled with.
pub const MANAGER: &'static str = "Amphitheatre";

/// What SHA-256 computes for a byte sequence.
pub uninterp spec fn sha256_digest(data: Seq<u8>) -> Seq<u8>;

/// Calls `sha2::Sha256::digest` on the bytes; the result is named `sha256_digest`
/// of them, and is 32 bytes long, the output size of SHA-256.
#[verifier::external_body]
fn sha256(data: &[u8]) -> (res: Vec<u8>)
    ensures
        res@ == sha256_digest(data@),
        res@.len() == 32,
{
    Sha256::digest(data).to_vec()
}

/// The lowercase hexadecimal digit for `n` (0 to 15).
pub open spec fn hex_digit(n: int) -> char {
    "0123456789abcdef"@[n]
}

/// Bytes written as lowercase hexadecimal, two digits per byte, most significant first.
pub open spec fn lower_hex(bytes: Seq<u8>) -> Seq<char>
    decreases bytes.len(),
{
    if bytes.len() == 0 {
        Seq::empty()
    } else {
        lower_hex(bytes.drop_last()) + seq![
            hex_digit(bytes.last() as int / 16),
            hex_digit(bytes.last() as int % 16),
        ]
    }
}

fn to_lower_hex(bytes: &Vec<u8>) -> (res: String)
    ensures
        res@ == lower_hex(bytes@),
{
    let digits = "0123456789abcdef";
    proof {
        reveal_strlit("0123456789abcdef");
    }
    assert(digits.is_ascii());
    let mut res = String::new();
    let mut i: usize = 0;
    while i < bytes.len()
        invariant
            i <= bytes@.len(),
            digits@ == "0123456789abcdef"@,
            digits@.len() == 16,
            is_ascii(digits),
            res@ == lower_hex(bytes@.take(i as int)),
        decreases bytes@.len() - i,
    {
        let b = bytes[i];
        let hi = (b / 16) as usize;
        let lo = (b % 16) as usize;
        res.append(digits.substring_ascii(hi, hi + 1));
        res.append(digits.substring_ascii(lo, lo + 1));
        proof {
            let t = bytes@.take(i + 1);
            assert(t.drop_last() =~= bytes@.take(i as int));
            assert(t.last() == b);
        }
        i = i + 1;
    }
    assert(bytes@.take(bytes@.len() as int) =~= bytes@);
    res
}

/// The hash of a resource: SHA-256 of its serialized form, in lowercase hexadecimal.
pub fn hash(serialized: &[u8]) -> (res: String)
    ensures
        res@ == lower_hex(sha256_digest(serialized@)),
        res@.len() == 64,
{
    let digest = sha256(serialized);
    let res = to_lower_hex(&digest);
    proof {
        lemma_lower_hex_len(digest@);
    }
    res
}

/// Hexadecimal takes two digits per byte.
pub proof fn lemma_lower_hex_len(bytes: Seq<u8>)
    ensures
        lower_hex(bytes).len() == 2 * bytes.len(),
    decreases bytes.len(),
{
    if bytes.len() > 0 {
        lemma_lower_hex_len(bytes.drop_last());
    }
}

/// The value recorded under `key` in `entries`: the first entry with that key, else empty.
pub open spec fn lookup(entries: Seq<(String, String)>, key: Seq<char>) -> Seq<char>
    decreases entries.len(),
{
    if entries.len() == 0 {
        Seq::empty()
    } else if entries[0].0@ == key {
        entries[0].1@
    } else {
        lookup(entries.drop_first(), key)
    }
}

/// The labels of a resource that belongs to application `name`.
pub fn labels(name: &String) -> (res: Vec<(String, String)>)
    ensures
        res@.len() == 2,
        res@[0].0@ == NAME_LABEL@,
        res@[0].1@ == name@,
        res@[1].0@ == MANAGED_BY_LABEL@,
        res@[1].1@ == MANAGER@,
{
    let mut res = Vec::new();
    res.push((NAME_LABEL.to_owned(), name.clone()));
    res.push((MANAGED_BY_LABEL.to_owned(), MANAGER.to_owned()));
    res
}

/// The annotations of a resource made from a spec with the given hash.
pub fn annotations(hash: &String) -> (res: Vec<(String, String)>)
    ensures
        res@.len() == 1,
        res@[0].0@ == LAST_APPLIED_HASH_KEY@,
        res@[0].1@ == hash@,
{
    let mut res = Vec::new();
    res.push((LAST_APPLIED_HASH_KEY.to_owned(), hash.clone()));
    res
}

/// The hash recorded in the annotations of an existing resource, or empty when none is.
pub fn found_hash(annotations: &Vec<(String, String)>) -> (res: String)
    ensures
        res@ == lookup(annotations@, LAST_APPLIED_HASH_KEY@),
{
    let key = LAST_APPLIED_HASH_KEY.to_owned();
    let mut i: usize = 0;
    assert(annotations@.skip(0) =~= annotations@);
    while i < annotations.len()
        invariant
            i <= annotations@.len(),
            key@ == LAST_APPLIED_HASH_KEY@,
            lookup(annotations@, key@) == lookup(annotations@.skip(i as int), key@),
        decreases annotations@.len() - i,
    {
        proof {
            assert(annotations@.skip(i as int).drop_first() =~= annotations@.skip(i + 1));
        }
        if annotations[i].0 == key {
            return annotations[i].1.clone();
        }
        i = i + 1;
    }
    assert(annotations@.skip(i as int).len() == 0);
    String::new()
}

/// An existing resource is patched when the hash it records differs from the hash
/// of the spec it should now be made from.
pub fn needs_update(found: &String, expected: &String) -> (res: bool)
    ensures
        res == (found@ != expected@),
{
    *found != *expected
}

/// A resource carrying the annotations made for hash `made` needs a patch for the
/// spec with hash `expected` exactly when the two hashes differ: once applied,
/// a resource is not patched again until its spec changes.
pub proof fn lemma_update_only_on_change(annotations: Seq<(String, String)>, made: Seq<char>, expected: Seq<char>)
    requires
        annotations.len() == 1,
        annotations[0].0@ == LAST_APPLIED_HASH_KEY@,
        annotations[0].1@ == made,
    ensures
        (lookup(annotations, LAST_APPLIED_HASH_KEY@) != expected) <==> (made != expected),
{
}

/// How a resource is brought to the cluster.
pub enum Apply {
    Create,
    Update,
}

/// A resource that exists is updated, one that does not is created.
pub fn apply_plan(found: bool) -> (res: Apply)
    ensures
        res == if found {
            Apply::Update
        } else {
            Apply::Create
        },
{
    if found {
        Apply::Update
    } else {
        Apply::Create
    }
}

/// The deployment that runs an actor's image.
pub struct DeploymentPlan {
    pub name: String,
    pub labels: Vec<(String, String)>,
    pub annotations: Vec<(String, String)>,
    /// The labels that select the deployment's pods; its pod template carries them.
    pub selector: Vec<(String, String)>,
    /// The one container of the pods: named after the deployment.
    pub container_name: String,
    pub image: String,
    pub image_pull_policy: String,
}

/// `l` holds the labels of application `name`.
pub open spec fn labels_of(l: Seq<(String, String)>, name: Seq<char>) -> bool {
    &&& l.len() == 2
    &&& l[0].0@ == NAME_LABEL@
    &&& l[0].1@ == name
    &&& l[1].0@ == MANAGED_BY_LABEL@
    &&& l[1].1@ == MANAGER@
}

/// `a` holds the annotation of a resource made from a spec with hash `hash`.
pub open spec fn annotations_of(a: Seq<(String, String)>, hash: Seq<char>) -> bool {
    &&& a.len() == 1
    &&& a[0].0@ == LAST_APPLIED_HASH_KEY@
    &&& a[0].1@ == hash
}

/// The deployment `name` of an actor that runs `image`, made from a spec with hash
/// `hash`: labelled after it, selecting its own labels, annotated with the hash, with
/// one container named after it that always pulls its image.
pub fn deployment_plan(name: &String, image: &String, hash: &String) -> (res: DeploymentPlan)
    ensures
        res.name@ == name@,
        labels_of(res.labels@, name@),
        annotations_of(res.annotations@, hash@),
        labels_of(res.selector@, name@),
        res.container_name@ == name@,
        res.image@ == image@,
        res.image_pull_policy@ == "Always"@,
{
    DeploymentPlan {
        name: name.clone(),
        labels: labels(name),
        annotations: annotations(hash),
        selector: labels(name),
        container_name: name.clone(),
        image: image.clone(),
        image_pull_policy: "Always".to_owned(),
    }
}

/// The service that exposes an actor.
pub struct ServicePlan {
    pub name: String,
    pub labels: Vec<(String, String)>,
    pub annotations: Vec<(String, String)>,
    /// The labels of the pods the service sends traffic to.
    pub selector: Vec<(String, String)>,
}

/// The service `name` of an actor, made from a spec with hash `hash`: labelled after
/// it, annotated with the hash, and selecting the pods labelled after it.
pub fn service_plan(name: &String, hash: &String) -> (res: ServicePlan)
    ensures
        res.name@ == name@,
        labels_of(res.labels@, name@),
        annotations_of(res.annotations@, hash@),
        labels_of(res.selector@, name@),
{
    ServicePlan { name: name.clone(), labels: labels(name), annotations: annotations(hash), selector: labels(name) }
}

} // verus!
