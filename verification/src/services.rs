//! The services behind the HTTP handlers.
use vstd::prelude::*;
use vstd::string::*;

use crate::resources::secret::{opt_or_empty, Authorization, Credential, Kind};

verus! {

broadcast use vstd::string::group_string_axioms;

/// The actor service.
pub struct ActorService;

/// The playbook service.
pub struct PlaybookService;

/// `c` is a lowercase hexadecimal digit.
pub open spec fn is_lower_hex_digit(c: char) -> bool {
    ('0' <= c && c <= '9') || ('a' <= c && c <= 'f')
}

/// `s` is a version 4 UUID in its hyphenated lowercase form: 36 characters,
/// hyphens at 8, 13, 18 and 23, lowercase hexadecimal digits elsewhere, the
/// version digit `4` at 14, and the variant digit (one of `8`, `9`, `a`, `b`) at 19.
pub open spec fn is_uuid_v4_text(s: Seq<char>) -> bool {
    &&& s.len() == 36
    &&& forall|i: int|
        0 <= i < 36 ==> if i == 8 || i == 13 || i == 18 || i == 23 {
            s[i] == '-'
        } else {
            is_lower_hex_digit(#[trigger] s[i])
        }
    &&& s[14] == '4'
    &&& (s[19] == '8' || s[19] == '9' || s[19] == 'a' || s[19] == 'b')
}

/// Calls `uuid::Uuid::new_v4` and writes the identifier out with its `Display`.
/// The identifier is random; what holds of every outcome is its form: `new_v4`
/// sets the version to 4 and the variant to RFC 4122, and `Display` writes the
/// hyphenated lowercase form.
#[verifier::external_body]
fn new_uuid() -> (res: String)
    ensures
        is_uuid_v4_text(res@),
{
    uuid::Uuid::new_v4().to_string()
}

impl PlaybookService {
    /// The namespace of the playbook with the given identifier: `amp-<id>`.
    pub fn namespace_of(id: &String) -> (res: String)
        ensures
            res@ == "amp-"@ + id@,
    {
        let mut s = "amp-".to_owned();
        s.append(id.as_str());
        s
    }

    /// A fresh identifier for a new playbook, a random version 4 UUID, and the
    /// namespace it lives in.
    pub fn allocate() -> (res: (String, String))
        ensures
            is_uuid_v4_text(res.0@),
            res.1@ == "amp-"@ + res.0@,
    {
        let id = new_uuid();
        let namespace = Self::namespace_of(&id);
        (id, namespace)
    }

    /// The credential of the image registry that a new playbook pushes to.
    pub fn registry_credential() -> (c: Credential)
        ensures
            c.kind_of() == Kind::Image,
            c.authorization() == Authorization::Basic,
            c.location_of() == "harbor.amp-system.svc.cluster.local"@,
            opt_or_empty(c.username_of()) == "admin"@,
            opt_or_empty(c.password_of()) == "Harbor12345"@,
            c.username_of() is Some,
            c.password_of() is Some,
            c.token_of() is None,
    {
        Credential::basic(
            Kind::Image,
            "harbor.amp-system.svc.cluster.local".to_owned(),
            "admin".to_owned(),
            "Harbor12345".to_owned(),
        )
    }
}

} // verus!
