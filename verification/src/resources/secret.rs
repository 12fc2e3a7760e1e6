//! Registry and repository credentials, and the secrets that hold them.
use vstd::prelude::*;
use vstd::string::*;

verus! {

broadcast use vstd::string::group_string_axioms;

/// What a credential gives access to.
pub enum Kind {
    Image,
    Source,
}

/// How a credential authorizes.
pub enum Authorization {
    Basic,
    Token,
}

/// The name of a kind, as its `Display` writes it.
pub open spec fn kind_name(k: Kind) -> Seq<char> {
    match k {
        Kind::Image => "Image"@,
        Kind::Source => "Source"@,
    }
}

/// The annotation under which a secret of this kind records its location.
pub open spec fn kind_schema(k: Kind) -> Seq<char> {
    match k {
        Kind::Image => "kpack.io/docker"@,
        Kind::Source => "kpack.io/git"@,
    }
}

/// The Kubernetes secret type of a credential that authorizes this way.
pub open spec fn authorization_schema(a: Authorization) -> Seq<char> {
    match a {
        Authorization::Basic => "kubernetes.io/basic-auth"@,
        Authorization::Token => "kubernetes.io/ssh-auth"@,
    }
}

impl Kind {
    /// The name of this kind, as its `Display` writes it.
    pub fn to_string(&self) -> (res: String)
        ensures
            res@ == kind_name(*self),
    {
        match self {
            Kind::Image => "Image".to_owned(),
            Kind::Source => "Source".to_owned(),
        }
    }

    pub fn schema_name(&self) -> (res: String)
        ensures
            res@ == kind_schema(*self),
    {
        match self {
            Kind::Image => "kpack.io/docker".to_owned(),
            Kind::Source => "kpack.io/git".to_owned(),
        }
    }
}

impl Authorization {
    pub fn schema_name(&self) -> (res: String)
        ensures
            res@ == authorization_schema(*self),
    {
        match self {
            Authorization::Basic => "kubernetes.io/basic-auth".to_owned(),
            Authorization::Token => "kubernetes.io/ssh-auth".to_owned(),
        }
    }
}

/// What `str::to_lowercase` returns for a string.
pub uninterp spec fn lowercase(s: Seq<char>) -> Seq<char>;

/// Calls `str::to_lowercase`; the result is named `lowercase` of the input,
/// which depends on the input alone.
#[verifier::external_body]
fn to_lowercase(s: &str) -> (res: String)
    ensures
        res@ == lowercase(s@),
{
    s.to_lowercase()
}

/// A credential for an image registry or a source repository: a location and
/// either a username and password, or a token.
pub struct Credential {
    pub kind: Kind,
    auth: Authorization,
    location: String,
    username: Option<String>,
    password: Option<String>,
    token: Option<String>,
}

pub open spec fn opt_or_empty(s: Option<String>) -> Seq<char> {
    match s {
        Some(v) => v@,
        None => Seq::empty(),
    }
}

impl Credential {
    pub closed spec fn kind_of(self) -> Kind {
        self.kind
    }

    pub closed spec fn authorization(self) -> Authorization {
        self.auth
    }

    pub closed spec fn location_of(self) -> Seq<char> {
        self.location@
    }

    pub closed spec fn username_of(self) -> Option<String> {
        self.username
    }

    pub closed spec fn password_of(self) -> Option<String> {
        self.password
    }

    pub closed spec fn token_of(self) -> Option<String> {
        self.token
    }

    /// The name of the secret that holds this credential:
    /// `<kind>-<location>-secret`, lowercased.
    pub open spec fn secret_name(self) -> Seq<char> {
        lowercase(kind_name(self.kind_of()) + "-"@ + self.location_of() + "-secret"@)
    }

    /// A credential that authorizes with a username and a password.
    pub fn basic(kind: Kind, location: String, username: String, password: String) -> (c: Self)
        ensures
            c.kind_of() == kind,
            c.authorization() == Authorization::Basic,
            c.location_of() == location@,
            c.username_of() == Some(username),
            c.password_of() == Some(password),
            c.token_of() == None::<String>,
    {
        Credential {
            kind,
            auth: Authorization::Basic,
            location,
            username: Some(username),
            password: Some(password),
            token: None,
        }
    }

    /// A credential that authorizes with a token.
    pub fn token(kind: Kind, location: String, token: String) -> (c: Self)
        ensures
            c.kind_of() == kind,
            c.authorization() == Authorization::Token,
            c.location_of() == location@,
            c.username_of() == None::<String>,
            c.password_of() == None::<String>,
            c.token_of() == Some(token),
    {
        Credential {
            kind,
            auth: Authorization::Token,
            location,
            username: None,
            password: None,
            token: Some(token),
        }
    }

    /// The name of the secret that holds this credential.
    pub fn name(&self) -> (res: String)
        ensures
            res@ == self.secret_name(),
    {
        let mut s = self.kind.to_string();
        s.append("-");
        s.append(self.location.as_str());
        s.append("-secret");
        to_lowercase(s.as_str())
    }

    /// The username, or empty when there is none.
    pub fn username_any(&self) -> (res: String)
        ensures
            res@ == opt_or_empty(self.username_of()),
    {
        match &self.username {
            Some(u) => u.clone(),
            None => String::new(),
        }
    }

    /// The password, or empty when there is none.
    pub fn password_any(&self) -> (res: String)
        ensures
            res@ == opt_or_empty(self.password_of()),
    {
        match &self.password {
            Some(p) => p.clone(),
            None => String::new(),
        }
    }

    /// The token, or empty when there is none.
    pub fn token_any(&self) -> (res: String)
        ensures
            res@ == opt_or_empty(self.token_of()),
    {
        match &self.token {
            Some(t) => t.clone(),
            None => String::new(),
        }
    }
}

/// The secret that holds a credential, as it is applied to the cluster.
pub struct SecretResource {
    pub name: String,
    /// The Kubernetes secret type.
    pub type_: String,
    pub annotations: Vec<(String, String)>,
    /// The secret's entries, ordered by key.
    pub string_data: Vec<(String, String)>,
}

/// The secret for a credential: named after it, typed by its authorization,
/// annotated with its location under its kind's schema, and holding the username and
/// password of a basic credential, or the token of a token credential as its
/// SSH private key.
pub fn resource(credential: &Credential) -> (res: SecretResource)
    ensures
        res.name@ == credential.secret_name(),
        res.type_@ == authorization_schema(credential.authorization()),
        res.annotations@.len() == 1,
        res.annotations@[0].0@ == kind_schema(credential.kind_of()),
        res.annotations@[0].1@ == credential.location_of(),
        match credential.authorization() {
            Authorization::Basic => {
                &&& res.string_data@.len() == 2
                &&& res.string_data@[0].0@ == "password"@
                &&& res.string_data@[0].1@ == opt_or_empty(credential.password_of())
                &&& res.string_data@[1].0@ == "username"@
                &&& res.string_data@[1].1@ == opt_or_empty(credential.username_of())
            },
            Authorization::Token => {
                &&& res.string_data@.len() == 1
                &&& res.string_data@[0].0@ == "ssh-privatekey"@
                &&& res.string_data@[0].1@ == opt_or_empty(credential.token_of())
            },
        },
{
    let mut annotations = Vec::new();
    annotations.push((credential.kind.schema_name(), credential.location.clone()));
    let mut data = Vec::new();
    match credential.auth {
        Authorization::Basic => {
            data.push(("password".to_owned(), credential.password_any()));
            data.push(("username".to_owned(), credential.username_any()));
        },
        Authorization::Token => {
            data.push(("ssh-privatekey".to_owned(), credential.token_any()));
        },
    }
    SecretResource {
        name: credential.name(),
        type_: credential.auth.schema_name(),
        annotations,
        string_data: data,
    }
}

/// The secret of a credential is named after its kind and location alone, so the
/// secret that `resource` makes is the one a service account is patched with by
/// name, however the credential authorizes.
pub proof fn lemma_secret_name_ignores_authorization(c1: Credential, c2: Credential)
    requires
        c1.kind_of() == c2.kind_of(),
        c1.location_of() == c2.location_of(),
    ensures
        c1.secret_name() == c2.secret_name(),
{
}

} // verus!
