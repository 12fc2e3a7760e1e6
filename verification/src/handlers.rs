//! The decisions of the HTTP handlers, and the data that some of them answer with.
use vstd::prelude::*;
use vstd::string::*;

use crate::resources::job::pairs_view;
use crate::response::{success, ApiError, Response};

verus! {

broadcast use vstd::string::group_string_axioms;

/// The body of a request to create a playbook.
pub struct CreatePlaybookRequest {
    pub title: String,
    pub description: String,
}

/// The answer to a request for one playbook: the playbook when it was found,
/// else `NotFound`.
pub fn detail<T>(found: Option<T>) -> (res: crate::response::Result<T>)
    ensures
        res == match found {
            Some(p) => Ok::<Response<T>, ApiError>((Response::SingleResponse { data: p })),
            None => Err::<Response<T>, ApiError>(ApiError::NotFound),
        },
{
    match found {
        Some(p) => success(p),
        None => Err(ApiError::NotFound),
    }
}

/// Deleting, starting or stopping a playbook goes on only when the playbook was
/// found; otherwise the request is answered with `NotFound`.
pub fn ensure_found(found: bool) -> (res: core::result::Result<(), ApiError>)
    ensures
        res == if found {
            Ok::<(), ApiError>(())
        } else {
            Err::<(), ApiError>(ApiError::NotFound)
        },
{
    if found {
        Ok(())
    } else {
        Err(ApiError::NotFound)
    }
}

fn pair(k: &str, v: &str) -> (res: (String, String))
    ensures
        res.0@ == k@,
        res.1@ == v@,
{
    (k.to_owned(), v.to_owned())
}

/// The usage figures of an actor.
pub open spec fn stats_of() -> Seq<(Seq<char>, Seq<char>)> {
    seq![
        ("CPU USAGE"@, "1.98%"@),
        ("MEMORY USAGE"@, "65.8MB"@),
        ("DISK READ/WRITE"@, "5.3MB / 43.7 MB"@),
        ("NETWORK I/O"@, "5.7 kB / 3 kB"@),
    ]
}

/// Returns an actor's stats.
pub fn stats() -> (res: Vec<(String, String)>)
    ensures
        pairs_view(res@) == stats_of(),
{
    let mut res = Vec::new();
    res.push(pair("CPU USAGE", "1.98%"));
    res.push(pair("MEMORY USAGE", "65.8MB"));
    res.push(pair("DISK READ/WRITE", "5.3MB / 43.7 MB"));
    res.push(pair("NETWORK I/O", "5.7 kB / 3 kB"));
    assert(pairs_view(res@) =~= stats_of());
    res
}

/// The environment of an actor.
pub open spec fn environments_of() -> Seq<(Seq<char>, Seq<char>)> {
    seq![
        ("K3S_TOKEN"@, "RdqNLMXRiRsHJhmxKurR"@),
        ("K3S_KUBECONFIG_OUTPU"@, "/output/kubeconfig.yaml"@),
        ("PATH"@, "/usr/local/sbin:/usr/local/bin:/usr/sbin:/usr/bin:/sbin:/bin:/bin/aux"@),
        ("CRI_CONFIG_FILE"@, "/var/lib/rancher/k3s/agent/etc/crictl.yaml"@),
    ]
}

/// The mounts of an actor.
pub open spec fn mounts_of() -> Seq<(Seq<char>, Seq<char>)> {
    seq![
        ("/VAR/LIB/CNI"@, "/var/lib/docker/volumes/00f49631b07ccd74de44d3047d5f889395ac871e05b622890b6dd788d34a59f4/_data"@),
        ("/VAR/LIB/KUBELET"@, "/var/lib/docker/volumes/bc1b16d39a0e204841695de857122412cfdefd0f672af185b1fa43e635397848/_data"@),
        ("/VAR/LIB/RANCHER/K3S"@, "/var/lib/docker/volumes/a78bcb9f7654701e0cfaef4447ef61ced4864e5b93dee7102ec639afb5cf2e1d/_data"@),
        ("/VAR/LOG"@, "/var/lib/docker/volumes/f64c2f2cf81cfde89879f2a17924b31bd2f2e6a6a738f7df949bf6bd57102d25/_data"@),
    ]
}

/// The published ports of an actor.
pub open spec fn ports_of() -> Seq<(Seq<char>, Seq<char>)> {
    seq![("6443/tcp"@, "0.0.0.0:42397"@)]
}

/// Returns an actor's info: its environments, mounts and ports.
pub fn info() -> (res: Vec<(String, Vec<(String, String)>)>)
    ensures
        res@.len() == 3,
        res@[0].0@ == "environments"@,
        pairs_view(res@[0].1@) == environments_of(),
        res@[1].0@ == "mounts"@,
        pairs_view(res@[1].1@) == mounts_of(),
        res@[2].0@ == "port"@,
        pairs_view(res@[2].1@) == ports_of(),
{
    let mut environments = Vec::new();
    environments.push(pair("K3S_TOKEN", "RdqNLMXRiRsHJhmxKurR"));
    environments.push(pair("K3S_KUBECONFIG_OUTPU", "/output/kubeconfig.yaml"));
    environments.push(
        pair("PATH", "/usr/local/sbin:/usr/local/bin:/usr/sbin:/usr/bin:/sbin:/bin:/bin/aux"),
    );
    environments.push(pair("CRI_CONFIG_FILE", "/var/lib/rancher/k3s/agent/etc/crictl.yaml"));
    assert(pairs_view(environments@) =~= environments_of());
    let mut mounts = Vec::new();
    mounts.push(
        pair(
            "/VAR/LIB/CNI",
            "/var/lib/docker/volumes/00f49631b07ccd74de44d3047d5f889395ac871e05b622890b6dd788d34a59f4/_data",
        ),
    );
    mounts.push(
        pair(
            "/VAR/LIB/KUBELET",
            "/var/lib/docker/volumes/bc1b16d39a0e204841695de857122412cfdefd0f672af185b1fa43e635397848/_data",
        ),
    );
    mounts.push(
        pair(
            "/VAR/LIB/RANCHER/K3S",
            "/var/lib/docker/volumes/a78bcb9f7654701e0cfaef4447ef61ced4864e5b93dee7102ec639afb5cf2e1d/_data",
        ),
    );
    mounts.push(
        pair(
            "/VAR/LOG",
            "/var/lib/docker/volumes/f64c2f2cf81cfde89879f2a17924b31bd2f2e6a6a738f7df949bf6bd57102d25/_data",
        ),
    );
    assert(pairs_view(mounts@) =~= mounts_of());
    let mut ports = Vec::new();
    ports.push(pair("6443/tcp", "0.0.0.0:42397"));
    assert(pairs_view(ports@) =~= ports_of());
    let mut res = Vec::new();
    res.push(("environments".to_owned(), environments));
    res.push(("mounts".to_owned(), mounts));
    res.push(("port".to_owned(), ports));
    res
}

} // verus!
