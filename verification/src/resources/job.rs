//! The job that builds an actor's image: an init container that clones the
//! sources with git-sync, then Kaniko for a Dockerfile, or Cloud Native Buildpacks.
use vstd::prelude::*;
use vstd::string::*;

use crate::resources::{annotations, labels, lookup, LAST_APPLIED_HASH_KEY, MANAGED_BY_LABEL, MANAGER, NAME_LABEL};

verus! {

broadcast use vstd::string::group_string_axioms;

/// The volume that holds the cloned sources.
pub const BUILD_CONTEXT_VOLUME: &'static str = "build-context";

/// Where the build context volume is mounted.
pub const WORKSPACE_PATH: &'static str = "/workspace";

/// Pairs of strings seen as pairs of character sequences.
pub open spec fn pairs_view(v: Seq<(String, String)>) -> Seq<(Seq<char>, Seq<char>)> {
    v.map_values(|p: (String, String)| (p.0@, p.1@))
}

/// Strings seen as character sequences.
pub open spec fn strings_view(v: Seq<String>) -> Seq<Seq<char>> {
    v.map_values(|s: String| s@)
}

/// Where a volume is mounted in a container.
pub struct VolumeMount {
    pub name: String,
    pub mount_path: String,
}

/// The mount of the build context at the workspace.
pub fn workspace() -> (m: VolumeMount)
    ensures
        m.name@ == BUILD_CONTEXT_VOLUME@,
        m.mount_path@ == WORKSPACE_PATH@,
{
    VolumeMount { name: BUILD_CONTEXT_VOLUME.to_owned(), mount_path: WORKSPACE_PATH.to_owned() }
}

/// The environment of the git-sync container that clones an actor's repository.
pub open spec fn git_sync_env_of(repository: Seq<char>, branch: Seq<char>, commit: Seq<char>) -> Seq<(Seq<char>, Seq<char>)> {
    seq![
        ("GIT_SYNC_REPO"@, repository),
        ("GIT_SYNC_BRANCH"@, branch),
        ("GIT_SYNC_REV"@, commit),
        ("GIT_SYNC_DEPTH"@, "1"@),
        ("GIT_SYNC_ONE_TIME"@, "true"@),
        ("GIT_SYNC_ROOT"@, "/workspace"@),
        ("GIT_SYNC_PERMISSIONS"@, "0777"@),
        ("GIT_SYNC_SSH"@, "false"@),
        ("GIT_KNOWN_HOSTS"@, "true"@),
    ]
}

fn pair(k: &str, v: String) -> (res: (String, String))
    ensures
        res.0@ == k@,
        res.1@ == v@,
{
    (k.to_owned(), v)
}

/// The environment of the git-sync container: clone `repository` at `commit` once,
/// shallowly, on the branch `reference` (the default branch when there is none),
/// into the workspace.
pub fn git_sync_env(repository: &String, reference: &Option<String>, commit: &String) -> (res: Vec<(String, String)>)
    ensures
        pairs_view(res@) == git_sync_env_of(
            repository@,
            match reference {
                Some(r) => r@,
                None => Seq::empty(),
            },
            commit@,
        ),
{
    let branch = match reference {
        Some(r) => r.clone(),
        None => String::new(),
    };
    let mut env = Vec::new();
    env.push(pair("GIT_SYNC_REPO", repository.clone()));
    env.push(pair("GIT_SYNC_BRANCH", branch));
    env.push(pair("GIT_SYNC_REV", commit.clone()));
    env.push(pair("GIT_SYNC_DEPTH", "1".to_owned()));
    env.push(pair("GIT_SYNC_ONE_TIME", "true".to_owned()));
    env.push(pair("GIT_SYNC_ROOT", "/workspace".to_owned()));
    env.push(pair("GIT_SYNC_PERMISSIONS", "0777".to_owned()));
    env.push(pair("GIT_SYNC_SSH", "false".to_owned()));
    env.push(pair("GIT_KNOWN_HOSTS", "true".to_owned()));
    assert(pairs_view(env@) =~= git_sync_env_of(
        repository@,
        match reference {
            Some(r) => r@,
            None => Seq::empty(),
        },
        commit@,
    ));
    env
}

fn concat(a: &str, b: &String) -> (res: String)
    ensures
        res@ == a@ + b@,
{
    let mut s = a.to_owned();
    s.append(b.as_str());
    s
}

/// The arguments of the Kaniko container that builds `dockerfile` from the
/// workspace and pushes the image to `destination`.
pub open spec fn kaniko_args_of(dockerfile: Seq<char>, destination: Seq<char>) -> Seq<Seq<char>> {
    seq![
        "--dockerfile="@ + dockerfile,
        "--context=dir://workspace"@,
        "--destination="@ + destination,
        "--verbosity=debug"@,
        "--cache=false"@,
    ]
}

/// The arguments of the Kaniko container.
pub fn kaniko_args(dockerfile: &String, destination: &String) -> (res: Vec<String>)
    ensures
        strings_view(res@) == kaniko_args_of(dockerfile@, destination@),
{
    let mut args = Vec::new();
    args.push(concat("--dockerfile=", dockerfile));
    args.push("--context=dir://workspace".to_owned());
    args.push(concat("--destination=", destination));
    args.push("--verbosity=debug".to_owned());
    args.push("--cache=false".to_owned());
    assert(strings_view(args@) =~= kaniko_args_of(dockerfile@, destination@));
    args
}

/// The arguments of the Buildpacks container that builds the application in
/// directory `context` of the workspace.
pub open spec fn buildpacks_args_of(context: Seq<char>) -> Seq<Seq<char>> {
    seq!["-app=/workspace/"@ + context, "-log-level=info"@, "-gid=1000"@, "-uid=1000"@]
}

/// The arguments of the Buildpacks container.
pub fn buildpacks_args(context: &String) -> (res: Vec<String>)
    ensures
        strings_view(res@) == buildpacks_args_of(context@),
{
    let mut args = Vec::new();
    args.push(concat("-app=/workspace/", context));
    args.push("-log-level=info".to_owned());
    args.push("-gid=1000".to_owned());
    args.push("-uid=1000".to_owned());
    assert(strings_view(args@) =~= buildpacks_args_of(context@));
    args
}

/// The command of the Buildpacks container: the lifecycle creator, which runs
/// detector, analyzer, restorer, builder and exporter, writing image `docker_tag`.
pub fn buildpacks_command(docker_tag: &String) -> (res: Vec<String>)
    ensures
        strings_view(res@) == seq!["/cnb/lifecycle/creator"@, docker_tag@],
{
    let mut cmd = Vec::new();
    cmd.push("/cnb/lifecycle/creator".to_owned());
    cmd.push(docker_tag.clone());
    assert(strings_view(cmd@) =~= seq!["/cnb/lifecycle/creator"@, docker_tag@]);
    cmd
}

/// The tool that builds an actor's image.
pub enum Builder {
    Kaniko,
    Buildpacks,
}

/// Kaniko builds an actor that has a Dockerfile; Cloud Native Buildpacks any other.
pub fn builder(has_dockerfile: bool) -> (res: Builder)
    ensures
        res == if has_dockerfile {
            Builder::Kaniko
        } else {
            Builder::Buildpacks
        },
{
    if has_dockerfile {
        Builder::Kaniko
    } else {
        Builder::Buildpacks
    }
}

/// A container of the build job.
pub struct Container {
    pub name: String,
    pub image: String,
    pub image_pull_policy: String,
    pub command: Option<Vec<String>>,
    pub args: Option<Vec<String>>,
    /// The environment, as names and values.
    pub env: Option<Vec<(String, String)>>,
    pub volume_mounts: Vec<VolumeMount>,
    /// The user the container runs as, where it is set.
    pub run_as_user: Option<i64>,
}

/// The container mounts the build context at the workspace, and nothing else.
pub open spec fn mounts_workspace(c: Container) -> bool {
    &&& c.volume_mounts@.len() == 1
    &&& c.volume_mounts@[0].name@ == BUILD_CONTEXT_VOLUME@
    &&& c.volume_mounts@[0].mount_path@ == WORKSPACE_PATH@
}

/// `c` is the git-sync container that clones `repository` at `commit` on branch
/// `branch` with image `image`: it runs as root, pulls its image always, mounts the
/// workspace, and has no command or arguments of its own.
pub open spec fn is_git_sync_container(c: Container, repository: Seq<char>, branch: Seq<char>, commit: Seq<char>, image: Seq<char>) -> bool {
    &&& c.name@ == "git-sync"@
    &&& c.image@ == image
    &&& c.image_pull_policy@ == "Always"@
    &&& c.command is None
    &&& c.args is None
    &&& c.env matches Some(env) && pairs_view(env@) == git_sync_env_of(repository, branch, commit)
    &&& mounts_workspace(c)
    &&& c.run_as_user == Some(0i64)
}

/// `c` is the Kaniko container `name` with image `image` that builds `dockerfile`
/// and pushes `destination`, with environment `env`.
pub open spec fn is_kaniko_container(
    c: Container,
    name: Seq<char>,
    image: Seq<char>,
    dockerfile: Seq<char>,
    destination: Seq<char>,
    env: Option<Vec<(String, String)>>,
) -> bool {
    &&& c.name@ == name
    &&& c.image@ == image
    &&& c.image_pull_policy@ == "Always"@
    &&& c.command is None
    &&& c.args matches Some(args) && strings_view(args@) == kaniko_args_of(dockerfile, destination)
    &&& c.env == env
    &&& mounts_workspace(c)
    &&& c.run_as_user is None
}

/// `c` is the Buildpacks container `name` with image `image` that builds the
/// application in `context` into image `docker_tag`, with environment `env`.
pub open spec fn is_buildpacks_container(
    c: Container,
    name: Seq<char>,
    image: Seq<char>,
    context: Seq<char>,
    docker_tag: Seq<char>,
    env: Option<Vec<(String, String)>>,
) -> bool {
    &&& c.name@ == name
    &&& c.image@ == image
    &&& c.image_pull_policy@ == "Always"@
    &&& c.command matches Some(cmd) && strings_view(cmd@) == seq!["/cnb/lifecycle/creator"@, docker_tag]
    &&& c.args matches Some(args) && strings_view(args@) == buildpacks_args_of(context)
    &&& c.env == env
    &&& mounts_workspace(c)
    &&& c.run_as_user is None
}

/// The environment of a git-sync container tells git-sync what to check out: the
/// repository it was given, on the branch it was given, at exactly the commit it
/// was given, into the directory where its build context volume is mounted.
pub proof fn lemma_git_sync_checks_out_commit(
    c: Container,
    repository: Seq<char>,
    branch: Seq<char>,
    commit: Seq<char>,
    image: Seq<char>,
)
    requires
        is_git_sync_container(c, repository, branch, commit, image),
    ensures
        c.env is Some,
        lookup(c.env.unwrap()@, "GIT_SYNC_REPO"@) == repository,
        lookup(c.env.unwrap()@, "GIT_SYNC_BRANCH"@) == branch,
        lookup(c.env.unwrap()@, "GIT_SYNC_REV"@) == commit,
        lookup(c.env.unwrap()@, "GIT_SYNC_ROOT"@) == "/workspace"@,
        c.volume_mounts@.len() == 1,
        c.volume_mounts@[0].name@ == "build-context"@,
        c.volume_mounts@[0].mount_path@ == "/workspace"@,
{
    let env = c.env.unwrap()@;
    reveal_strlit("GIT_SYNC_REPO");
    reveal_strlit("GIT_SYNC_BRANCH");
    reveal_strlit("GIT_SYNC_REV");
    reveal_strlit("GIT_SYNC_DEPTH");
    reveal_strlit("GIT_SYNC_ONE_TIME");
    reveal_strlit("GIT_SYNC_ROOT");
    reveal_strlit("build-context");
    reveal_strlit("/workspace");
    let want = git_sync_env_of(repository, branch, commit);
    assert(pairs_view(env) == want);
    assert(want.len() == 9);
    assert(env.len() == 9);
    assert forall|i: int| 0 <= i < 9 implies env[i].0@ == #[trigger] want[i].0 && env[i].1@ == want[i].1 by {
        assert(pairs_view(env)[i] == want[i]);
    }
    assert(want[0].0 == "GIT_SYNC_REPO"@);
    assert(want[1].0 == "GIT_SYNC_BRANCH"@);
    assert(want[2].0 == "GIT_SYNC_REV"@);
    assert(want[3].0 == "GIT_SYNC_DEPTH"@);
    assert(want[4].0 == "GIT_SYNC_ONE_TIME"@);
    assert(want[5].0 == "GIT_SYNC_ROOT"@);
    assert("GIT_SYNC_REPO"@[10] != "GIT_SYNC_ROOT"@[10]);
    assert(env[0].0@ == "GIT_SYNC_REPO"@);
    assert(env[1].0@ == "GIT_SYNC_BRANCH"@);
    assert(env[2].0@ == "GIT_SYNC_REV"@);
    assert(env[3].0@ == "GIT_SYNC_DEPTH"@);
    assert(env[4].0@ == "GIT_SYNC_ONE_TIME"@);
    assert(env[5].0@ == "GIT_SYNC_ROOT"@);
    assert(env[5].1@ == "/workspace"@);
    assert(env.drop_first()[0] == env[1]);
    assert(env.drop_first().drop_first()[0] == env[2]);
    assert(env.drop_first().drop_first().drop_first()[0] == env[3]);
    assert(env.drop_first().drop_first().drop_first().drop_first()[0] == env[4]);
    assert(env.drop_first().drop_first().drop_first().drop_first().drop_first()[0] == env[5]);
    reveal_with_fuel(lookup, 7);
}

/// Every build container, Kaniko or Buildpacks, mounts the build context volume at
/// the workspace, where the git-sync init container clones the sources: the build
/// sees what was cloned.
pub proof fn lemma_build_container_mounts_build_context(
    c: Container,
    name: Seq<char>,
    image: Seq<char>,
    source: Seq<char>,
    tag: Seq<char>,
    env: Option<Vec<(String, String)>>,
)
    requires
        is_kaniko_container(c, name, image, source, tag, env) || is_buildpacks_container(
            c,
            name,
            image,
            source,
            tag,
            env,
        ),
    ensures
        c.volume_mounts@.len() == 1,
        c.volume_mounts@[0].name@ == "build-context"@,
        c.volume_mounts@[0].mount_path@ == "/workspace"@,
{
}

fn workspace_mounts() -> (res: Vec<VolumeMount>)
    ensures
        res@.len() == 1,
        res@[0].name@ == BUILD_CONTEXT_VOLUME@,
        res@[0].mount_path@ == WORKSPACE_PATH@,
{
    let mut v = Vec::new();
    v.push(workspace());
    v
}

/// A sidecar that clones a git repository into the workspace: git-sync, run once
/// and shallowly, as root, with image `image`.
pub fn new_git_sync_container(repository: &String, reference: &Option<String>, commit: &String, image: &String) -> (c: Container)
    ensures
        is_git_sync_container(
            c,
            repository@,
            match reference {
                Some(r) => r@,
                None => Seq::empty(),
            },
            commit@,
            image@,
        ),
        c.env is Some,
        lookup(c.env.unwrap()@, "GIT_SYNC_REPO"@) == repository@,
        lookup(c.env.unwrap()@, "GIT_SYNC_BRANCH"@) == match reference {
            Some(r) => r@,
            None => Seq::empty(),
        },
        lookup(c.env.unwrap()@, "GIT_SYNC_REV"@) == commit@,
        lookup(c.env.unwrap()@, "GIT_SYNC_ROOT"@) == "/workspace"@,
        c.volume_mounts@.len() == 1,
        c.volume_mounts@[0].name@ == "build-context"@,
        c.volume_mounts@[0].mount_path@ == "/workspace"@,
{
    let c = Container {
        name: "git-sync".to_owned(),
        image: image.clone(),
        image_pull_policy: "Always".to_owned(),
        command: None,
        args: None,
        env: Some(git_sync_env(repository, reference, commit)),
        volume_mounts: workspace_mounts(),
        run_as_user: Some(0),
    };
    proof {
        lemma_git_sync_checks_out_commit(
            c,
            repository@,
            match reference {
                Some(r) => r@,
                None => Seq::empty(),
            },
            commit@,
            image@,
        );
    }
    c
}

/// The Kaniko container `name`, with image `image`, that builds `dockerfile` from the
/// workspace and pushes the image to `destination`.
pub fn new_kaniko_container(
    name: String,
    image: String,
    dockerfile: &String,
    destination: &String,
    env: Option<Vec<(String, String)>>,
) -> (c: Container)
    ensures
        is_kaniko_container(c, name@, image@, dockerfile@, destination@, env),
        c.volume_mounts@.len() == 1,
        c.volume_mounts@[0].name@ == "build-context"@,
        c.volume_mounts@[0].mount_path@ == "/workspace"@,
{
    let ghost (n, i, e) = (name@, image@, env);
    let c = Container {
        name,
        image,
        image_pull_policy: "Always".to_owned(),
        command: None,
        args: Some(kaniko_args(dockerfile, destination)),
        env,
        volume_mounts: workspace_mounts(),
        run_as_user: None,
    };
    proof {
        lemma_build_container_mounts_build_context(c, n, i, dockerfile@, destination@, e);
    }
    c
}

/// The Buildpacks container `name`, with image `image`, whose lifecycle creator
/// builds the application in `context` into image `docker_tag`.
pub fn new_buildpacks_container(
    name: String,
    image: String,
    context: &String,
    docker_tag: &String,
    env: Option<Vec<(String, String)>>,
) -> (c: Container)
    ensures
        is_buildpacks_container(c, name@, image@, context@, docker_tag@, env),
        c.volume_mounts@.len() == 1,
        c.volume_mounts@[0].name@ == "build-context"@,
        c.volume_mounts@[0].mount_path@ == "/workspace"@,
{
    let ghost (n, i, e) = (name@, image@, env);
    let c = Container {
        name,
        image,
        image_pull_policy: "Always".to_owned(),
        command: Some(buildpacks_command(docker_tag)),
        args: Some(buildpacks_args(context)),
        env,
        volume_mounts: workspace_mounts(),
        run_as_user: None,
    };
    proof {
        lemma_build_container_mounts_build_context(c, n, i, context@, docker_tag@, e);
    }
    c
}

/// What the build job of an actor is made from.
pub struct BuildSource {
    /// The name of the job and of its build container.
    pub build_name: String,
    pub repository: String,
    pub reference: Option<String>,
    pub commit: String,
    /// The image the build writes.
    pub docker_tag: String,
    /// The Dockerfile, where the actor has one.
    pub dockerfile: Option<String>,
    /// The directory of the application in the workspace.
    pub context: String,
    /// The environment of the build container.
    pub env: Option<Vec<(String, String)>>,
    pub git_sync_image: String,
    pub kaniko_image: String,
    pub buildpacks_image: String,
}

/// The job that builds an actor's image.
pub struct JobPlan {
    pub name: String,
    pub labels: Vec<(String, String)>,
    pub annotations: Vec<(String, String)>,
    pub restart_policy: String,
    pub init_containers: Vec<Container>,
    pub containers: Vec<Container>,
    /// The empty-dir volume that holds the sources.
    pub volume: String,
    pub backoff_limit: i32,
    pub completions: i32,
    pub parallelism: i32,
}

/// The job that builds the image of `src`, made from a spec with hash `hash`: named
/// and labelled after the build, annotated with the hash, never restarted, run once
/// with one retry; git-sync clones the sources into the build context, then Kaniko
/// builds the Dockerfile where there is one, else Cloud Native Buildpacks build.
pub fn job_plan(src: BuildSource, hash: &String) -> (res: JobPlan)
    ensures
        res.name@ == src.build_name@,
        res.labels@.len() == 2,
        res.labels@[0].0@ == NAME_LABEL@,
        res.labels@[0].1@ == src.build_name@,
        res.labels@[1].0@ == MANAGED_BY_LABEL@,
        res.labels@[1].1@ == MANAGER@,
        res.annotations@.len() == 1,
        res.annotations@[0].0@ == LAST_APPLIED_HASH_KEY@,
        res.annotations@[0].1@ == hash@,
        res.restart_policy@ == "Never"@,
        res.volume@ == BUILD_CONTEXT_VOLUME@,
        res.backoff_limit == 1,
        res.completions == 1,
        res.parallelism == 1,
        res.init_containers@.len() == 1,
        is_git_sync_container(
            res.init_containers@[0],
            src.repository@,
            match src.reference {
                Some(r) => r@,
                None => Seq::empty(),
            },
            src.commit@,
            src.git_sync_image@,
        ),
        res.init_containers@[0].env is Some,
        lookup(res.init_containers@[0].env.unwrap()@, "GIT_SYNC_REV"@) == src.commit@,
        lookup(res.init_containers@[0].env.unwrap()@, "GIT_SYNC_REPO"@) == src.repository@,
        res.containers@.len() == 1,
        res.volume@ == "build-context"@,
        res.init_containers@[0].volume_mounts@.len() == 1,
        res.init_containers@[0].volume_mounts@[0].name@ == res.volume@,
        res.init_containers@[0].volume_mounts@[0].mount_path@ == "/workspace"@,
        res.containers@[0].volume_mounts@.len() == 1,
        res.containers@[0].volume_mounts@[0].name@ == res.volume@,
        res.containers@[0].volume_mounts@[0].mount_path@ == "/workspace"@,
        match src.dockerfile {
            Some(d) => is_kaniko_container(
                res.containers@[0],
                src.build_name@,
                src.kaniko_image@,
                d@,
                src.docker_tag@,
                src.env,
            ),
            None => is_buildpacks_container(
                res.containers@[0],
                src.build_name@,
                src.buildpacks_image@,
                src.context@,
                src.docker_tag@,
                src.env,
            ),
        },
{
    let git_sync = new_git_sync_container(&src.repository, &src.reference, &src.commit, &src.git_sync_image);
    let container = match &src.dockerfile {
        Some(d) => new_kaniko_container(src.build_name.clone(), src.kaniko_image, d, &src.docker_tag, src.env),
        None => new_buildpacks_container(
            src.build_name.clone(),
            src.buildpacks_image,
            &src.context,
            &src.docker_tag,
            src.env,
        ),
    };
    let mut init_containers = Vec::new();
    init_containers.push(git_sync);
    let mut containers = Vec::new();
    containers.push(container);
    JobPlan {
        labels: labels(&src.build_name),
        annotations: annotations(hash),
        name: src.build_name,
        restart_policy: "Never".to_owned(),
        init_containers,
        containers,
        volume: BUILD_CONTEXT_VOLUME.to_owned(),
        backoff_limit: 1,
        completions: 1,
        parallelism: 1,
    }
}

} // verus!
