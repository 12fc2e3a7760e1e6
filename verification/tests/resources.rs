use amphitheatre::resources::job::{
    job_plan, new_buildpacks_container, new_git_sync_container, new_kaniko_container, BuildSource,
    buildpacks_args, buildpacks_command, builder, git_sync_env, kaniko_args, workspace, Builder,
};
use amphitheatre::resources::service_account::with_reference;
use amphitheatre::resources::{
    annotations, apply_plan, found_hash, hash, labels, namespace, needs_update, Apply, LAST_APPLIED_HASH_KEY,
};

#[test]
fn hash_is_lowercase_hex_sha256() {
    assert_eq!(hash(b""), "e3b0c44298fc1c149afbf4c8996fb92427ae41e4649b934ca495991b7852b855");
    assert_eq!(hash(b"abc"), "ba7816bf8f01cfea414140de5dae2223b00361a396177a9cb410ff61f20015ad");
}

#[test]
fn labels_and_annotations_of_a_resource() {
    let l = labels(&"demo".to_string());
    assert_eq!(
        l,
        vec![
            ("app.kubernetes.io/name".to_string(), "demo".to_string()),
            ("app.kubernetes.io/managed-by".to_string(), "Amphitheatre".to_string()),
        ]
    );
    let a = annotations(&"abc".to_string());
    assert_eq!(a, vec![(LAST_APPLIED_HASH_KEY.to_string(), "abc".to_string())]);
    assert_eq!(LAST_APPLIED_HASH_KEY, "actors.amphitheatre.io/last-applied-hash");
    assert_eq!(
        namespace::labels(),
        vec![("app.kubernetes.io/managed-by".to_string(), "Amphitheatre".to_string())]
    );
}

#[test]
fn found_hash_reads_the_annotation() {
    let a = vec![
        ("other".to_string(), "x".to_string()),
        (LAST_APPLIED_HASH_KEY.to_string(), "h1".to_string()),
        (LAST_APPLIED_HASH_KEY.to_string(), "h2".to_string()),
    ];
    assert_eq!(found_hash(&a), "h1");
    assert_eq!(found_hash(&vec![("other".to_string(), "x".to_string())]), "");
    assert_eq!(found_hash(&vec![]), "");
}

#[test]
fn applied_resource_is_patched_only_on_change() {
    let h = hash(b"{\"name\":\"demo\"}");
    let applied = annotations(&h);
    assert!(!needs_update(&found_hash(&applied), &h));
    let changed = hash(b"{\"name\":\"demo2\"}");
    assert!(needs_update(&found_hash(&applied), &changed));
    assert!(needs_update(&found_hash(&vec![]), &h));
}

#[test]
fn existing_resources_are_updated() {
    assert!(matches!(apply_plan(true), Apply::Update));
    assert!(matches!(apply_plan(false), Apply::Create));
}

#[test]
fn service_account_references_are_appended() {
    assert_eq!(with_reference(Some(vec![1, 2]), 3, true), vec![1, 2, 3]);
    assert_eq!(with_reference(Some(vec![1, 2]), 3, false), vec![1, 2]);
    assert_eq!(with_reference(None, 3, true), vec![3]);
    assert_eq!(with_reference::<i32>(None, 3, false), Vec::<i32>::new());
}

#[test]
fn git_sync_environment() {
    let env = git_sync_env(&"https://r.git".to_string(), &Some("main".to_string()), &"abc".to_string());
    let expected: Vec<(String, String)> = [
        ("GIT_SYNC_REPO", "https://r.git"),
        ("GIT_SYNC_BRANCH", "main"),
        ("GIT_SYNC_REV", "abc"),
        ("GIT_SYNC_DEPTH", "1"),
        ("GIT_SYNC_ONE_TIME", "true"),
        ("GIT_SYNC_ROOT", "/workspace"),
        ("GIT_SYNC_PERMISSIONS", "0777"),
        ("GIT_SYNC_SSH", "false"),
        ("GIT_KNOWN_HOSTS", "true"),
    ]
    .iter()
    .map(|(k, v)| (k.to_string(), v.to_string()))
    .collect();
    assert_eq!(env, expected);
    let env = git_sync_env(&"https://r.git".to_string(), &None, &"abc".to_string());
    assert_eq!(env[1], ("GIT_SYNC_BRANCH".to_string(), String::new()));
}

#[test]
fn build_container_arguments() {
    assert_eq!(
        kaniko_args(&"Dockerfile".to_string(), &"registry/app:v1".to_string()),
        vec![
            "--dockerfile=Dockerfile",
            "--context=dir://workspace",
            "--destination=registry/app:v1",
            "--verbosity=debug",
            "--cache=false"
        ]
    );
    assert_eq!(
        buildpacks_args(&"app".to_string()),
        vec!["-app=/workspace/app", "-log-level=info", "-gid=1000", "-uid=1000"]
    );
    assert_eq!(
        buildpacks_command(&"registry/app:v1".to_string()),
        vec!["/cnb/lifecycle/creator", "registry/app:v1"]
    );
    let w = workspace();
    assert_eq!((w.name.as_str(), w.mount_path.as_str()), ("build-context", "/workspace"));
    assert!(matches!(builder(true), Builder::Kaniko));
    assert!(matches!(builder(false), Builder::Buildpacks));
}

fn source(dockerfile: Option<&str>) -> BuildSource {
    BuildSource {
        build_name: "web-build".into(),
        repository: "https://r.git".into(),
        reference: None,
        commit: "abc".into(),
        docker_tag: "registry/web:v1".into(),
        dockerfile: dockerfile.map(|d| d.to_string()),
        context: "app".into(),
        env: None,
        git_sync_image: "git-sync:v3".into(),
        kaniko_image: "kaniko:latest".into(),
        buildpacks_image: "lifecycle:latest".into(),
    }
}

#[test]
fn git_sync_container_fields() {
    let c = new_git_sync_container(&"https://r.git".into(), &Some("main".into()), &"abc".into(), &"git-sync:v3".into());
    assert_eq!(c.name, "git-sync");
    assert_eq!(c.image, "git-sync:v3");
    assert_eq!(c.image_pull_policy, "Always");
    assert_eq!(c.run_as_user, Some(0));
    assert!(c.command.is_none() && c.args.is_none());
    assert_eq!(c.env.unwrap()[1], ("GIT_SYNC_BRANCH".to_string(), "main".to_string()));
    assert_eq!(c.volume_mounts.len(), 1);
    assert_eq!(c.volume_mounts[0].mount_path, "/workspace");
}

#[test]
fn build_job_with_buildpacks_and_kaniko() {
    let plan = job_plan(source(None), &"h".to_string());
    assert_eq!(plan.name, "web-build");
    assert_eq!(plan.restart_policy, "Never");
    assert_eq!((plan.backoff_limit, plan.completions, plan.parallelism), (1, 1, 1));
    assert_eq!(plan.volume, "build-context");
    assert_eq!(plan.annotations, vec![(LAST_APPLIED_HASH_KEY.to_string(), "h".to_string())]);
    assert_eq!(plan.labels[0], ("app.kubernetes.io/name".to_string(), "web-build".to_string()));
    assert_eq!(plan.init_containers[0].name, "git-sync");
    let c = &plan.containers[0];
    assert_eq!((c.name.as_str(), c.image.as_str()), ("web-build", "lifecycle:latest"));
    assert_eq!(c.command.clone().unwrap(), vec!["/cnb/lifecycle/creator", "registry/web:v1"]);
    assert_eq!(c.args.clone().unwrap()[0], "-app=/workspace/app");
    assert!(c.run_as_user.is_none());

    let plan = job_plan(source(Some("Dockerfile")), &"h".to_string());
    let c = &plan.containers[0];
    assert_eq!((c.name.as_str(), c.image.as_str()), ("web-build", "kaniko:latest"));
    assert!(c.command.is_none());
    assert_eq!(c.args.clone().unwrap()[0], "--dockerfile=Dockerfile");
    assert_eq!(c.args.clone().unwrap()[2], "--destination=registry/web:v1");
}

#[test]
fn kaniko_and_buildpacks_containers() {
    let env = Some(vec![("A".to_string(), "1".to_string())]);
    let c = new_kaniko_container("b".into(), "k".into(), &"Dockerfile".into(), &"t".into(), env.clone());
    assert_eq!(c.env, env);
    let c = new_buildpacks_container("b".into(), "p".into(), &".".into(), &"t".into(), None);
    assert_eq!(c.args.unwrap()[0], "-app=/workspace/.");
    assert!(c.env.is_none());
}

#[test]
fn deployment_and_service_plans() {
    let d = amphitheatre::resources::deployment_plan(&"web".to_string(), &"registry/web:v1".to_string(), &"h".to_string());
    assert_eq!((d.name.as_str(), d.container_name.as_str(), d.image.as_str()), ("web", "web", "registry/web:v1"));
    assert_eq!(d.image_pull_policy, "Always");
    assert_eq!(d.labels, labels(&"web".to_string()));
    assert_eq!(d.selector, labels(&"web".to_string()));
    assert_eq!(d.annotations, vec![(LAST_APPLIED_HASH_KEY.to_string(), "h".to_string())]);
    let s = amphitheatre::resources::service_plan(&"web".to_string(), &"h".to_string());
    assert_eq!(s.name, "web");
    assert_eq!(s.selector, labels(&"web".to_string()));
    assert_eq!(s.annotations, d.annotations);
}
