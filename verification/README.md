# amphitheatre

The verified core of Amphitheatre, a Kubernetes composer that turns playbooks of
actors (Git repositories) into built images, deployments and services.

- `src/` is the library, verified with Verus:
  - `composer/`: the playbook and actor controllers: which partner repositories a
    playbook still lacks, what each reconcile pass does, and the actor types.
  - `workflow/`: the state machines of the playbook and actor workflows.
  - `resources/`: conditions and statuses of the custom resources, credentials and
    their secrets, the labels, annotations and hash check of the workloads, and the
    containers of the build job.
  - `response.rs`, `handlers.rs`, `services.rs`: the HTTP API's answers and decisions.
  - `syncer.rs`: the subjects and decisions of the workspace syncer.
  - `schema.rs`, `config.rs`, `models.rs`, `repositories.rs`: plain data.
- `app/` holds what talks to the outside world: HTTP answers, command-line
  configuration, Kubernetes API calls, Kubernetes objects and the syncer's files.
- `tests/` runs the library on concrete values.
