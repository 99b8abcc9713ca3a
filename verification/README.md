# homelab_mcp

Verified core of the homelab tooling: model recipes and deployment plans,
KServe rendering, runtime state and reconciliation for Kubernetes, the media
backends (request manager, download manager, media server), season
availability, and the `homelab` command line's requests, exit classes and
tables. Every function in `src/` carries a contract proved by Verus.

Layout:

- `src/text.rs`, `src/json.rs`, `src/urls.rs`: text, JSON values and URL parts
  as the contracts see them.
- `src/catalog/`: recipes, cluster profile, planning, policy, digests,
  rendering, capacity estimates, custom-resource records.
- `src/k8s/`: names and labels, download jobs, InferenceService status and
  logs, the reconciliation step.
- `src/media/`: backend answers and their normalization, errors, service
  health, configuration, season availability.
- `src/cli.rs`, `src/cli/table.rs`, `src/client.rs`: the command tree, the
  API call of each command, exit classes, error documents and tables.
- `app/`: the `homelab` program and the I/O around the library (HTTP,
  Kubernetes, files, environment, clock, floating-point readings).
- `tests/`: tests of the library's public functions.
