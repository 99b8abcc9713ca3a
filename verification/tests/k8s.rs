use homelab_mcp::catalog::crds::ModelDeploymentStatus;
use homelab_mcp::catalog::state::DeploymentState;
use homelab_mcp::json::JsonValue;
use homelab_mcp::k8s::capacity::{
    active_model_from_pod, capacity_risks, node_is_ready, prometheus_query_url,
    prometheus_scalar_text, PodFacts,
};
use homelab_mcp::k8s::download::{build_download_job, job_value};
use homelab_mcp::json::to_json_text;
use homelab_mcp::k8s::labels::{bounded_label_value, deployment_labels, recipe_labels};
use homelab_mcp::k8s::live::{
    download_status_of, event_line, log_lines, manifest_name, model_status, JobCondition,
    JobLookup, JobStatusFacts,
};
use homelab_mcp::k8s::names::{
    deployment_resource_name, download_job_name, recipe_resource_name, target_to_node_name,
    DownloadJobSpec,
};
use homelab_mcp::k8s::reconciler::{
    dynamic_conditions, dynamic_url, missing_inferenceservice_status,
    missing_inferenceservice_status_at, needs_reconcile, reconcile_step_at,
    status_from_kserve_conditions, ServiceLookup, StatusCondition,
};
use homelab_mcp::k8s::status::{DownloadJobRef, DownloadStatus};

fn s(text: &str) -> JsonValue {
    JsonValue::Str(text.to_owned())
}

fn obj(members: Vec<(&str, JsonValue)>) -> JsonValue {
    JsonValue::Object(members.into_iter().map(|(k, v)| (k.to_owned(), v)).collect())
}

fn condition(type_: &str, status: &str, reason: Option<&str>, message: Option<&str>) -> StatusCondition {
    StatusCondition {
        type_: type_.into(),
        status: status.into(),
        reason: reason.unwrap_or("").into(),
        message: message.unwrap_or("").into(),
    }
}

#[test]
fn crate_is_ready() {
    // the cluster modules build and are reachable from outside
    let _ = target_to_node_name("spark");
}

#[test]
fn spark_target_maps_to_node_name() {
    assert_eq!(target_to_node_name("spark"), "gx10-98a5");
}

#[test]
fn other_target_passes_through() {
    assert_eq!(target_to_node_name("other-node"), "other-node");
}

#[test]
fn parse_prometheus_scalar_extracts_value() {
    let response = obj(vec![(
        "data",
        obj(vec![(
            "result",
            JsonValue::Array(vec![obj(vec![(
                "value",
                JsonValue::Array(vec![JsonValue::Int(1234567890), s("42.5")]),
            )])]),
        )]),
    )]);
    let value = prometheus_scalar_text(&response).map(|t| t.parse::<f64>().unwrap());
    assert_eq!(value, Some(42.5));
}

#[test]
fn parse_prometheus_scalar_returns_none_for_empty_result() {
    let response = obj(vec![("data", obj(vec![("result", JsonValue::Array(vec![]))]))]);
    assert_eq!(prometheus_scalar_text(&response), None);
}

#[test]
fn download_job_name_is_deterministic() {
    assert_eq!(
        download_job_name("Qwen/Qwen3-8B", "main"),
        "download-qwen-qwen3-8b-main"
    );
}

fn download_spec(model_id: &str) -> DownloadJobSpec {
    DownloadJobSpec {
        model_id: model_id.into(),
        revision: "main".into(),
        nas_path: "/tank/models".into(),
        download_node_selector: "superbloom".into(),
        hf_secret_name: "hf-token".into(),
        hf_secret_namespace: "ai".into(),
    }
}

#[test]
fn build_download_job_targets_nas_node_with_sentinel() {
    let job = build_download_job(&download_spec("Qwen/Qwen3-8B"));
    assert_eq!(job.name, "download-qwen-qwen3-8b-main");
    assert_eq!(job.node_hostname, "superbloom");
    let combined = job.args.join(" ");
    assert!(combined.contains("hf download"));
    assert!(combined.contains("--local-dir /tank/models/Qwen/Qwen3-8B"));
    assert!(combined.contains(".homelab-mcp-download.json"));
}

#[test]
fn build_download_job_uses_hf_secret() {
    let job = build_download_job(&download_spec("deepseek-ai/DeepSeek-V4-Flash"));
    assert_eq!(job.token_env, "HF_TOKEN");
    assert_eq!(job.token_secret_name, "hf-token");
    assert_eq!(job.token_secret_key, "token");
}

#[test]
fn download_job_command_writes_the_sentinel_after_the_download() {
    let job = build_download_job(&download_spec("Qwen/Qwen3-8B"));
    assert_eq!(job.command, vec!["sh".to_owned(), "-c".to_owned()]);
    assert_eq!(
        job.args[0],
        "pip install -q hf && hf download Qwen/Qwen3-8B --local-dir /tank/models/Qwen/Qwen3-8B \
         --revision main --token $HF_TOKEN && echo '{\"model_id\":\"Qwen/Qwen3-8B\",\"revision\":\"main\",\
         \"downloaded_at\":\"'$(date -uIs)'\",\"source\":\"huggingface\",\"complete\":true}' > \
         /tank/models/Qwen/Qwen3-8B/.homelab-mcp-download.json"
    );
    assert_eq!(job.namespace, "ai");
    assert_eq!((job.backoff_limit, job.ttl_seconds_after_finished), (2, 3600));
    assert_eq!(job.labels.len(), 4);
    assert_eq!(job.labels[3], ("homelab.saavylab.dev/purpose".to_owned(), "weight-download".to_owned()));
}

#[test]
fn ready_true_maps_to_ready_and_kserve_ready_true() {
    let conditions = vec![condition("Ready", "True", None, None)];
    let status = status_from_kserve_conditions(None, Some(1), conditions, Some("http://url".into()));
    assert_eq!(status.state, DeploymentState::Ready);
    assert!(status.kserve_ready);
    assert_eq!(status.failure_reason, None);
    assert_eq!(status.url, Some("http://url".into()));
    assert_eq!(status.observed_generation, Some(1));
    assert!(status.last_transition_time.is_some());
}

#[test]
fn ready_false_maps_to_failed_with_failure_reason() {
    let conditions = vec![condition("Ready", "False", Some("CrashLoopBackOff"), Some("container crashed"))];
    let status = status_from_kserve_conditions(None, Some(2), conditions, None);
    assert_eq!(status.state, DeploymentState::Failed);
    assert!(!status.kserve_ready);
    assert_eq!(status.failure_reason, Some("container crashed".into()));
    assert_eq!(status.observed_generation, Some(2));
}

#[test]
fn ready_false_uses_reason_when_message_missing() {
    let conditions = vec![condition("Ready", "False", Some("SomeReason"), None)];
    let status = status_from_kserve_conditions(None, None, conditions, None);
    assert_eq!(status.state, DeploymentState::Failed);
    assert_eq!(status.failure_reason, Some("SomeReason".into()));
}

#[test]
fn missing_ready_condition_maps_to_applying() {
    let conditions = vec![condition("Initialized", "True", None, None)];
    let status = status_from_kserve_conditions(None, Some(1), conditions, None);
    assert_eq!(status.state, DeploymentState::Applying);
    assert!(!status.kserve_ready);
}

#[test]
fn ready_unknown_maps_to_applying_and_kserve_ready_false() {
    let conditions = vec![condition("Ready", "Unknown", None, None)];
    let status = status_from_kserve_conditions(None, Some(1), conditions, None);
    assert_eq!(status.state, DeploymentState::Applying);
    assert!(!status.kserve_ready);
    assert_eq!(status.failure_reason, None);
    assert_eq!(status.observed_generation, Some(1));
}

#[test]
fn missing_inferenceservice_maps_to_failed_with_exact_reason() {
    let status = missing_inferenceservice_status(None, Some(1));
    assert_eq!(status.state, DeploymentState::Failed);
    assert!(!status.kserve_ready);
    assert_eq!(status.failure_reason, Some("KServe InferenceService not found".into()));
    assert_eq!(status.observed_generation, Some(1));
}

fn existing(state: DeploymentState, ready: bool, url: Option<&str>) -> ModelDeploymentStatus {
    ModelDeploymentStatus {
        state,
        observed_generation: Some(1),
        last_transition_time: Some("2024-01-01T00:00:00Z".into()),
        failure_reason: None,
        kserve_ready: ready,
        url: url.map(str::to_owned),
    }
}

#[test]
fn transition_time_preserved_when_state_unchanged() {
    let existing = existing(DeploymentState::Ready, true, Some("http://old"));
    let conditions = vec![condition("Ready", "True", None, None)];
    let status = status_from_kserve_conditions(Some(&existing), Some(2), conditions, Some("http://new".into()));
    assert_eq!(status.state, DeploymentState::Ready);
    assert_eq!(status.last_transition_time, Some("2024-01-01T00:00:00Z".into()));
    assert_eq!(status.url, Some("http://new".into()));
}

#[test]
fn transition_time_updated_when_state_changes() {
    let existing = existing(DeploymentState::Applying, false, None);
    let conditions = vec![condition("Ready", "True", None, None)];
    let status = status_from_kserve_conditions(Some(&existing), Some(2), conditions, Some("http://url".into()));
    assert_eq!(status.state, DeploymentState::Ready);
    assert!(status.last_transition_time.is_some());
    assert_ne!(status.last_transition_time, Some("2024-01-01T00:00:00Z".into()));
}

#[test]
fn missing_inferenceservice_preserves_existing_url() {
    let existing = existing(DeploymentState::Ready, true, Some("http://existing"));
    let status = missing_inferenceservice_status(Some(&existing), Some(2));
    assert_eq!(status.state, DeploymentState::Failed);
    assert_eq!(status.url, Some("http://existing".into()));
    assert_eq!(status.observed_generation, Some(2));
    assert_ne!(status.last_transition_time, Some("2024-01-01T00:00:00Z".into()));
}

fn kserve_object() -> JsonValue {
    obj(vec![(
        "status",
        obj(vec![
            ("url", s("http://my-model.example.com")),
            (
                "conditions",
                JsonValue::Array(vec![
                    obj(vec![
                        ("type", s("Ready")),
                        ("status", s("True")),
                        ("lastTransitionTime", s("2024-01-01T00:00:00Z")),
                        ("reason", s("AllGood")),
                        ("message", s("Deployment is ready")),
                    ]),
                    obj(vec![
                        ("type", s("Predictable")),
                        ("status", s("True")),
                        ("lastTransitionTime", s("2024-01-01T00:00:00Z")),
                        ("reason", s("Predictable")),
                        ("message", s("Predictable")),
                    ]),
                ]),
            ),
        ]),
    )])
}

#[test]
fn dynamic_parsing_extracts_conditions_and_url_from_kserve_json() {
    let data = kserve_object();
    let conditions = dynamic_conditions(&data);
    assert_eq!(conditions.len(), 2);
    assert_eq!(conditions[0].type_, "Ready");
    assert_eq!(conditions[0].status, "True");
    assert_eq!(conditions[0].reason, "AllGood");
    assert_eq!(conditions[0].message, "Deployment is ready");
    assert_eq!(dynamic_url(&data), Some("http://my-model.example.com".to_string()));
}

#[test]
fn dynamic_parsing_handles_empty_status() {
    let data = obj(vec![("status", obj(vec![]))]);
    assert!(dynamic_conditions(&data).is_empty());
    assert_eq!(dynamic_url(&data), None);
}

#[test]
fn dynamic_parsing_handles_sparse_kserve_conditions() {
    let data = obj(vec![(
        "status",
        obj(vec![(
            "conditions",
            JsonValue::Array(vec![obj(vec![
                ("type", s("Ready")),
                ("status", s("True")),
                ("lastTransitionTime", s("2024-01-01T00:00:00Z")),
            ])]),
        )]),
    )]);
    let conditions = dynamic_conditions(&data);
    assert_eq!(conditions.len(), 1);
    assert_eq!(conditions[0].type_, "Ready");
    assert_eq!(conditions[0].status, "True");
    assert_eq!(conditions[0].reason, "");
    assert_eq!(conditions[0].message, "");
    let status = status_from_kserve_conditions(None, Some(1), conditions, None);
    assert_eq!(status.state, DeploymentState::Ready);
    assert!(status.kserve_ready);
}

#[test]
fn reconcile_step_skips_stopped_and_unreachable_deployments() {
    let stopped = existing(DeploymentState::Stopped, false, None);
    assert!(reconcile_step_at(Some(&stopped), Some(3), &ServiceLookup::Missing, "now".into()).is_none());
    assert!(reconcile_step_at(None, Some(3), &ServiceLookup::Unreachable, "now".into()).is_none());
    let ready = reconcile_step_at(None, Some(3), &ServiceLookup::Found(kserve_object()), "now".into()).unwrap();
    assert_eq!(ready.state, DeploymentState::Ready);
    assert_eq!(ready.url.as_deref(), Some("http://my-model.example.com"));
    assert_eq!(ready.last_transition_time.as_deref(), Some("now"));
    let gone = missing_inferenceservice_status_at(Some(&existing(DeploymentState::Failed, false, Some("u"))), None, "later".into());
    assert_eq!(gone.last_transition_time.as_deref(), Some("2024-01-01T00:00:00Z"));
}

#[test]
fn only_stopped_deployments_skip_the_lookup() {
    assert!(!needs_reconcile(Some(&existing(DeploymentState::Stopped, false, None))));
    assert!(needs_reconcile(Some(&existing(DeploymentState::Failed, false, None))));
    assert!(needs_reconcile(Some(&existing(DeploymentState::Ready, true, Some("u")))));
    assert!(needs_reconcile(None));
}

#[test]
fn recipe_resource_name_sanitizes_recipe_ids() {
    assert_eq!(
        recipe_resource_name("deepseek-ai/DeepSeek-V4-Flash"),
        "model-recipe-deepseek-ai-deepseek-v4-flash"
    );
}

#[test]
fn deployment_resource_name_sanitizes_names() {
    assert_eq!(deployment_resource_name("lfm25-350m"), "model-deployment-lfm25-350m");
}

#[test]
fn bounded_label_value_keeps_values_under_limit() {
    let value = bounded_label_value(
        "deepseek-ai/DeepSeek-V4-Flash-with-a-very-long-suffix-that-exceeds-kubernetes-label-limits",
    );
    assert!(value.len() <= 63);
}

#[test]
fn bounded_label_value_spaces_replaced() {
    let result = bounded_label_value("foo bar");
    assert!(!result.contains(' '), "should not contain space: {result}");
    assert_eq!(result, "foo-bar", "spaces should map to hyphens: {result}");
}

#[test]
fn bounded_label_value_trims_punctuation_ends() {
    let result = bounded_label_value("-bad-");
    let first = result.chars().next().unwrap();
    let last = result.chars().last().unwrap();
    assert!(first.is_ascii_alphanumeric(), "should start with alphanumeric: {result}");
    assert!(last.is_ascii_alphanumeric(), "should end with alphanumeric: {result}");
    assert!(result.contains("bad"), "should contain core value: {result}");
}

#[test]
fn bounded_label_value_non_ascii_fallback() {
    let result = bounded_label_value("你好世界");
    assert!(!result.is_empty(), "should not be empty: {result}");
    assert!(result.len() <= 63, "should fit label limit: {result}");
    assert!(
        result
            .chars()
            .all(|c| c.is_ascii_alphanumeric() || c == '-' || c == '_' || c == '.'),
        "should only contain ASCII label-safe chars: {result}"
    );
}

#[test]
fn bounded_label_value_long_invalid_deterministic() {
    let long = "foo bar baz ".repeat(20);
    let r1 = bounded_label_value(&long);
    let r2 = bounded_label_value(&long);
    assert_eq!(r1, r2, "should be deterministic");
    assert!(r1.len() <= 63, "should fit label limit: {r1}");
    assert!(!r1.contains(' '), "should not contain space: {r1}");
}

#[test]
fn bounded_label_value_is_idempotent_and_lower_case() {
    let inputs = [
        "ÀBC-Ωmega".to_string(),
        "deepseek-ai/DeepSeek-V4-Flash".to_string(),
        "KELVIN-\u{212A}".to_string(),
        "你好世界".to_string(),
        "Foo Bar ".repeat(20),
    ];
    for input in inputs.iter() {
        let once = bounded_label_value(input);
        assert!(
            once.chars()
                .all(|c| c.is_ascii_lowercase() || c.is_ascii_digit() || c == '-' || c == '_' || c == '.'),
            "label must be lower-case label-safe text: {once}"
        );
        assert_eq!(bounded_label_value(&once), once);
    }
    assert_eq!(bounded_label_value("ÀBC-Ωmega"), "bc--mega");
    assert_eq!(bounded_label_value("KELVIN-\u{212A}"), "kelvin-k");
}

#[test]
fn bounded_label_value_short_unchanged() {
    assert_eq!(bounded_label_value("short"), "short");
    assert_eq!(
        bounded_label_value("deepseek-ai/DeepSeek-V4-Flash"),
        "deepseek-ai-deepseek-v4-flash"
    );
}

#[test]
fn bounded_label_value_exactly_63() {
    let s = "a".repeat(63);
    assert_eq!(bounded_label_value(&s), s);
}

#[test]
fn bounded_label_value_long_truncated() {
    let s = "a".repeat(100);
    let result = bounded_label_value(&s);
    assert!(result.len() <= 63, "result length {} > 63", result.len());
    assert!(result.starts_with('a'), "should preserve prefix");
    assert!(result.contains('-'), "should contain hash separator");
}

#[test]
fn bounded_label_value_deterministic() {
    let long = "deepseek-ai/DeepSeek-V4-Flash-Extended-Version-With-Extra-Long-Identifier-That-Exceeds-The-Sixty-Three-Character-Limit";
    let r1 = bounded_label_value(long);
    let r2 = bounded_label_value(long);
    assert_eq!(r1, r2, "should be deterministic");
    assert!(r1.len() <= 63, "should fit label limit: {r1}");
}

#[test]
fn bounded_label_value_trims_invalid_ends() {
    let long = "a.b.c.d.e.f.g.h.i.j.k.l.m.n.o.p.q.r.s.t.u.v.w.x.y.z.1.2.3.4.5.6.7.8.9.0.a.b.c.d.e.f.g.h.i.j.k.l.m.n.o.p.q.r.s.t.u.v.w.x.y.z";
    let result = bounded_label_value(long);
    assert!(result.len() <= 63, "should fit label limit: {result}");
    let first = result.chars().next().unwrap();
    let last = result.chars().last().unwrap();
    assert!(first.is_ascii_alphanumeric(), "should start with alphanumeric: {result}");
    assert!(last.is_ascii_alphanumeric(), "should end with alphanumeric: {result}");
}

#[test]
fn stored_resources_carry_their_kind_and_bounded_ids() {
    let labels = recipe_labels("deepseek-ai/DeepSeek-V4-Flash");
    assert_eq!(labels[1], ("models.saavylab.dev/kind".to_owned(), "recipe".to_owned()));
    assert_eq!(labels[2].1, "deepseek-ai-deepseek-v4-flash");
    let labels = deployment_labels("lfm25-350m", "spark");
    assert_eq!(labels[1].1, "deployment");
    assert_eq!(labels[3], ("models.saavylab.dev/target".to_owned(), "spark".to_owned()));
}

fn job_ref() -> DownloadJobRef {
    DownloadJobRef {
        job_name: "download-qwen-qwen3-8b-main".into(),
        namespace: "ai".into(),
        model_id: "Qwen/Qwen3-8B".into(),
    }
}

fn job_condition(type_: &str, status: &str, message: Option<&str>) -> JobCondition {
    JobCondition { type_: type_.into(), status: status.into(), message: message.map(str::to_owned) }
}

#[test]
fn download_phase_follows_the_job() {
    assert_eq!(download_status_of(&job_ref(), &JobLookup::NotFound), DownloadStatus::NotStarted);
    assert_eq!(
        download_status_of(&job_ref(), &JobLookup::Found { status: None }),
        DownloadStatus::JobCreated { job_ref: job_ref() }
    );
    let failed = JobStatusFacts {
        conditions: Some(vec![job_condition("Failed", "True", Some("disk full"))]),
        active: Some(1),
    };
    assert_eq!(
        download_status_of(&job_ref(), &JobLookup::Found { status: Some(failed) }),
        DownloadStatus::Failed { job_ref: job_ref(), reason: "disk full".into() }
    );
    let done = JobStatusFacts {
        conditions: Some(vec![job_condition("Failed", "True", None), job_condition("Complete", "True", None)]),
        active: None,
    };
    assert_eq!(
        download_status_of(&job_ref(), &JobLookup::Found { status: Some(done) }),
        DownloadStatus::Completed { job_ref: job_ref() }
    );
    let failed_unknown = JobStatusFacts { conditions: Some(vec![job_condition("Failed", "True", None)]), active: None };
    assert_eq!(
        download_status_of(&job_ref(), &JobLookup::Found { status: Some(failed_unknown) }),
        DownloadStatus::Failed { job_ref: job_ref(), reason: "unknown".into() }
    );
    let running = JobStatusFacts { conditions: None, active: Some(2) };
    assert_eq!(
        download_status_of(&job_ref(), &JobLookup::Found { status: Some(running) }),
        DownloadStatus::Running { job_ref: job_ref() }
    );
}

#[test]
fn model_status_reads_conditions_and_readiness() {
    let status = model_status("ai", "qwen3-8b", &kserve_object(), vec!["pod: started".into()]);
    assert!(status.ready);
    assert_eq!(status.conditions.len(), 2);
    assert_eq!(status.conditions[0].reason.as_deref(), Some("AllGood"));
    assert_eq!(status.recent_events, vec!["pod: started".to_owned()]);
    let empty = model_status("ai", "x", &obj(vec![]), vec![]);
    assert!(!empty.ready);
}

#[test]
fn events_logs_and_manifest_names_are_read_plainly() {
    assert_eq!(event_line(Some("pod-1"), Some("pulled")), Some("pod-1: pulled".into()));
    assert_eq!(event_line(None, Some("pulled")), Some("unknown: pulled".into()));
    assert_eq!(event_line(Some("pod-1"), None), None);
    assert_eq!(log_lines("a\r\nb\n\nc"), vec!["a", "b", "", "c"]);
    assert_eq!(log_lines("tail\n"), vec!["tail"]);
    assert!(log_lines("").is_empty());
    assert_eq!(manifest_name(&obj(vec![("metadata", obj(vec![("name", s("m"))]))])), "m");
    assert_eq!(manifest_name(&obj(vec![])), "unknown");
}

#[test]
fn pods_become_active_models_only_when_named() {
    let pod = PodFacts {
        name: Some("qwen".into()),
        namespace: Some("ai".into()),
        labels: Some(vec![("homelab.saavylab.dev/recipe-id".into(), "qwen3-8b".into())]),
        conditions: Some(vec![condition("Ready", "True", None, None)]),
    };
    let model = active_model_from_pod(&pod).unwrap();
    assert_eq!(model.recipe_id.as_deref(), Some("qwen3-8b"));
    assert!(model.ready);
    assert_eq!(model.requested.gpu_count, 1);
    let unnamed = PodFacts { name: None, namespace: Some("ai".into()), labels: Some(vec![]), conditions: None };
    assert!(active_model_from_pod(&unnamed).is_none());
    assert!(!node_is_ready(None));
    assert_eq!(prometheus_query_url("http://prom:9090//"), "http://prom:9090/api/v1/query");
    assert_eq!(capacity_risks(false).len(), 1);
    assert!(capacity_risks(true).is_empty());
}

#[test]
fn download_job_document_is_a_batch_job() {
    let job = build_download_job(&download_spec("Qwen/Qwen3-8B"));
    let text = to_json_text(&job_value(&job));
    assert!(text.starts_with("{\"apiVersion\":\"batch/v1\",\"kind\":\"Job\",\"metadata\":{\"name\":\"download-qwen-qwen3-8b-"));
    assert!(text.contains("\"backoffLimit\":2,\"ttlSecondsAfterFinished\":3600"));
    assert!(text.contains("\"env\":[{\"name\":\"HF_TOKEN\",\"valueFrom\":{\"secretKeyRef\":{\"name\":"));
    assert!(text.contains("\"key\":\"token\"}}}]"));
    assert!(text.contains("\"restartPolicy\":\"Never\""));
    assert!(text.contains("\"homelab.saavylab.dev/purpose\":\"weight-download\""));
    assert!(text.contains("\"command\":[\"sh\",\"-c\"]"));
}
