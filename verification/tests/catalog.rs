use homelab_mcp::catalog::capacity::{
    estimate_fit, ActiveModelCapacity, CapacitySnapshot, FitConfidence, MemoryEvidence,
};
use homelab_mcp::catalog::crds::{
    deployment_parts_to_record, deployment_record_to_spec, deployment_record_to_status,
    recipe_record_to_spec, recipe_spec_to_record,
};
use homelab_mcp::catalog::digest::{compute_plan_digest, plan_to_digest_input};
use homelab_mcp::catalog::planner::{plan_deploy, DeployOverrides};
use homelab_mcp::catalog::policy::validate_plan_policy;
use homelab_mcp::catalog::profile::{ClusterProfile, NodeRole};
use homelab_mcp::catalog::recipe::{
    mark_spark_arena, search_recipes, search_spark_arena_recipes, sort_by_id,
};
use homelab_mcp::catalog::render::{render_inference_service, render_kserve_value};
use homelab_mcp::json::{to_json_text, JsonValue};
use homelab_mcp::catalog::state::{
    DeploymentState, RendererMode, RuntimeDeploymentRecord, RuntimeProfile, RuntimeRecipeRecord,
};
use homelab_mcp::catalog::types::{
    EnvVar, HardwareSpec, IngressPolicy, ModelSpec, Recipe, RecipeSource, ResourceRequests,
    RuntimeEngine, RuntimeSpec, ServingSpec, StorageMode,
};
use homelab_mcp::mcp_core::Provenance;

fn recipe(id: &str, model_id: &str, args: Vec<&str>) -> Recipe {
    Recipe {
        id: id.into(),
        source: RecipeSource::Local,
        model: ModelSpec {
            id: model_id.into(),
            revision: None,
            quantization: None,
            gated: Some(false),
            license: None,
        },
        runtime: RuntimeSpec {
            image: "vllm/vllm-openai:latest".into(),
            engine: RuntimeEngine::Vllm,
            port: None,
            args: args.into_iter().map(str::to_owned).collect(),
            env: vec![],
            tensor_parallel: None,
            max_model_len: None,
            dtype: None,
            tool_call_parser: None,
            reasoning_parser: None,
        },
        hardware: HardwareSpec {
            gpu_class: "gb10".into(),
            gpu_count: 1,
            estimated_vram_gb: Some(16),
            gpu_memory_utilization: None,
        },
        serving: ServingSpec {
            namespace: "ai".into(),
            service_name: None,
            replicas: 1,
            storage_mode: StorageMode::ModelCache,
            ingress_policy: IngressPolicy::ClusterLocal,
        },
        provenance: Provenance {
            source: "local".into(),
            path: Some(format!("{id}.yaml")),
            commit: None,
        },
    }
}

fn qwen3_8b() -> Recipe {
    recipe("qwen3-8b", "Qwen/Qwen3-8B", vec![])
}

fn deepseek_v4_flash() -> Recipe {
    recipe("deepseek-v4-flash", "deepseek-ai/DeepSeek-V4-Flash", vec![])
}

fn lfm25_350m() -> Recipe {
    recipe("lfm25-350m", "LiquidAI/LFM2.5-350M", vec!["--language-model-only"])
}

fn fixtures() -> Vec<Recipe> {
    vec![deepseek_v4_flash(), lfm25_350m(), qwen3_8b()]
}

fn overrides_with_args(args: Vec<&str>) -> DeployOverrides {
    let mut o = DeployOverrides::empty();
    o.runtime_args = args.into_iter().map(str::to_owned).collect();
    o
}

#[test]
fn default_profile_names_superbloom() {
    let profile = ClusterProfile::superbloom_default();
    assert_eq!(profile.cluster_name, "superbloom");
}

#[test]
fn default_profile_has_two_nodes_with_different_model_paths() {
    let profile = ClusterProfile::superbloom_default();
    assert_eq!(profile.nodes.len(), 2);
    let gpu = profile.gpu_node().expect("has GPU node");
    assert_eq!(gpu.model_path.as_deref(), Some("/mnt/nas/models"));
    let nas = profile.nas_node().expect("has NAS node");
    assert_eq!(nas.model_path.as_deref(), Some("/tank/models"));
}

#[test]
fn storage_paths_differ_between_nodes() {
    let profile = ClusterProfile::superbloom_default();
    assert_ne!(profile.model_storage.nas_path, profile.model_storage.gpu_node_path);
}

#[test]
fn hf_secret_is_configured() {
    let profile = ClusterProfile::superbloom_default();
    assert_eq!(profile.model_storage.hf_secret_name, "hf-token");
    assert_eq!(profile.model_storage.hf_secret_namespace, "ai");
}

#[test]
fn spark_profile_is_kserve() {
    let profile = RuntimeProfile::spark_vllm_medium();
    assert_eq!(profile.renderer_mode, RendererMode::Kserve);
}

#[test]
fn spark_profile_allows_vllm_image() {
    let profile = RuntimeProfile::spark_vllm_medium();
    assert!(profile.allowed_images.contains(&"vllm/vllm-openai:latest".to_string()));
}

#[test]
fn spark_profile_allows_model_root() {
    let profile = RuntimeProfile::spark_vllm_medium();
    assert!(profile.allowed_model_roots.contains(&"/mnt/nas/models".to_string()));
}

#[test]
fn spark_profile_max_resources_match() {
    let profile = RuntimeProfile::spark_vllm_medium();
    assert_eq!(profile.max_resources.cpu, "16");
    assert_eq!(profile.max_resources.memory, "96Gi");
    assert_eq!(profile.max_resources.gpu_count, 1);
}

#[test]
fn spark_profile_default_resources_match() {
    let profile = RuntimeProfile::spark_vllm_medium();
    assert_eq!(profile.default_resources.cpu, "2");
    assert_eq!(profile.default_resources.memory, "16Gi");
    assert_eq!(profile.default_resources.gpu_count, 1);
}

fn sample_recipe() -> Recipe {
    Recipe {
        id: "lfm25-350m".into(),
        source: RecipeSource::SparkArena,
        model: ModelSpec {
            id: "LiquidAI/LFM2.5-350M".into(),
            revision: None,
            quantization: None,
            gated: Some(false),
            license: Some("apache-2.0".into()),
        },
        runtime: RuntimeSpec {
            image: "vllm/vllm-openai:latest".into(),
            engine: RuntimeEngine::Vllm,
            port: None,
            args: vec!["--dtype=auto".into()],
            env: vec![],
            tensor_parallel: Some(1),
            max_model_len: Some(32768),
            dtype: Some("auto".into()),
            tool_call_parser: Some("hermes".into()),
            reasoning_parser: None,
        },
        hardware: HardwareSpec {
            gpu_class: "gb10".into(),
            gpu_count: 1,
            estimated_vram_gb: Some(4),
            gpu_memory_utilization: Some("0.8".into()),
        },
        serving: ServingSpec {
            namespace: "ai".into(),
            service_name: Some("lfm25-350m".into()),
            replicas: 1,
            storage_mode: StorageMode::ModelCache,
            ingress_policy: IngressPolicy::ClusterLocal,
        },
        provenance: Provenance {
            source: "spark-arena".into(),
            path: Some("spark-arena-recipes.yaml".into()),
            commit: None,
        },
    }
}

#[test]
fn recipe_record_round_trips_through_spec() {
    let record = RuntimeRecipeRecord {
        recipe: sample_recipe(),
        created_by: "hermes".into(),
        created_at: "2026-06-05T00:00:00Z".into(),
        updated_at: "2026-06-05T00:00:00Z".into(),
    };
    let spec = recipe_record_to_spec(&record);
    assert_eq!(recipe_spec_to_record(&spec), record);
}

#[test]
fn deployment_record_round_trips_through_spec_and_status() {
    let record = RuntimeDeploymentRecord {
        name: "lfm25-350m".into(),
        namespace: "ai".into(),
        recipe_id: "lfm25-350m".into(),
        target: "spark".into(),
        runtime_args: vec!["--max-model-len".into(), "8192".into()],
        runtime_env: vec![],
        resources: ResourceRequests {
            cpu: "2".into(),
            memory: "16Gi".into(),
            gpu_count: 1,
        },
        status: DeploymentState::Applying,
        last_plan_digest: "sha256:test".into(),
        created_by: "hermes".into(),
        created_at: "2026-06-05T00:00:00Z".into(),
        failure_reason: None,
    };
    let spec = deployment_record_to_spec(&record);
    let status = deployment_record_to_status(&record);
    assert_eq!(deployment_parts_to_record(&spec, Some(&status)), record);
}

#[test]
fn valid_recipe_creates_plan_with_digest() {
    let result = plan_deploy(&qwen3_8b(), &ClusterProfile::superbloom_default(), DeployOverrides::empty());
    assert!(result.issues.is_empty());
    assert_eq!(result.data.name, "qwen3-8b");
    assert!(!result.data.plan_digest.is_empty());
    assert!(result.summary.text.contains("fits cluster superbloom"));
}

#[test]
fn invalid_gpu_class_returns_field_path_and_allowed() {
    let mut profile = ClusterProfile::superbloom_default();
    if let Some(gpu_node) = profile
        .nodes
        .iter_mut()
        .find(|n| n.roles.contains(&NodeRole::GpuWorker))
    {
        gpu_node.gpu_product = None;
    }
    let result = plan_deploy(&qwen3_8b(), &profile, DeployOverrides::empty());
    assert_eq!(result.issues[0].field, "hardware.gpu_class");
}

#[test]
fn plan_deploy_merges_runtime_args_and_env_overrides() {
    let result = plan_deploy(
        &deepseek_v4_flash(),
        &ClusterProfile::superbloom_default(),
        DeployOverrides {
            name: None,
            namespace: None,
            replicas: None,
            runtime_args: vec![
                "--kv-cache-dtype".into(),
                "fp8".into(),
                "--tool-call-parser".into(),
                "hermes".into(),
            ],
            runtime_env: vec![EnvVar {
                name: "VLLM_TEST".into(),
                value: "enabled".into(),
            }],
            env_overrides: Vec::new(),
            resource_requests: Some(ResourceRequests {
                cpu: "4".into(),
                memory: "32Gi".into(),
                gpu_count: 1,
            }),
            readiness_timeout_seconds: Some(1200),
        },
    );
    assert!(result.data.runtime_args.contains(&"--kv-cache-dtype".into()));
    assert!(result.data.runtime_args.contains(&"fp8".into()));
    assert!(result
        .data
        .runtime_env
        .iter()
        .any(|item| item.name == "VLLM_TEST" && item.value == "enabled"));
    assert_eq!(result.data.resource_requests.memory, "32Gi");
    assert_eq!(result.data.readiness_timeout_seconds, 1200);
}

#[test]
fn gpu_override_exceeds_max_per_pod_returns_issue() {
    let mut overrides = DeployOverrides::empty();
    overrides.resource_requests = Some(ResourceRequests {
        cpu: "2".into(),
        memory: "16Gi".into(),
        gpu_count: 2,
    });
    let result = plan_deploy(&qwen3_8b(), &ClusterProfile::superbloom_default(), overrides);
    assert_eq!(result.issues.len(), 1);
    assert_eq!(result.issues[0].field, "resource_requests.gpu_count");
    assert!(result.issues[0].message.contains("cluster permits 1 GPU(s) per pod"));
}

fn policy_issues(recipe: &Recipe, args: Vec<&str>) -> Vec<(String, String)> {
    let profile = ClusterProfile::superbloom_default();
    let mut plan = plan_deploy(recipe, &profile, DeployOverrides::empty()).data;
    plan.runtime_args = args.into_iter().map(str::to_owned).collect();
    validate_plan_policy(recipe, &profile, &plan)
        .into_iter()
        .map(|issue| (issue.field, issue.message))
        .collect()
}

#[test]
fn rejects_auto_tool_choice_without_parser() {
    let issues = policy_issues(&deepseek_v4_flash(), vec!["--enable-auto-tool-choice", "--kv-cache-dtype=fp8"]);
    assert!(issues
        .iter()
        .any(|(field, message)| field == "runtime.args" && message.contains("requires --tool-call-parser")));
}

#[test]
fn rejects_deepseek_without_fp8_kv_cache() {
    let issues = policy_issues(&deepseek_v4_flash(), vec!["--tool-call-parser=hermes"]);
    assert!(issues
        .iter()
        .any(|(field, message)| field == "runtime.args" && message.contains("requires fp8 KV cache")));
}

#[test]
fn accepts_deepseek_with_fp8_and_parser() {
    let issues = policy_issues(
        &deepseek_v4_flash(),
        vec!["--enable-auto-tool-choice", "--tool-call-parser", "hermes", "--kv-cache-dtype", "fp8"],
    );
    assert!(issues.is_empty());
}

#[test]
fn accepts_split_form_tool_call_parser() {
    let issues = policy_issues(
        &deepseek_v4_flash(),
        vec!["--enable-auto-tool-choice", "--tool-call-parser", "hermes", "--kv-cache-dtype=fp8"],
    );
    assert!(issues.is_empty(), "expected no issues, got: {:?}", issues);
}

#[test]
fn accepts_split_form_kv_cache_dtype() {
    let issues = policy_issues(&deepseek_v4_flash(), vec!["--tool-call-parser=hermes", "--kv-cache-dtype", "fp8"]);
    assert!(issues.is_empty(), "expected no issues, got: {:?}", issues);
}

#[test]
fn rejects_gpu_count_exceeding_profile_max() {
    let recipe = qwen3_8b();
    let profile = ClusterProfile::superbloom_default();
    let mut plan = plan_deploy(&recipe, &profile, DeployOverrides::empty()).data;
    plan.resource_requests.gpu_count = 4;
    let issues = validate_plan_policy(&recipe, &profile, &plan);
    assert!(issues.iter().any(|issue| {
        issue.field == "resource_requests.gpu_count" && issue.message.contains("profile permits 1 per pod")
    }));
}

#[test]
fn rejects_model_path_outside_approved_root() {
    let recipe = qwen3_8b();
    let profile = ClusterProfile::superbloom_default();
    let mut plan = plan_deploy(&recipe, &profile, DeployOverrides::empty()).data;
    plan.model_path = "/tmp/models/Qwen/Qwen3-8B".into();
    let issues = validate_plan_policy(&recipe, &profile, &plan);
    assert!(issues
        .iter()
        .any(|issue| issue.field == "model_path" && issue.message.contains("outside approved root")));
}

#[test]
fn digest_excludes_itself() {
    let plan = plan_deploy(&qwen3_8b(), &ClusterProfile::superbloom_default(), DeployOverrides::empty()).data;
    let input = plan_to_digest_input(&plan);
    assert!(!input.contains("plan_digest"));
}

#[test]
fn same_plan_produces_same_digest() {
    let plan = plan_deploy(&qwen3_8b(), &ClusterProfile::superbloom_default(), DeployOverrides::empty()).data;
    assert_eq!(plan.plan_digest, compute_plan_digest(&plan));
}

#[test]
fn renders_inferenceservice_yaml_with_plan_digest() {
    let plan = plan_deploy(&qwen3_8b(), &ClusterProfile::superbloom_default(), DeployOverrides::empty()).data;
    let manifest = render_inference_service(&plan);
    assert_eq!(manifest.kind, "InferenceService");
    assert!(manifest
        .labels
        .iter()
        .any(|l| l.key == "app.kubernetes.io/managed-by" && l.value == "homelab-mcp"));
    assert!(manifest.labels.iter().any(|l| l.key == "homelab.saavylab.dev/plan-digest"));
}

#[test]
fn renders_runtime_args_from_plan() {
    let plan = plan_deploy(
        &deepseek_v4_flash(),
        &ClusterProfile::superbloom_default(),
        overrides_with_args(vec!["--kv-cache-dtype", "fp8"]),
    )
    .data;
    let args = render_inference_service(&plan).args;
    assert!(args.iter().any(|arg| arg == "--kv-cache-dtype"));
    assert!(args.iter().any(|arg| arg == "fp8"));
}

#[test]
fn renders_gpu_tolerations_with_required_value() {
    let plan = plan_deploy(&qwen3_8b(), &ClusterProfile::superbloom_default(), DeployOverrides::empty()).data;
    let tolerations = render_inference_service(&plan).tolerations;
    for effect in ["NoSchedule", "NoExecute"] {
        assert!(tolerations.iter().any(|tol| tol.key == "nvidia.com/gpu"
            && tol.operator == "Equal"
            && tol.value == "true"
            && tol.effect == effect));
    }
}

#[test]
fn split_form_managed_args_are_filtered_with_defaults() {
    let plan = plan_deploy(
        &qwen3_8b(),
        &ClusterProfile::superbloom_default(),
        overrides_with_args(vec!["--port", "9001", "--host", "127.0.0.1"]),
    )
    .data;
    let args = render_inference_service(&plan).args;
    let arg_strs: Vec<&str> = args.iter().map(String::as_str).collect();
    assert!(!arg_strs.contains(&"--port"));
    assert!(!arg_strs.contains(&"9001"));
    assert!(!arg_strs.contains(&"--host"));
    assert!(!arg_strs.contains(&"127.0.0.1"));
    assert!(arg_strs.contains(&"--host=0.0.0.0"));
    assert!(arg_strs.contains(&"--port=8080"));
}

#[test]
fn split_form_managed_arg_followed_by_flag_preserves_flag() {
    let plan = plan_deploy(
        &qwen3_8b(),
        &ClusterProfile::superbloom_default(),
        overrides_with_args(vec!["--port", "--enable-auto-tool-choice"]),
    )
    .data;
    let args = render_inference_service(&plan).args;
    let arg_strs: Vec<&str> = args.iter().map(String::as_str).collect();
    assert!(!arg_strs.contains(&"--port"));
    assert!(arg_strs.contains(&"--enable-auto-tool-choice"));
    assert!(arg_strs.contains(&"--port=8080"));
}

#[test]
fn distinct_flags_with_same_value_remain_intact() {
    let plan = plan_deploy(
        &qwen3_8b(),
        &ClusterProfile::superbloom_default(),
        overrides_with_args(vec!["--foo", "same", "--bar", "same"]),
    )
    .data;
    let args = render_inference_service(&plan).args;
    let arg_strs: Vec<&str> = args.iter().map(String::as_str).collect();
    let foo_idx = arg_strs.iter().position(|&a| a == "--foo").expect("--foo present");
    let bar_idx = arg_strs.iter().position(|&a| a == "--bar").expect("--bar present");
    assert!(foo_idx < bar_idx, "--foo must appear before --bar");
    assert_eq!(arg_strs[foo_idx + 1], "same");
    assert_eq!(arg_strs[bar_idx + 1], "same");
    assert_eq!(arg_strs.iter().filter(|&&a| a == "same").count(), 2);
}

#[test]
fn sglang_renders_serve_command_and_model_path() {
    let mut recipe = recipe("sglang-test", "test/model", vec!["--flashinfer", "--kv-cache-dtype=fp8"]);
    recipe.runtime.image = "sglang/sglang:latest".into();
    recipe.runtime.engine = RuntimeEngine::Sglang;
    recipe.serving.storage_mode = StorageMode::Ephemeral;
    recipe.model.gated = None;
    recipe.hardware.estimated_vram_gb = None;
    let plan = plan_deploy(&recipe, &ClusterProfile::superbloom_default(), DeployOverrides::empty()).data;
    let manifest = render_inference_service(&plan);
    assert_eq!(manifest.command, vec!["sglang".to_owned(), "serve".to_owned()]);
    let args: Vec<&str> = manifest.args.iter().map(String::as_str).collect();
    assert!(args.iter().any(|a| a.starts_with("--model-path=")), "args must contain --model-path");
    assert!(!args.iter().any(|a| a.starts_with("--model=")), "args must not contain --model=");
    assert!(!args.iter().any(|a| a.starts_with("--served-model-name=")));
    assert!(args.contains(&"--flashinfer"));
}

#[test]
fn searches_by_model_id_case_insensitively() {
    let recipes = [deepseek_v4_flash()].to_vec();
    let results = search_recipes(&recipes, Some("deepseek"));
    assert_eq!(results.len(), 1);
}

#[test]
fn search_matches_ids_and_keeps_catalog_order() {
    let recipes = fixtures();
    let ids: Vec<&str> = search_recipes(&recipes, Some("QWEN")).iter().map(|r| r.id.as_str()).collect();
    assert_eq!(ids, vec!["qwen3-8b"]);
    assert_eq!(search_recipes(&recipes, None).len(), 3);
    assert!(search_recipes(&recipes, Some("mistral")).is_empty());
}

#[test]
fn search_result_exposes_required_args() {
    let results = search_spark_arena_recipes(&vec![lfm25_350m()], Some("lfm"));
    assert_eq!(results.len(), 1);
    assert!(results[0].required_args.contains(&"--language-model-only".into()));
}

#[test]
fn load_spark_arena_forces_source() {
    let recipes = mark_spark_arena(fixtures());
    let recipe = recipes.iter().find(|r| r.id == "lfm25-350m").expect("lfm25-350m loaded");
    assert_eq!(recipe.source, RecipeSource::SparkArena);
    assert!(recipes.iter().all(|r| r.source == RecipeSource::SparkArena));
}

#[test]
fn search_spark_arena_returns_empty_for_no_match() {
    let recipes = mark_spark_arena(fixtures());
    let results = search_spark_arena_recipes(&recipes, Some("nonexistent-model"));
    assert!(results.is_empty());
}

#[test]
fn search_spark_arena_returns_all_when_no_query() {
    let recipes = mark_spark_arena(fixtures());
    let results = search_spark_arena_recipes(&recipes, None);
    assert!(!results.is_empty());
    assert_eq!(results.len(), 3);
}

#[test]
fn catalog_is_ordered_by_id_and_stable() {
    let mut second_qwen = qwen3_8b();
    second_qwen.model.id = "Qwen/Qwen3-8B-copy".into();
    let sorted = sort_by_id(vec![qwen3_8b(), lfm25_350m(), second_qwen, deepseek_v4_flash()]);
    let ids: Vec<&str> = sorted.iter().map(|r| r.id.as_str()).collect();
    assert_eq!(ids, vec!["deepseek-v4-flash", "lfm25-350m", "qwen3-8b", "qwen3-8b"]);
    assert_eq!(sorted[2].model.id, "Qwen/Qwen3-8B");
    assert_eq!(sorted[3].model.id, "Qwen/Qwen3-8B-copy");
}

fn snapshot(node_ready: bool, active: Vec<u32>, total_observed: bool, risks: Vec<&str>) -> CapacitySnapshot {
    CapacitySnapshot {
        target: "spark".into(),
        node_ready,
        active_models: active
            .into_iter()
            .map(|gpu_count| ActiveModelCapacity {
                name: "existing-model".into(),
                namespace: "default".into(),
                recipe_id: Some("qwen3-8b".into()),
                requested: ResourceRequests {
                    cpu: "2".into(),
                    memory: "16Gi".into(),
                    gpu_count,
                },
                ready: true,
            })
            .collect(),
        gpu_memory_total_observed: total_observed,
        risks: risks.into_iter().map(str::to_owned).collect(),
    }
}

fn requests(memory: &str) -> ResourceRequests {
    ResourceRequests { cpu: "2".into(), memory: memory.into(), gpu_count: 1 }
}

#[test]
fn fit_fails_when_node_not_ready() {
    let fit = estimate_fit(&snapshot(false, vec![], false, vec![]), requests("16Gi"), MemoryEvidence::Unobserved);
    assert!(!fit.fits);
    assert!(fit.risks.contains(&"target node is not Ready".into()));
}

#[test]
fn fit_confidence_is_medium_when_gpu_memory_total_observed() {
    // Total GPU memory of 24 GB is observed, used memory is not.
    let fit = estimate_fit(&snapshot(true, vec![], true, vec![]), requests("16Gi"), MemoryEvidence::Unobserved);
    assert!(fit.fits);
    assert_eq!(fit.confidence, FitConfidence::Medium);
}

#[test]
fn fit_confidence_is_low_when_no_gpu_memory_total() {
    let fit = estimate_fit(&snapshot(true, vec![], false, vec![]), requests("16Gi"), MemoryEvidence::Unobserved);
    assert_eq!(fit.confidence, FitConfidence::Low);
}

#[test]
fn fit_mode_is_single_model_when_no_active_workload() {
    let fit = estimate_fit(&snapshot(true, vec![], false, vec![]), requests("16Gi"), MemoryEvidence::Unobserved);
    assert_eq!(fit.mode, "single-model");
}

#[test]
fn fit_mode_is_colocate_when_active_gpu_workload_present() {
    let fit = estimate_fit(&snapshot(true, vec![1], false, vec![]), requests("16Gi"), MemoryEvidence::Unobserved);
    assert_eq!(fit.mode, "co-locate-small-model");
}

#[test]
fn fit_preserves_report_risks() {
    let fit = estimate_fit(
        &snapshot(true, vec![], false, vec!["high temperature warning"]),
        requests("16Gi"),
        MemoryEvidence::Unobserved,
    );
    assert!(fit.risks.contains(&"high temperature warning".into()));
}

#[test]
fn fit_includes_requested_resources_as_recommended() {
    let requested = ResourceRequests { cpu: "4".into(), memory: "32Gi".into(), gpu_count: 1 };
    let fit = estimate_fit(&snapshot(true, vec![], false, vec![]), requested.clone(), MemoryEvidence::Unobserved);
    assert_eq!(fit.recommended_resources, requested);
}

#[test]
fn integer_gpu_count_is_conservative_for_colocation() {
    // Simple sum: 1 (active) + 1 (requested) > 1 (capacity).
    let fit = estimate_fit(&snapshot(true, vec![1], false, vec![]), requests("16Gi"), MemoryEvidence::Unobserved);
    assert!(!fit.fits);
}

#[test]
fn second_small_model_fits_when_free_gpu_memory_is_enough() {
    // 24 GB total, 8 GB used: 16 GB free covers the 8Gi request.
    let fit = estimate_fit(
        &snapshot(true, vec![1], true, vec![]),
        requests("8Gi"),
        MemoryEvidence::Request { covers: true },
    );
    assert!(fit.fits);
    assert_eq!(fit.mode, "co-locate-small-model");
}

#[test]
fn memory_pressure_makes_fit_false() {
    // 24 GB total, 20 GB used: 4 GB free does not cover the 8Gi request.
    let fit = estimate_fit(
        &snapshot(true, vec![1], true, vec![]),
        requests("8Gi"),
        MemoryEvidence::Request { covers: false },
    );
    assert!(!fit.fits);
}

#[test]
fn unparseable_memory_adds_risk() {
    let fit = estimate_fit(&snapshot(true, vec![], true, vec![]), requests("invalid"), MemoryEvidence::Unreadable);
    assert!(!fit.fits);
    assert!(fit.risks.iter().any(|r| r.contains("cannot be parsed")));
    assert!(fit.risks.contains(&"requested memory 'invalid' cannot be parsed for fit check".into()));
}

#[test]
fn large_estimated_vram_exceeds_free_gpu_memory() {
    // 24 GB free against an estimated 96 GiB.
    let fit = estimate_fit(&snapshot(true, vec![], true, vec![]), requests("16Gi"), MemoryEvidence::Vram { covers: false });
    assert!(!fit.fits);
}

#[test]
fn estimated_vram_fits_when_free_gpu_memory_enough() {
    // 24 GB free against an estimated 8 GiB.
    let fit = estimate_fit(&snapshot(true, vec![], true, vec![]), requests("16Gi"), MemoryEvidence::Vram { covers: true });
    assert!(fit.fits);
    assert!(fit.risks.is_empty());
}

#[test]
fn fallback_to_requested_memory_adds_proxy_risk() {
    // 24 GB free against the 16Gi request, with no VRAM estimate.
    let fit = estimate_fit(&snapshot(true, vec![], true, vec![]), requests("16Gi"), MemoryEvidence::Request { covers: true });
    assert!(fit.fits);
    assert!(fit.risks.iter().any(|r| r.contains("Kubernetes memory request as GPU-memory proxy")));
}

#[test]
fn multi_gpu_requests_never_fit() {
    let mut two = requests("16Gi");
    two.gpu_count = 2;
    let fit = estimate_fit(&snapshot(true, vec![], true, vec![]), two, MemoryEvidence::Vram { covers: true });
    assert!(!fit.fits);
}

#[test]
fn full_gpu_count_on_node_still_estimates_with_observed_memory() {
    // Only the requests-only branch adds the request to the GPUs in use.
    let fit = estimate_fit(
        &snapshot(true, vec![u32::MAX], true, vec![]),
        requests("16Gi"),
        MemoryEvidence::Vram { covers: true },
    );
    assert!(fit.fits);
    assert_eq!(fit.mode, "co-locate-small-model");
    let fit = estimate_fit(&snapshot(false, vec![u32::MAX], false, vec![]), requests("16Gi"), MemoryEvidence::Unobserved);
    assert!(!fit.fits);
}

fn member<'a>(v: &'a JsonValue, key: &str) -> &'a JsonValue {
    match v {
        JsonValue::Object(ms) => &ms.iter().find(|(k, _)| k == key).expect("member present").1,
        other => panic!("not an object: {other:?}"),
    }
}

#[test]
fn kserve_document_places_every_manifest_field() {
    let plan = plan_deploy(
        &qwen3_8b(),
        &ClusterProfile::superbloom_default(),
        overrides_with_args(vec!["--foo", "same", "--bar", "same"]),
    )
    .data;
    let doc = render_kserve_value(&plan);
    let text = to_json_text(&doc);
    assert!(text.starts_with("{\"apiVersion\":\"serving.kserve.io/v1beta1\",\"kind\":\"InferenceService\""));
    let container = match member(member(member(&doc, "spec"), "predictor"), "containers") {
        JsonValue::Array(items) => &items[0],
        other => panic!("unexpected {other:?}"),
    };
    let args: Vec<String> = match member(container, "args") {
        JsonValue::Array(items) => items
            .iter()
            .map(|a| match a {
                JsonValue::Str(s) => s.clone(),
                other => panic!("unexpected {other:?}"),
            })
            .collect(),
        other => panic!("unexpected {other:?}"),
    };
    let foo = args.iter().position(|a| a == "--foo").expect("--foo present");
    let bar = args.iter().position(|a| a == "--bar").expect("--bar present");
    assert!(foo < bar);
    assert_eq!(args[foo + 1], "same");
    assert_eq!(args[bar + 1], "same");
    assert!(text.contains("\"readOnly\":true"));
    assert!(text.contains("\"nodeSelector\":{\"nvidia.com/gpu.product\":\"NVIDIA-GB10\"}"));
    assert!(text.contains("\"tolerations\":[{\"key\":\"nvidia.com/gpu\",\"operator\":\"Equal\",\"value\":\"true\",\"effect\":\"NoSchedule\"}"));
    let labels = member(member(&doc, "metadata"), "labels");
    match member(labels, "homelab.saavylab.dev/plan-digest") {
        JsonValue::Str(s) => assert_eq!(s.as_str(), &plan.plan_digest[..63]),
        other => panic!("unexpected {other:?}"),
    }
}

fn container_args(doc: &JsonValue) -> Vec<String> {
    let container = match member(member(member(doc, "spec"), "predictor"), "containers") {
        JsonValue::Array(items) => &items[0],
        other => panic!("unexpected {other:?}"),
    };
    match member(container, "args") {
        JsonValue::Array(items) => items
            .iter()
            .map(|a| match a {
                JsonValue::Str(s) => s.clone(),
                other => panic!("unexpected {other:?}"),
            })
            .collect(),
        other => panic!("unexpected {other:?}"),
    }
}

#[test]
fn sglang_managed_port_override_is_filtered() {
    let mut sglang = recipe("sglang-test", "test/model", vec!["--port", "9999", "--flashinfer"]);
    sglang.runtime.image = "sglang/sglang:latest".into();
    sglang.runtime.engine = RuntimeEngine::Sglang;
    sglang.model.gated = None;
    sglang.hardware.estimated_vram_gb = None;
    sglang.serving.storage_mode = StorageMode::Ephemeral;
    sglang.provenance.path = None;
    let plan = plan_deploy(&sglang, &ClusterProfile::superbloom_default(), DeployOverrides::empty()).data;
    let args = container_args(&render_kserve_value(&plan));
    let args: Vec<&str> = args.iter().map(String::as_str).collect();
    assert!(!args.contains(&"--port"));
    assert!(!args.contains(&"9999"));
    assert!(args.contains(&"--port=8000"));
    assert!(args.contains(&"--flashinfer"));
}

#[test]
fn explicit_port_is_honored_in_vllm_rendering() {
    let mut explicit = recipe("explicit-port", "test/model", vec![]);
    explicit.runtime.port = Some(9090);
    explicit.model.gated = None;
    explicit.hardware.estimated_vram_gb = None;
    explicit.serving.storage_mode = StorageMode::Ephemeral;
    explicit.provenance.path = None;
    let plan = plan_deploy(&explicit, &ClusterProfile::superbloom_default(), DeployOverrides::empty()).data;
    let doc = render_kserve_value(&plan);
    let args = container_args(&doc);
    assert!(args.iter().any(|a| a == "--port=9090"));
    let container = match member(member(member(&doc, "spec"), "predictor"), "containers") {
        JsonValue::Array(items) => &items[0],
        other => panic!("unexpected {other:?}"),
    };
    match member(container, "ports") {
        JsonValue::Array(ports) => match member(&ports[0], "containerPort") {
            JsonValue::Int(p) => assert_eq!(*p, 9090),
            other => panic!("unexpected {other:?}"),
        },
        other => panic!("unexpected {other:?}"),
    }
}
