//! The KServe `InferenceService` a plan is rendered to.
//!
//! The manifest is built as a typed value; every field of the resulting
//! resource, including its fixed parts, stands in it.
use crate::catalog::planner::{merge_env, merged_env};
use crate::catalog::types::{DeploymentPlan, EnvVar, EnvVarView, PlanView, RuntimeEngine};
use crate::json::{array_of, json_view, object_of, text_member, JsonValue, JsonView};
use crate::mcp_core::{label_value_spec, sanitize_label_value};
use crate::text::{char_in, decimal, has_prefix, starts_with, str_eq, u64_to_decimal};
use vstd::prelude::*;
use vstd::utf8::{encode_utf8, is_char_boundary};

verus! {

#[derive(Clone, Debug, PartialEq, Eq)]
pub struct KeyValue {
    pub key: String,
    pub value: String,
}

impl View for KeyValue {
    type V = (Seq<char>, Seq<char>);

    open spec fn view(&self) -> (Seq<char>, Seq<char>) {
        (self.key@, self.value@)
    }
}

impl DeepView for KeyValue {
    type V = (Seq<char>, Seq<char>);

    open spec fn deep_view(&self) -> (Seq<char>, Seq<char>) {
        self@
    }
}

#[derive(Clone, Debug, PartialEq, Eq)]
pub struct Toleration {
    pub key: String,
    pub operator: String,
    pub value: String,
    pub effect: String,
}

impl View for Toleration {
    type V = (Seq<char>, Seq<char>, Seq<char>, Seq<char>);

    open spec fn view(&self) -> (Seq<char>, Seq<char>, Seq<char>, Seq<char>) {
        (self.key@, self.operator@, self.value@, self.effect@)
    }
}

impl DeepView for Toleration {
    type V = (Seq<char>, Seq<char>, Seq<char>, Seq<char>);

    open spec fn deep_view(&self) -> (Seq<char>, Seq<char>, Seq<char>, Seq<char>) {
        self@
    }
}

/// A KServe `InferenceService` with one predictor container that reads the
/// model from a read-only host-path mount of the NAS.
#[derive(Clone, Debug, PartialEq, Eq)]
pub struct InferenceServiceManifest {
    pub api_version: String,
    pub kind: String,
    pub name: String,
    pub namespace: String,
    pub labels: Vec<KeyValue>,
    pub annotations: Vec<KeyValue>,
    pub min_replicas: u32,
    pub max_replicas: u32,
    pub container_name: String,
    pub image: String,
    pub command: Vec<String>,
    pub args: Vec<String>,
    pub env: Vec<EnvVar>,
    pub container_port: u16,
    pub port_name: String,
    pub port_protocol: String,
    pub cpu: String,
    pub memory: String,
    pub gpu_count: String,
    pub volume_name: String,
    pub mount_path: String,
    pub read_only: bool,
    pub host_path_type: String,
    pub tolerations: Vec<Toleration>,
    pub node_selector: Vec<KeyValue>,
}

// ---------------------------------------------------------------------------
// Server-managed arguments
// ---------------------------------------------------------------------------

pub open spec fn is_vllm_server_managed(a: Seq<char>) -> bool {
    a == "--host"@ || a == "--port"@ || a == "--model"@ || a == "--served-model-name"@ || has_prefix(
        a,
        "--host="@,
    ) || has_prefix(a, "--port="@) || has_prefix(a, "--model="@) || has_prefix(a, "--served-model-name="@)
}

pub open spec fn is_sglang_server_managed(a: Seq<char>) -> bool {
    a == "--host"@ || a == "--port"@ || a == "--model-path"@ || has_prefix(a, "--host="@) || has_prefix(
        a,
        "--port="@,
    ) || has_prefix(a, "--model-path="@)
}

pub open spec fn is_server_managed(engine: RuntimeEngine, a: Seq<char>) -> bool {
    match engine {
        RuntimeEngine::Vllm => is_vllm_server_managed(a),
        RuntimeEngine::Sglang => is_sglang_server_managed(a),
    }
}

/// A managed flag at `i` written as a separate word takes the next word as its
/// value unless that word is itself a flag.
pub open spec fn takes_value(args: Seq<Seq<char>>, i: int) -> bool {
    !args[i].contains('=') && i + 1 < args.len() && !has_prefix(args[i + 1], "--"@)
}

/// The arguments from position `i` on that the server does not manage.
pub open spec fn kept_args(engine: RuntimeEngine, args: Seq<Seq<char>>, i: int) -> Seq<Seq<char>>
    decreases args.len() - i,
{
    if i < 0 || i >= args.len() {
        Seq::empty()
    } else if is_server_managed(engine, args[i]) {
        kept_args(engine, args, i + if takes_value(args, i) { 2int } else { 1int })
    } else {
        seq![args[i]] + kept_args(engine, args, i + 1)
    }
}

pub open spec fn rendered_args(p: PlanView) -> Seq<Seq<char>> {
    let port = "--port="@ + decimal(p.runtime_port as nat);
    match p.runtime_engine {
        RuntimeEngine::Vllm => seq![
            "--model="@ + p.model_path,
            "--served-model-name="@ + p.name,
            "--host=0.0.0.0"@,
            port,
        ] + kept_args(RuntimeEngine::Vllm, p.runtime_args, 0),
        RuntimeEngine::Sglang => seq!["--model-path="@ + p.model_path, "--host=0.0.0.0"@, port]
            + kept_args(RuntimeEngine::Sglang, p.runtime_args, 0),
    }
}

pub open spec fn rendered_command(e: RuntimeEngine) -> Seq<Seq<char>> {
    match e {
        RuntimeEngine::Vllm => seq!["python3"@, "-m"@, "vllm.entrypoints.openai.api_server"@],
        RuntimeEngine::Sglang => seq!["sglang"@, "serve"@],
    }
}

pub open spec fn offline_env() -> Seq<EnvVarView> {
    seq![
        EnvVarView { name: "HF_HUB_OFFLINE"@, value: "1"@ },
        EnvVarView { name: "TRANSFORMERS_OFFLINE"@, value: "1"@ },
    ]
}

pub open spec fn rendered_env(p: PlanView) -> Seq<EnvVarView> {
    merged_env(offline_env(), p.runtime_env + p.env_overrides)
}

// ---------------------------------------------------------------------------
// Mount path
// ---------------------------------------------------------------------------

/// Index of the last `/` in `s`, or -1.
pub open spec fn last_slash(s: Seq<char>) -> int
    decreases s.len(),
{
    if s.len() == 0 {
        -1
    } else if s.last() == '/' {
        s.len() - 1
    } else {
        last_slash(s.drop_last())
    }
}

/// The NAS mount point of a model path: everything before its last two `/`
/// separated segments (`/mnt/nas/models/Org/Model` gives `/mnt/nas/models`).
pub open spec fn mount_path_of(p: Seq<char>) -> Seq<char> {
    let a = last_slash(p);
    let q = p.subrange(0, a);
    let b = last_slash(q);
    if b < 0 {
        Seq::empty()
    } else {
        q.subrange(0, b)
    }
}

pub proof fn lemma_last_slash(s: Seq<char>)
    ensures
        -1 <= last_slash(s) < s.len(),
        last_slash(s) >= 0 ==> s[last_slash(s)] == '/',
        forall|j: int| last_slash(s) < j < s.len() ==> s[j] != '/',
        s.contains('/') ==> last_slash(s) >= 0,
    decreases s.len(),
{
    if s.len() > 0 && s.last() != '/' {
        lemma_last_slash(s.drop_last());
        assert forall|j: int| last_slash(s) < j < s.len() implies s[j] != '/' by {
            if j < s.len() - 1 {
                assert(s[j] == s.drop_last()[j]);
            }
        }
        if s.contains('/') {
            let k = choose|k: int| 0 <= k < s.len() && s[k] == '/';
            assert(s.drop_last()[k] == '/');
        }
    }
}

fn last_slash_in(s: &str, end: usize) -> (r: Option<usize>)
    requires
        end <= s@.len(),
    ensures
        match r {
            Some(k) => k as int == last_slash(s@.subrange(0, end as int)),
            None => last_slash(s@.subrange(0, end as int)) == -1,
        },
{
    let mut j: usize = end;
    while j > 0
        invariant
            j <= end <= s@.len(),
            last_slash(s@.subrange(0, end as int)) == last_slash(s@.subrange(0, j as int)),
        decreases j,
    {
        let c = s.get_char(j - 1);
        if c == '/' {
            return Some(j - 1);
        }
        assert(s@.subrange(0, j - 1) =~= s@.subrange(0, j as int).drop_last());
        j -= 1;
    }
    None
}

fn mount_path(model_path: &str) -> (r: String)
    requires
        model_path@.contains('/'),
    ensures
        r@ == mount_path_of(model_path@),
{
    let n = model_path.unicode_len();
    proof {
        lemma_last_slash(model_path@);
        assert(model_path@.subrange(0, n as int) =~= model_path@);
    }
    let a = match last_slash_in(model_path, n) {
        Some(a) => a,
        None => {
            return String::new();
        },
    };
    proof {
        lemma_last_slash(model_path@.subrange(0, a as int));
        assert(model_path@.subrange(0, a as int).subrange(0, a as int) =~= model_path@.subrange(0, a as int));
    }
    match last_slash_in(model_path, a) {
        Some(b) => {
            let piece = model_path.substring_char(0, b);
            assert(model_path@.subrange(0, a as int).subrange(0, b as int) =~= model_path@.subrange(0, b as int));
            piece.to_owned()
        },
        None => String::new(),
    }
}

// ---------------------------------------------------------------------------
// Rendering
// ---------------------------------------------------------------------------

fn is_vllm_server_managed_arg(arg: &str) -> (r: bool)
    ensures
        r == is_vllm_server_managed(arg@),
{
    str_eq(arg, "--host") || str_eq(arg, "--port") || str_eq(arg, "--model") || str_eq(
        arg,
        "--served-model-name",
    ) || starts_with(arg, "--host=") || starts_with(arg, "--port=") || starts_with(arg, "--model=")
        || starts_with(arg, "--served-model-name=")
}

fn is_sglang_server_managed_arg(arg: &str) -> (r: bool)
    ensures
        r == is_sglang_server_managed(arg@),
{
    str_eq(arg, "--host") || str_eq(arg, "--port") || str_eq(arg, "--model-path") || starts_with(
        arg,
        "--host=",
    ) || starts_with(arg, "--port=") || starts_with(arg, "--model-path=")
}

fn is_managed(engine: RuntimeEngine, a: &str) -> (r: bool)
    ensures
        r == is_server_managed(engine, a@),
{
    match engine {
        RuntimeEngine::Vllm => is_vllm_server_managed_arg(a),
        RuntimeEngine::Sglang => is_sglang_server_managed_arg(a),
    }
}

proof fn lemma_kept_step(engine: RuntimeEngine, args: Seq<Seq<char>>, i: int)
    requires
        0 <= i < args.len(),
    ensures
        kept_args(engine, args, i) == if is_server_managed(engine, args[i]) {
            kept_args(engine, args, i + if takes_value(args, i) { 2int } else { 1int })
        } else {
            seq![args[i]] + kept_args(engine, args, i + 1)
        },
{
}

/// Appends the caller's arguments that the server does not manage.
fn append_kept_args(out: &mut Vec<String>, engine: RuntimeEngine, runtime_args: &Vec<String>)
    ensures
        final(out).deep_view() == old(out).deep_view() + kept_args(engine, runtime_args.deep_view(), 0),
{
    let ghost a = runtime_args.deep_view();
    let ghost target = out.deep_view() + kept_args(engine, a, 0);
    let mut i: usize = 0;
    while i < runtime_args.len()
        invariant
            a == runtime_args.deep_view(),
            i <= runtime_args@.len(),
            target == out.deep_view() + kept_args(engine, a, i as int),
        decreases runtime_args.len() - i,
    {
        let arg = &runtime_args[i];
        proof {
            lemma_kept_step(engine, a, i as int);
        }
        if is_managed(engine, arg.as_str()) {
            if !char_in(arg.as_str(), '=') && runtime_args.len() - i > 1 && !starts_with(
                runtime_args[i + 1].as_str(),
                "--",
            ) {
                i += 1;
            }
            i += 1;
            if i > runtime_args.len() {
                i = runtime_args.len();
            }
        } else {
            let ghost before = out.deep_view();
            out.push(arg.clone());
            assert(out.deep_view() =~= before.push(a[i as int]));
            assert(target =~= out.deep_view() + kept_args(engine, a, i + 1));
            i += 1;
        }
    }
}

fn port_arg(port: u16) -> (r: String)
    ensures
        r@ == "--port="@ + decimal(port as nat),
{
    let mut s = "--port=".to_owned();
    s.append(u64_to_decimal(port as u64).as_str());
    s
}

/// vLLM's arguments: model, served name, host and port, then the plan's own
/// arguments without any that the server manages.
fn render_vllm_runtime_args(plan: &DeploymentPlan, model_arg: String, served_model_arg: String) -> (r: Vec<
    String,
>)
    ensures
        r.deep_view() == seq![
            model_arg@,
            served_model_arg@,
            "--host=0.0.0.0"@,
            "--port="@ + decimal(plan.runtime_port as nat),
        ] + kept_args(RuntimeEngine::Vllm, plan.runtime_args.deep_view(), 0),
{
    let mut args: Vec<String> = Vec::new();
    args.push(model_arg);
    args.push(served_model_arg);
    args.push("--host=0.0.0.0".to_owned());
    args.push(port_arg(plan.runtime_port));
    let ghost head = args.deep_view();
    assert(head =~= seq![
        model_arg@,
        served_model_arg@,
        "--host=0.0.0.0"@,
        "--port="@ + decimal(plan.runtime_port as nat),
    ]);
    append_kept_args(&mut args, RuntimeEngine::Vllm, &plan.runtime_args);
    args
}

/// SGLang's arguments: model path, host and port, then the plan's own
/// arguments without any that the server manages.
fn render_sglang_runtime_args(plan: &DeploymentPlan, model_arg: String) -> (r: Vec<String>)
    ensures
        r.deep_view() == seq![model_arg@, "--host=0.0.0.0"@, "--port="@ + decimal(plan.runtime_port as nat)]
            + kept_args(RuntimeEngine::Sglang, plan.runtime_args.deep_view(), 0),
{
    let mut args: Vec<String> = Vec::new();
    args.push(model_arg);
    args.push("--host=0.0.0.0".to_owned());
    args.push(port_arg(plan.runtime_port));
    let ghost head = args.deep_view();
    assert(head =~= seq![model_arg@, "--host=0.0.0.0"@, "--port="@ + decimal(plan.runtime_port as nat)]);
    append_kept_args(&mut args, RuntimeEngine::Sglang, &plan.runtime_args);
    args
}

/// The container arguments: the server-managed model, name, host and port
/// flags first, then the plan's own arguments without any server-managed one.
pub fn render_runtime_args(plan: &DeploymentPlan) -> (r: Vec<String>)
    ensures
        r.deep_view() == rendered_args(plan@),
{
    match plan.runtime_engine {
        RuntimeEngine::Vllm => {
            let mut model_arg = "--model=".to_owned();
            model_arg.append(plan.model_path.as_str());
            let mut served = "--served-model-name=".to_owned();
            served.append(plan.name.as_str());
            render_vllm_runtime_args(plan, model_arg, served)
        },
        RuntimeEngine::Sglang => {
            let mut model_arg = "--model-path=".to_owned();
            model_arg.append(plan.model_path.as_str());
            render_sglang_runtime_args(plan, model_arg)
        },
    }
}

fn render_command(engine: RuntimeEngine) -> (r: Vec<String>)
    ensures
        r.deep_view() == rendered_command(engine),
{
    let mut v: Vec<String> = Vec::new();
    match engine {
        RuntimeEngine::Vllm => {
            v.push("python3".to_owned());
            v.push("-m".to_owned());
            v.push("vllm.entrypoints.openai.api_server".to_owned());
        },
        RuntimeEngine::Sglang => {
            v.push("sglang".to_owned());
            v.push("serve".to_owned());
        },
    }
    assert(v.deep_view() =~= rendered_command(engine));
    v
}

/// The container environment: offline switches for the Hugging Face
/// libraries, then the plan's runtime environment and environment overrides,
/// each entry replacing any earlier entry with its name.
pub fn render_runtime_env(plan: &DeploymentPlan) -> (r: Vec<EnvVar>)
    ensures
        r.deep_view() == rendered_env(plan@),
{
    let mut base: Vec<EnvVar> = Vec::new();
    base.push(EnvVar { name: "HF_HUB_OFFLINE".to_owned(), value: "1".to_owned() });
    base.push(EnvVar { name: "TRANSFORMERS_OFFLINE".to_owned(), value: "1".to_owned() });
    assert(base.deep_view() =~= offline_env());
    let mut items: Vec<EnvVar> = Vec::new();
    let ghost all = plan@.runtime_env + plan@.env_overrides;
    let n = plan.runtime_env.len();
    let mut i: usize = 0;
    while i < n
        invariant
            n == plan.runtime_env@.len(),
            all == plan@.runtime_env + plan@.env_overrides,
            i <= n,
            items@.len() == i,
            forall|k: int| 0 <= k < i ==> #[trigger] items@[k]@ == all[k],
        decreases n - i,
    {
        items.push(plan.runtime_env[i].duplicate());
        i += 1;
    }
    let mut j: usize = 0;
    while j < plan.env_overrides.len()
        invariant
            n == plan.runtime_env@.len(),
            all == plan@.runtime_env + plan@.env_overrides,
            j <= plan.env_overrides@.len(),
            items@.len() == n + j,
            forall|k: int| 0 <= k < n + j ==> #[trigger] items@[k]@ == all[k],
        decreases plan.env_overrides.len() - j,
    {
        items.push(plan.env_overrides[j].duplicate());
        j += 1;
    }
    assert(items.deep_view() =~= all);
    merge_env(&base, &items)
}

pub open spec fn kv(key: Seq<char>, value: Seq<char>) -> (Seq<char>, Seq<char>) {
    (key, value)
}

fn key_value(key: &str, value: String) -> (r: KeyValue)
    ensures
        r@ == kv(key@, value@),
{
    KeyValue { key: key.to_owned(), value }
}

/// The InferenceService a plan renders to. The digest label holds the
/// first 63 bytes of the plan digest, the longest a label value may be.
pub open spec fn is_rendered_manifest(plan: DeploymentPlan, r: InferenceServiceManifest) -> bool {
    &&& r.api_version@ == "serving.kserve.io/v1beta1"@
    &&& r.kind@ == "InferenceService"@
    &&& r.name@ == plan.name@
    &&& r.namespace@ == plan.namespace@
    &&& r.labels@.len() == 3
    &&& r.labels@[0]@ == kv("app.kubernetes.io/managed-by"@, "homelab-mcp"@)
    &&& r.labels@[1]@ == kv("homelab.saavylab.dev/recipe-id"@, label_value_spec(plan.recipe_id@))
    &&& r.labels@[2].key@ == "homelab.saavylab.dev/plan-digest"@
    &&& encode_utf8(r.labels@[2].value@) == encode_utf8(plan.plan_digest@).subrange(0, 63)
    &&& r.annotations.deep_view() == seq![
        kv("homelab.saavylab.dev/model-id"@, plan.model_id@),
        kv("homelab.saavylab.dev/plan-digest"@, plan.plan_digest@),
    ]
    &&& r.min_replicas == plan.replicas
    &&& r.max_replicas == if plan.replicas >= 1 { plan.replicas } else { 1 }
    &&& r.container_name@ == "kserve-container"@
    &&& r.image@ == plan.runtime_image@
    &&& r.command.deep_view() == rendered_command(plan.runtime_engine)
    &&& r.args.deep_view() == rendered_args(plan@)
    &&& r.env.deep_view() == rendered_env(plan@)
    &&& r.container_port == plan.runtime_port
    &&& r.port_name@ == "http"@
    &&& r.port_protocol@ == "TCP"@
    &&& r.cpu@ == plan.resource_requests.cpu@
    &&& r.memory@ == plan.resource_requests.memory@
    &&& r.gpu_count@ == decimal(plan.resource_requests.gpu_count as nat)
    &&& r.volume_name@ == "nas-models"@
    &&& r.mount_path@ == mount_path_of(plan.model_path@)
    &&& r.read_only
    &&& r.host_path_type@ == "Directory"@
    &&& r.tolerations.deep_view() == seq![
        ("nvidia.com/gpu"@, "Equal"@, "true"@, "NoSchedule"@),
        ("nvidia.com/gpu"@, "Equal"@, "true"@, "NoExecute"@),
    ]
    &&& r.node_selector.deep_view() == seq![kv("nvidia.com/gpu.product"@, "NVIDIA-GB10"@)]
}

/// Renders the InferenceService of a plan.
pub fn render_inference_service(plan: &DeploymentPlan) -> (r: InferenceServiceManifest)
    requires
        plan.model_path@.contains('/'),
        is_char_boundary(encode_utf8(plan.plan_digest@), 63),
    ensures
        is_rendered_manifest(*plan, r),
{
    let (digest_prefix, _) = plan.plan_digest.as_str().split_at(63);
    let mut labels: Vec<KeyValue> = Vec::new();
    labels.push(key_value("app.kubernetes.io/managed-by", "homelab-mcp".to_owned()));
    labels.push(key_value("homelab.saavylab.dev/recipe-id", sanitize_label_value(plan.recipe_id.as_str())));
    labels.push(key_value("homelab.saavylab.dev/plan-digest", digest_prefix.to_owned()));
    let mut annotations: Vec<KeyValue> = Vec::new();
    annotations.push(key_value("homelab.saavylab.dev/model-id", plan.model_id.clone()));
    annotations.push(key_value("homelab.saavylab.dev/plan-digest", plan.plan_digest.clone()));
    assert(annotations.deep_view() =~= seq![
        kv("homelab.saavylab.dev/model-id"@, plan.model_id@),
        kv("homelab.saavylab.dev/plan-digest"@, plan.plan_digest@),
    ]);
    let mut tolerations: Vec<Toleration> = Vec::new();
    tolerations.push(
        Toleration {
            key: "nvidia.com/gpu".to_owned(),
            operator: "Equal".to_owned(),
            value: "true".to_owned(),
            effect: "NoSchedule".to_owned(),
        },
    );
    tolerations.push(
        Toleration {
            key: "nvidia.com/gpu".to_owned(),
            operator: "Equal".to_owned(),
            value: "true".to_owned(),
            effect: "NoExecute".to_owned(),
        },
    );
    assert(tolerations.deep_view() =~= seq![
        ("nvidia.com/gpu"@, "Equal"@, "true"@, "NoSchedule"@),
        ("nvidia.com/gpu"@, "Equal"@, "true"@, "NoExecute"@),
    ]);
    let mut node_selector: Vec<KeyValue> = Vec::new();
    node_selector.push(key_value("nvidia.com/gpu.product", "NVIDIA-GB10".to_owned()));
    assert(node_selector.deep_view() =~= seq![kv("nvidia.com/gpu.product"@, "NVIDIA-GB10"@)]);
    InferenceServiceManifest {
        api_version: "serving.kserve.io/v1beta1".to_owned(),
        kind: "InferenceService".to_owned(),
        name: plan.name.clone(),
        namespace: plan.namespace.clone(),
        labels,
        annotations,
        min_replicas: plan.replicas,
        max_replicas: if plan.replicas >= 1 { plan.replicas } else { 1 },
        container_name: "kserve-container".to_owned(),
        image: plan.runtime_image.clone(),
        command: render_command(plan.runtime_engine),
        args: render_runtime_args(plan),
        env: render_runtime_env(plan),
        container_port: plan.runtime_port,
        port_name: "http".to_owned(),
        port_protocol: "TCP".to_owned(),
        cpu: plan.resource_requests.cpu.clone(),
        memory: plan.resource_requests.memory.clone(),
        gpu_count: u64_to_decimal(plan.resource_requests.gpu_count as u64),
        volume_name: "nas-models".to_owned(),
        mount_path: mount_path(plan.model_path.as_str()),
        read_only: true,
        host_path_type: "Directory".to_owned(),
        tolerations,
        node_selector,
    }
}


// ---------------------------------------------------------------------------
// The manifest as a JSON document
// ---------------------------------------------------------------------------

pub open spec fn jstr(s: Seq<char>) -> JsonView {
    JsonView::Str(s)
}

/// An object of string members.
pub open spec fn string_object(kvs: Seq<(Seq<char>, Seq<char>)>) -> JsonView {
    JsonView::Object(kvs.map_values(|p: (Seq<char>, Seq<char>)| (p.0, jstr(p.1))))
}

pub open spec fn string_array(items: Seq<Seq<char>>) -> JsonView {
    JsonView::Array(items.map_values(|x: Seq<char>| jstr(x)))
}

pub open spec fn env_entry(e: EnvVarView) -> JsonView {
    JsonView::Object(seq![("name"@, jstr(e.name)), ("value"@, jstr(e.value))])
}

pub open spec fn toleration_entry(t: (Seq<char>, Seq<char>, Seq<char>, Seq<char>)) -> JsonView {
    JsonView::Object(
        seq![("key"@, jstr(t.0)), ("operator"@, jstr(t.1)), ("value"@, jstr(t.2)), ("effect"@, jstr(t.3))],
    )
}

pub open spec fn resources_entry(m: InferenceServiceManifest) -> JsonView {
    JsonView::Object(
        seq![("cpu"@, jstr(m.cpu@)), ("memory"@, jstr(m.memory@)), ("nvidia.com/gpu"@, jstr(m.gpu_count@))],
    )
}

pub open spec fn container_entry(m: InferenceServiceManifest) -> JsonView {
    JsonView::Object(
        seq![
            ("name"@, jstr(m.container_name@)),
            ("image"@, jstr(m.image@)),
            ("command"@, string_array(m.command.deep_view())),
            ("args"@, string_array(m.args.deep_view())),
            ("env"@, JsonView::Array(m.env.deep_view().map_values(|e: EnvVarView| env_entry(e)))),
            (
                "ports"@,
                JsonView::Array(
                    seq![
                        JsonView::Object(
                            seq![
                                ("containerPort"@, JsonView::Int(m.container_port as i64)),
                                ("name"@, jstr(m.port_name@)),
                                ("protocol"@, jstr(m.port_protocol@)),
                            ],
                        ),
                    ],
                ),
            ),
            (
                "resources"@,
                JsonView::Object(seq![("requests"@, resources_entry(m)), ("limits"@, resources_entry(m))]),
            ),
            (
                "volumeMounts"@,
                JsonView::Array(
                    seq![
                        JsonView::Object(
                            seq![
                                ("name"@, jstr(m.volume_name@)),
                                ("mountPath"@, jstr(m.mount_path@)),
                                ("readOnly"@, JsonView::Bool(m.read_only)),
                            ],
                        ),
                    ],
                ),
            ),
        ],
    )
}

pub open spec fn volume_entry(m: InferenceServiceManifest) -> JsonView {
    JsonView::Object(
        seq![
            ("name"@, jstr(m.volume_name@)),
            (
                "hostPath"@,
                JsonView::Object(seq![("path"@, jstr(m.mount_path@)), ("type"@, jstr(m.host_path_type@))]),
            ),
        ],
    )
}

/// The KServe resource document of a manifest, field for field.
pub open spec fn kserve_doc(m: InferenceServiceManifest) -> JsonView {
    JsonView::Object(
        seq![
            ("apiVersion"@, jstr(m.api_version@)),
            ("kind"@, jstr(m.kind@)),
            (
                "metadata"@,
                JsonView::Object(
                    seq![
                        ("name"@, jstr(m.name@)),
                        ("namespace"@, jstr(m.namespace@)),
                        ("labels"@, string_object(m.labels.deep_view())),
                        ("annotations"@, string_object(m.annotations.deep_view())),
                    ],
                ),
            ),
            (
                "spec"@,
                JsonView::Object(
                    seq![
                        (
                            "predictor"@,
                            JsonView::Object(
                                seq![
                                    ("minReplicas"@, JsonView::Int(m.min_replicas as i64)),
                                    ("maxReplicas"@, JsonView::Int(m.max_replicas as i64)),
                                    ("containers"@, JsonView::Array(seq![container_entry(m)])),
                                    ("volumes"@, JsonView::Array(seq![volume_entry(m)])),
                                    (
                                        "tolerations"@,
                                        JsonView::Array(
                                            m.tolerations.deep_view().map_values(
                                                |t: (Seq<char>, Seq<char>, Seq<char>, Seq<char>)|
                                                    toleration_entry(t),
                                            ),
                                        ),
                                    ),
                                    ("nodeSelector"@, string_object(m.node_selector.deep_view())),
                                ],
                            ),
                        ),
                    ],
                ),
            ),
        ],
    )
}

fn string_object_exec(kvs: &Vec<KeyValue>) -> (r: JsonValue)
    ensures
        r@ == string_object(kvs.deep_view()),
{
    let mut members: Vec<(String, JsonValue)> = Vec::new();
    let mut i: usize = 0;
    while i < kvs.len()
        invariant
            i <= kvs@.len(),
            members@.len() == i,
            forall|j: int|
                0 <= j < i ==> (#[trigger] members@[j]).0@ == kvs@[j].key@ && json_view(members@[j].1)
                    == jstr(kvs@[j].value@),
        decreases kvs.len() - i,
    {
        let m = text_member(kvs[i].key.as_str(), kvs[i].value.as_str());
        members.push(m);
        i += 1;
    }
    assert(members@.map_values(|m: (String, JsonValue)| (m.0@, json_view(m.1))) =~= kvs.deep_view().map_values(
        |p: (Seq<char>, Seq<char>)| (p.0, jstr(p.1)),
    ));
    object_of(members)
}

fn string_array_exec(items: &Vec<String>) -> (r: JsonValue)
    ensures
        r@ == string_array(items.deep_view()),
{
    let mut out: Vec<JsonValue> = Vec::new();
    let mut i: usize = 0;
    while i < items.len()
        invariant
            i <= items@.len(),
            out@.len() == i,
            forall|j: int| 0 <= j < i ==> json_view(#[trigger] out@[j]) == jstr(items@[j]@),
        decreases items.len() - i,
    {
        out.push(JsonValue::Str(items[i].clone()));
        i += 1;
    }
    assert(out@.map_values(|v: JsonValue| json_view(v)) =~= items.deep_view().map_values(
        |x: Seq<char>| jstr(x),
    ));
    array_of(out)
}

fn env_exec(env: &Vec<EnvVar>) -> (r: JsonValue)
    ensures
        r@ == JsonView::Array(env.deep_view().map_values(|e: EnvVarView| env_entry(e))),
{
    let mut out: Vec<JsonValue> = Vec::new();
    let mut i: usize = 0;
    while i < env.len()
        invariant
            i <= env@.len(),
            out@.len() == i,
            forall|j: int| 0 <= j < i ==> json_view(#[trigger] out@[j]) == env_entry(env@[j]@),
        decreases env.len() - i,
    {
        let ms = vec![
            text_member("name", env[i].name.as_str()),
            text_member("value", env[i].value.as_str()),
        ];
        assert(ms@.map_values(|m: (String, JsonValue)| (m.0@, json_view(m.1))) =~= seq![
            ("name"@, jstr(env@[i as int].name@)),
            ("value"@, jstr(env@[i as int].value@)),
        ]);
        let entry = object_of(ms);
        out.push(entry);
        i += 1;
    }
    assert(out@.map_values(|v: JsonValue| json_view(v)) =~= env.deep_view().map_values(
        |e: EnvVarView| env_entry(e),
    ));
    array_of(out)
}

fn tolerations_exec(ts: &Vec<Toleration>) -> (r: JsonValue)
    ensures
        r@ == JsonView::Array(
            ts.deep_view().map_values(
                |t: (Seq<char>, Seq<char>, Seq<char>, Seq<char>)| toleration_entry(t),
            ),
        ),
{
    let mut out: Vec<JsonValue> = Vec::new();
    let mut i: usize = 0;
    while i < ts.len()
        invariant
            i <= ts@.len(),
            out@.len() == i,
            forall|j: int| 0 <= j < i ==> json_view(#[trigger] out@[j]) == toleration_entry(ts@[j]@),
        decreases ts.len() - i,
    {
        let ms = vec![
            text_member("key", ts[i].key.as_str()),
            text_member("operator", ts[i].operator.as_str()),
            text_member("value", ts[i].value.as_str()),
            text_member("effect", ts[i].effect.as_str()),
        ];
        assert(ms@.map_values(|m: (String, JsonValue)| (m.0@, json_view(m.1))) =~= seq![
            ("key"@, jstr(ts@[i as int].key@)),
            ("operator"@, jstr(ts@[i as int].operator@)),
            ("value"@, jstr(ts@[i as int].value@)),
            ("effect"@, jstr(ts@[i as int].effect@)),
        ]);
        let entry = object_of(ms);
        out.push(entry);
        i += 1;
    }
    assert(out@.map_values(|v: JsonValue| json_view(v)) =~= ts.deep_view().map_values(
        |t: (Seq<char>, Seq<char>, Seq<char>, Seq<char>)| toleration_entry(t),
    ));
    array_of(out)
}

fn resources_exec(m: &InferenceServiceManifest) -> (r: JsonValue)
    ensures
        r@ == resources_entry(*m),
{
    let ms = vec![
        text_member("cpu", m.cpu.as_str()),
        text_member("memory", m.memory.as_str()),
        text_member("nvidia.com/gpu", m.gpu_count.as_str()),
    ];
    assert(ms@.map_values(|x: (String, JsonValue)| (x.0@, json_view(x.1))) =~= seq![
        ("cpu"@, jstr(m.cpu@)),
        ("memory"@, jstr(m.memory@)),
        ("nvidia.com/gpu"@, jstr(m.gpu_count@)),
    ]);
    object_of(ms)
}

fn container_exec(m: &InferenceServiceManifest) -> (r: JsonValue)
    ensures
        r@ == container_entry(*m),
{
    let port_members = vec![
        (String::from_str("containerPort"), JsonValue::Int(m.container_port as i64)),
        text_member("name", m.port_name.as_str()),
        text_member("protocol", m.port_protocol.as_str()),
    ];
    assert(port_members@.map_values(|x: (String, JsonValue)| (x.0@, json_view(x.1))) =~= seq![
        ("containerPort"@, JsonView::Int(m.container_port as i64)),
        ("name"@, jstr(m.port_name@)),
        ("protocol"@, jstr(m.port_protocol@)),
    ]);
    let port = object_of(port_members);
    let port_items = vec![port];
    assert(port_items@.map_values(|v: JsonValue| json_view(v)) =~= seq![json_view(port_items@[0])]);
    let ports = array_of(port_items);
    let resource_members = vec![
        (String::from_str("requests"), resources_exec(m)),
        (String::from_str("limits"), resources_exec(m)),
    ];
    assert(resource_members@.map_values(|x: (String, JsonValue)| (x.0@, json_view(x.1))) =~= seq![
        ("requests"@, resources_entry(*m)),
        ("limits"@, resources_entry(*m)),
    ]);
    let resources = object_of(resource_members);
    let mount_members = vec![
        text_member("name", m.volume_name.as_str()),
        text_member("mountPath", m.mount_path.as_str()),
        (String::from_str("readOnly"), JsonValue::Bool(m.read_only)),
    ];
    assert(mount_members@.map_values(|x: (String, JsonValue)| (x.0@, json_view(x.1))) =~= seq![
        ("name"@, jstr(m.volume_name@)),
        ("mountPath"@, jstr(m.mount_path@)),
        ("readOnly"@, JsonView::Bool(m.read_only)),
    ]);
    let mount = object_of(mount_members);
    let mount_items = vec![mount];
    assert(mount_items@.map_values(|v: JsonValue| json_view(v)) =~= seq![json_view(mount_items@[0])]);
    let mounts = array_of(mount_items);
    let members = vec![
        text_member("name", m.container_name.as_str()),
        text_member("image", m.image.as_str()),
        (String::from_str("command"), string_array_exec(&m.command)),
        (String::from_str("args"), string_array_exec(&m.args)),
        (String::from_str("env"), env_exec(&m.env)),
        (String::from_str("ports"), ports),
        (String::from_str("resources"), resources),
        (String::from_str("volumeMounts"), mounts),
    ];
    assert(members@.map_values(|x: (String, JsonValue)| (x.0@, json_view(x.1))) =~= seq![
        ("name"@, jstr(m.container_name@)),
        ("image"@, jstr(m.image@)),
        ("command"@, string_array(m.command.deep_view())),
        ("args"@, string_array(m.args.deep_view())),
        ("env"@, JsonView::Array(m.env.deep_view().map_values(|e: EnvVarView| env_entry(e)))),
        ("ports"@, JsonView::Array(seq![JsonView::Object(seq![
            ("containerPort"@, JsonView::Int(m.container_port as i64)),
            ("name"@, jstr(m.port_name@)),
            ("protocol"@, jstr(m.port_protocol@)),
        ])])),
        ("resources"@, JsonView::Object(seq![("requests"@, resources_entry(*m)), ("limits"@, resources_entry(*m))])),
        ("volumeMounts"@, JsonView::Array(seq![JsonView::Object(seq![
            ("name"@, jstr(m.volume_name@)),
            ("mountPath"@, jstr(m.mount_path@)),
            ("readOnly"@, JsonView::Bool(m.read_only)),
        ])])),
    ]);
    object_of(members)
}

/// The KServe resource document of a manifest.
pub fn manifest_value(m: &InferenceServiceManifest) -> (r: JsonValue)
    ensures
        r@ == kserve_doc(*m),
{
    let meta_members = vec![
        text_member("name", m.name.as_str()),
        text_member("namespace", m.namespace.as_str()),
        (String::from_str("labels"), string_object_exec(&m.labels)),
        (String::from_str("annotations"), string_object_exec(&m.annotations)),
    ];
    assert(meta_members@.map_values(|x: (String, JsonValue)| (x.0@, json_view(x.1))) =~= seq![
        ("name"@, jstr(m.name@)),
        ("namespace"@, jstr(m.namespace@)),
        ("labels"@, string_object(m.labels.deep_view())),
        ("annotations"@, string_object(m.annotations.deep_view())),
    ]);
    let metadata = object_of(meta_members);
    let host_members = vec![
        text_member("path", m.mount_path.as_str()),
        text_member("type", m.host_path_type.as_str()),
    ];
    assert(host_members@.map_values(|x: (String, JsonValue)| (x.0@, json_view(x.1))) =~= seq![
        ("path"@, jstr(m.mount_path@)),
        ("type"@, jstr(m.host_path_type@)),
    ]);
    let volume_members = vec![
        text_member("name", m.volume_name.as_str()),
        (String::from_str("hostPath"), object_of(host_members)),
    ];
    assert(volume_members@.map_values(|x: (String, JsonValue)| (x.0@, json_view(x.1))) =~= seq![
        ("name"@, jstr(m.volume_name@)),
        ("hostPath"@, JsonView::Object(seq![("path"@, jstr(m.mount_path@)), ("type"@, jstr(m.host_path_type@))])),
    ]);
    let volume_items = vec![object_of(volume_members)];
    assert(volume_items@.map_values(|v: JsonValue| json_view(v)) =~= seq![volume_entry(*m)]);
    let volumes = array_of(volume_items);
    let container_items = vec![container_exec(m)];
    assert(container_items@.map_values(|v: JsonValue| json_view(v)) =~= seq![container_entry(*m)]);
    let predictor_members = vec![
        (String::from_str("minReplicas"), JsonValue::Int(m.min_replicas as i64)),
        (String::from_str("maxReplicas"), JsonValue::Int(m.max_replicas as i64)),
        (String::from_str("containers"), array_of(container_items)),
        (String::from_str("volumes"), volumes),
        (String::from_str("tolerations"), tolerations_exec(&m.tolerations)),
        (String::from_str("nodeSelector"), string_object_exec(&m.node_selector)),
    ];
    let ghost predictor_view = JsonView::Object(seq![
        ("minReplicas"@, JsonView::Int(m.min_replicas as i64)),
        ("maxReplicas"@, JsonView::Int(m.max_replicas as i64)),
        ("containers"@, JsonView::Array(seq![container_entry(*m)])),
        ("volumes"@, JsonView::Array(seq![volume_entry(*m)])),
        ("tolerations"@, JsonView::Array(m.tolerations.deep_view().map_values(
            |t: (Seq<char>, Seq<char>, Seq<char>, Seq<char>)| toleration_entry(t),
        ))),
        ("nodeSelector"@, string_object(m.node_selector.deep_view())),
    ]);
    assert(predictor_members@.map_values(|x: (String, JsonValue)| (x.0@, json_view(x.1))) =~= predictor_view->Object_0);
    let predictor = object_of(predictor_members);
    let spec_members = vec![(String::from_str("predictor"), predictor)];
    assert(spec_members@.map_values(|x: (String, JsonValue)| (x.0@, json_view(x.1))) =~= seq![("predictor"@, predictor_view)]);
    let spec = object_of(spec_members);
    let members = vec![
        text_member("apiVersion", m.api_version.as_str()),
        text_member("kind", m.kind.as_str()),
        (String::from_str("metadata"), metadata),
        (String::from_str("spec"), spec),
    ];
    assert(members@.map_values(|x: (String, JsonValue)| (x.0@, json_view(x.1))) =~= kserve_doc(*m)->Object_0);
    object_of(members)
}

/// Renders the KServe resource document of a plan: the document of the
/// manifest that `render_inference_service` builds.
pub fn render_kserve_value(plan: &DeploymentPlan) -> (r: JsonValue)
    requires
        plan.model_path@.contains('/'),
        is_char_boundary(encode_utf8(plan.plan_digest@), 63),
    ensures
        exists|m: InferenceServiceManifest| is_rendered_manifest(*plan, m) && r@ == kserve_doc(m),
{
    let m = render_inference_service(plan);
    manifest_value(&m)
}

// ---------------------------------------------------------------------------
// Laws
// ---------------------------------------------------------------------------

/// No argument the server manages survives the filter, and every argument
/// that survives is one of the caller's.
pub proof fn law_kept_args_are_unmanaged(engine: RuntimeEngine, args: Seq<Seq<char>>, i: int)
    ensures
        forall|k: int|
            0 <= k < kept_args(engine, args, i).len() ==> !is_server_managed(
                engine,
                #[trigger] kept_args(engine, args, i)[k],
            ) && args.contains(kept_args(engine, args, i)[k]),
    decreases args.len() - i,
{
    if 0 <= i < args.len() {
        lemma_kept_step(engine, args, i);
        if is_server_managed(engine, args[i]) {
            law_kept_args_are_unmanaged(engine, args, i + if takes_value(args, i) { 2int } else { 1int });
        } else {
            law_kept_args_are_unmanaged(engine, args, i + 1);
            let rest = kept_args(engine, args, i + 1);
            let all = kept_args(engine, args, i);
            assert forall|k: int| 0 <= k < all.len() implies !is_server_managed(engine, #[trigger] all[k])
                && args.contains(all[k]) by {
                if k > 0 {
                    assert(all[k] == rest[k - 1]);
                }
            }
        }
    }
}

/// Arguments that the server does not manage pass through untouched and in order.
pub proof fn law_unmanaged_args_pass_through(engine: RuntimeEngine, args: Seq<Seq<char>>, i: int)
    requires
        0 <= i <= args.len(),
        forall|k: int| 0 <= k < args.len() ==> !is_server_managed(engine, #[trigger] args[k]),
    ensures
        kept_args(engine, args, i) == args.subrange(i, args.len() as int),
    decreases args.len() - i,
{
    if i < args.len() {
        law_unmanaged_args_pass_through(engine, args, i + 1);
        assert(seq![args[i]] + args.subrange(i + 1, args.len() as int) =~= args.subrange(i, args.len() as int));
    } else {
        assert(args.subrange(i, args.len() as int) =~= Seq::<Seq<char>>::empty());
    }
}

/// The rendered container environment keeps the operator's environment
/// overrides: the last override of each name is in it, as the only entry of
/// that name, and the environment ends with the last override of all.
pub proof fn law_rendered_env_keeps_overrides(p: PlanView, k: int)
    requires
        0 <= k < p.env_overrides.len(),
        forall|j: int| k < j < p.env_overrides.len() ==> (#[trigger] p.env_overrides[j]).name
            != p.env_overrides[k].name,
    ensures
        rendered_env(p).contains(p.env_overrides[k]),
        forall|x: EnvVarView|
            rendered_env(p).contains(x) && x.name == p.env_overrides[k].name ==> x == p.env_overrides[k],
        rendered_env(p).len() > 0 && rendered_env(p).last() == p.env_overrides.last(),
{
    let all = p.runtime_env + p.env_overrides;
    let n = p.runtime_env.len() as int;
    assert(all[n + k] == p.env_overrides[k]);
    assert forall|j: int| n + k < j < all.len() implies (#[trigger] all[j]).name != all[n + k].name by {
        assert(all[j] == p.env_overrides[j - n]);
    }
    crate::catalog::planner::law_merge_env_last_override_wins(offline_env(), all, n + k);
    assert(all.last() == p.env_overrides.last());
}

/// A runtime environment entry that no later entry renames, neither in the
/// runtime environment nor among the overrides, is in the rendered container
/// environment as the only entry of its name.
pub proof fn law_rendered_env_keeps_runtime_env(p: PlanView, k: int)
    requires
        0 <= k < p.runtime_env.len(),
        forall|j: int| k < j < p.runtime_env.len() ==> (#[trigger] p.runtime_env[j]).name
            != p.runtime_env[k].name,
        forall|j: int| 0 <= j < p.env_overrides.len() ==> (#[trigger] p.env_overrides[j]).name
            != p.runtime_env[k].name,
    ensures
        rendered_env(p).contains(p.runtime_env[k]),
        forall|x: EnvVarView|
            rendered_env(p).contains(x) && x.name == p.runtime_env[k].name ==> x == p.runtime_env[k],
{
    let all = p.runtime_env + p.env_overrides;
    let n = p.runtime_env.len() as int;
    assert(all[k] == p.runtime_env[k]);
    assert forall|j: int| k < j < all.len() implies (#[trigger] all[j]).name != all[k].name by {
        if j < n {
            assert(all[j] == p.runtime_env[j]);
        } else {
            assert(all[j] == p.env_overrides[j - n]);
        }
    }
    crate::catalog::planner::law_merge_env_last_override_wins(offline_env(), all, k);
}

} // verus!
