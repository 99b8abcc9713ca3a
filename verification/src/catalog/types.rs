//! Recipes, deployment plans and their mathematical models.
use crate::mcp_core::{Provenance, ProvenanceView};
use vstd::prelude::*;

verus! {

#[derive(Clone, Copy, Debug, PartialEq, Eq, Structural)]
pub enum RecipeSource {
    SparkArena,
    Local,
    AdHoc,
}

/// The serving engine a recipe runs.
#[derive(Clone, Copy, Debug, PartialEq, Eq, Structural)]
pub enum RuntimeEngine {
    Vllm,
    Sglang,
}

#[derive(Clone, Copy, Debug, PartialEq, Eq, Structural)]
pub enum StorageMode {
    Ephemeral,
    ModelCache,
}

#[derive(Clone, Copy, Debug, PartialEq, Eq, Structural)]
pub enum IngressPolicy {
    ClusterLocal,
    InternalHttp,
}

#[derive(Clone, Copy, Debug, PartialEq, Eq, Structural)]
pub enum ApplyMode {
    CreateOnly,
}

impl Default for ApplyMode {
    fn default() -> (r: Self)
        ensures
            r == ApplyMode::CreateOnly,
    {
        ApplyMode::CreateOnly
    }
}

#[derive(Clone, Debug, PartialEq, Eq)]
pub struct EnvVar {
    pub name: String,
    pub value: String,
}

pub struct EnvVarView {
    pub name: Seq<char>,
    pub value: Seq<char>,
}

impl View for EnvVar {
    type V = EnvVarView;

    open spec fn view(&self) -> EnvVarView {
        EnvVarView { name: self.name@, value: self.value@ }
    }
}

impl DeepView for EnvVar {
    type V = EnvVarView;

    open spec fn deep_view(&self) -> EnvVarView {
        self@
    }
}

impl EnvVar {
    pub fn duplicate(&self) -> (r: Self)
        ensures
            r@ == self@,
    {
        EnvVar { name: self.name.clone(), value: self.value.clone() }
    }
}

#[derive(Clone, Debug, PartialEq, Eq)]
pub struct ModelSpec {
    pub id: String,
    pub revision: Option<String>,
    pub quantization: Option<String>,
    pub gated: Option<bool>,
    pub license: Option<String>,
}

pub struct ModelSpecView {
    pub id: Seq<char>,
    pub revision: Option<Seq<char>>,
    pub quantization: Option<Seq<char>>,
    pub gated: Option<bool>,
    pub license: Option<Seq<char>>,
}

impl View for ModelSpec {
    type V = ModelSpecView;

    open spec fn view(&self) -> ModelSpecView {
        ModelSpecView {
            id: self.id@,
            revision: self.revision.deep_view(),
            quantization: self.quantization.deep_view(),
            gated: self.gated,
            license: self.license.deep_view(),
        }
    }
}

#[derive(Clone, Debug, PartialEq, Eq)]
pub struct RuntimeSpec {
    pub image: String,
    pub engine: RuntimeEngine,
    pub port: Option<u16>,
    pub args: Vec<String>,
    pub env: Vec<EnvVar>,
    pub tensor_parallel: Option<u32>,
    pub max_model_len: Option<u32>,
    pub dtype: Option<String>,
    pub tool_call_parser: Option<String>,
    pub reasoning_parser: Option<String>,
}

pub struct RuntimeSpecView {
    pub image: Seq<char>,
    pub engine: RuntimeEngine,
    pub port: Option<u16>,
    pub args: Seq<Seq<char>>,
    pub env: Seq<EnvVarView>,
    pub tensor_parallel: Option<u32>,
    pub max_model_len: Option<u32>,
    pub dtype: Option<Seq<char>>,
    pub tool_call_parser: Option<Seq<char>>,
    pub reasoning_parser: Option<Seq<char>>,
}

impl View for RuntimeSpec {
    type V = RuntimeSpecView;

    open spec fn view(&self) -> RuntimeSpecView {
        RuntimeSpecView {
            image: self.image@,
            engine: self.engine,
            port: self.port,
            args: self.args.deep_view(),
            env: self.env.deep_view(),
            tensor_parallel: self.tensor_parallel,
            max_model_len: self.max_model_len,
            dtype: self.dtype.deep_view(),
            tool_call_parser: self.tool_call_parser.deep_view(),
            reasoning_parser: self.reasoning_parser.deep_view(),
        }
    }
}

/// Hardware needs of a recipe. `gpu_memory_utilization` is the decimal text of
/// the fraction of GPU memory the engine may claim (for example `"0.8"`).
#[derive(Clone, Debug, PartialEq, Eq)]
pub struct HardwareSpec {
    pub gpu_class: String,
    pub gpu_count: u32,
    pub estimated_vram_gb: Option<u32>,
    pub gpu_memory_utilization: Option<String>,
}

pub struct HardwareSpecView {
    pub gpu_class: Seq<char>,
    pub gpu_count: u32,
    pub estimated_vram_gb: Option<u32>,
    pub gpu_memory_utilization: Option<Seq<char>>,
}

impl View for HardwareSpec {
    type V = HardwareSpecView;

    open spec fn view(&self) -> HardwareSpecView {
        HardwareSpecView {
            gpu_class: self.gpu_class@,
            gpu_count: self.gpu_count,
            estimated_vram_gb: self.estimated_vram_gb,
            gpu_memory_utilization: self.gpu_memory_utilization.deep_view(),
        }
    }
}

#[derive(Clone, Debug, PartialEq, Eq)]
pub struct ServingSpec {
    pub namespace: String,
    pub service_name: Option<String>,
    pub replicas: u32,
    pub storage_mode: StorageMode,
    pub ingress_policy: IngressPolicy,
}

pub struct ServingSpecView {
    pub namespace: Seq<char>,
    pub service_name: Option<Seq<char>>,
    pub replicas: u32,
    pub storage_mode: StorageMode,
    pub ingress_policy: IngressPolicy,
}

impl View for ServingSpec {
    type V = ServingSpecView;

    open spec fn view(&self) -> ServingSpecView {
        ServingSpecView {
            namespace: self.namespace@,
            service_name: self.service_name.deep_view(),
            replicas: self.replicas,
            storage_mode: self.storage_mode,
            ingress_policy: self.ingress_policy,
        }
    }
}

#[derive(Clone, Debug, PartialEq, Eq)]
pub struct Recipe {
    pub id: String,
    pub source: RecipeSource,
    pub model: ModelSpec,
    pub runtime: RuntimeSpec,
    pub hardware: HardwareSpec,
    pub serving: ServingSpec,
    pub provenance: Provenance,
}

pub struct RecipeView {
    pub id: Seq<char>,
    pub source: RecipeSource,
    pub model: ModelSpecView,
    pub runtime: RuntimeSpecView,
    pub hardware: HardwareSpecView,
    pub serving: ServingSpecView,
    pub provenance: ProvenanceView,
}

impl View for Recipe {
    type V = RecipeView;

    open spec fn view(&self) -> RecipeView {
        RecipeView {
            id: self.id@,
            source: self.source,
            model: self.model@,
            runtime: self.runtime@,
            hardware: self.hardware@,
            serving: self.serving@,
            provenance: self.provenance@,
        }
    }
}

impl DeepView for Recipe {
    type V = RecipeView;

    open spec fn deep_view(&self) -> RecipeView {
        self@
    }
}

#[derive(Clone, Debug, PartialEq, Eq)]
pub struct ResourceRequests {
    pub cpu: String,
    pub memory: String,
    pub gpu_count: u32,
}

pub struct ResourceRequestsView {
    pub cpu: Seq<char>,
    pub memory: Seq<char>,
    pub gpu_count: u32,
}

impl View for ResourceRequests {
    type V = ResourceRequestsView;

    open spec fn view(&self) -> ResourceRequestsView {
        ResourceRequestsView { cpu: self.cpu@, memory: self.memory@, gpu_count: self.gpu_count }
    }
}

impl ResourceRequests {
    pub fn duplicate(&self) -> (r: Self)
        ensures
            r@ == self@,
    {
        ResourceRequests { cpu: self.cpu.clone(), memory: self.memory.clone(), gpu_count: self.gpu_count }
    }
}

/// A concrete, digest-stamped plan for serving one recipe on the cluster.
#[derive(Clone, Debug, PartialEq, Eq)]
pub struct DeploymentPlan {
    pub name: String,
    pub namespace: String,
    pub recipe_id: String,
    pub runtime_image: String,
    pub runtime_engine: RuntimeEngine,
    pub runtime_port: u16,
    pub runtime_args: Vec<String>,
    pub runtime_env: Vec<EnvVar>,
    pub selected_gpu_class: String,
    pub replicas: u32,
    pub scale_to_zero: bool,
    pub storage_mode: StorageMode,
    pub ingress_policy: IngressPolicy,
    pub env_overrides: Vec<EnvVar>,
    pub resource_requests: ResourceRequests,
    pub readiness_timeout_seconds: u32,
    pub model_id: String,
    pub model_revision: Option<String>,
    pub model_path: String,
    pub plan_digest: String,
}

pub struct PlanView {
    pub name: Seq<char>,
    pub namespace: Seq<char>,
    pub recipe_id: Seq<char>,
    pub runtime_image: Seq<char>,
    pub runtime_engine: RuntimeEngine,
    pub runtime_port: u16,
    pub runtime_args: Seq<Seq<char>>,
    pub runtime_env: Seq<EnvVarView>,
    pub selected_gpu_class: Seq<char>,
    pub replicas: u32,
    pub scale_to_zero: bool,
    pub storage_mode: StorageMode,
    pub ingress_policy: IngressPolicy,
    pub env_overrides: Seq<EnvVarView>,
    pub resource_requests: ResourceRequestsView,
    pub readiness_timeout_seconds: u32,
    pub model_id: Seq<char>,
    pub model_revision: Option<Seq<char>>,
    pub model_path: Seq<char>,
    pub plan_digest: Seq<char>,
}

impl View for DeploymentPlan {
    type V = PlanView;

    open spec fn view(&self) -> PlanView {
        PlanView {
            name: self.name@,
            namespace: self.namespace@,
            recipe_id: self.recipe_id@,
            runtime_image: self.runtime_image@,
            runtime_engine: self.runtime_engine,
            runtime_port: self.runtime_port,
            runtime_args: self.runtime_args.deep_view(),
            runtime_env: self.runtime_env.deep_view(),
            selected_gpu_class: self.selected_gpu_class@,
            replicas: self.replicas,
            scale_to_zero: self.scale_to_zero,
            storage_mode: self.storage_mode,
            ingress_policy: self.ingress_policy,
            env_overrides: self.env_overrides.deep_view(),
            resource_requests: self.resource_requests@,
            readiness_timeout_seconds: self.readiness_timeout_seconds,
            model_id: self.model_id@,
            model_revision: self.model_revision.deep_view(),
            model_path: self.model_path@,
            plan_digest: self.plan_digest@,
        }
    }
}

// ---------------------------------------------------------------------------
// Copy helpers with exact contracts
// ---------------------------------------------------------------------------

pub fn clone_strings(v: &Vec<String>) -> (r: Vec<String>)
    ensures
        r.deep_view() == v.deep_view(),
{
    let mut out: Vec<String> = Vec::new();
    let mut i: usize = 0;
    while i < v.len()
        invariant
            i <= v@.len(),
            out@.len() == i,
            forall|k: int| 0 <= k < i ==> #[trigger] out@[k]@ == v@[k]@,
        decreases v.len() - i,
    {
        out.push(v[i].clone());
        i += 1;
    }
    assert(out.deep_view() =~= v.deep_view());
    out
}

pub fn clone_env(v: &Vec<EnvVar>) -> (r: Vec<EnvVar>)
    ensures
        r.deep_view() == v.deep_view(),
{
    let mut out: Vec<EnvVar> = Vec::new();
    let mut i: usize = 0;
    while i < v.len()
        invariant
            i <= v@.len(),
            out@.len() == i,
            forall|k: int| 0 <= k < i ==> #[trigger] out@[k]@ == v@[k]@,
        decreases v.len() - i,
    {
        out.push(v[i].duplicate());
        i += 1;
    }
    assert(out.deep_view() =~= v.deep_view());
    out
}

impl ModelSpec {
    pub fn duplicate(&self) -> (r: Self)
        ensures
            r@ == self@,
    {
        ModelSpec {
            id: self.id.clone(),
            revision: self.revision.clone(),
            quantization: self.quantization.clone(),
            gated: self.gated,
            license: self.license.clone(),
        }
    }
}

impl RuntimeSpec {
    pub fn duplicate(&self) -> (r: Self)
        ensures
            r@ == self@,
    {
        RuntimeSpec {
            image: self.image.clone(),
            engine: self.engine,
            port: self.port,
            args: clone_strings(&self.args),
            env: clone_env(&self.env),
            tensor_parallel: self.tensor_parallel,
            max_model_len: self.max_model_len,
            dtype: self.dtype.clone(),
            tool_call_parser: self.tool_call_parser.clone(),
            reasoning_parser: self.reasoning_parser.clone(),
        }
    }
}

impl HardwareSpec {
    pub fn duplicate(&self) -> (r: Self)
        ensures
            r@ == self@,
    {
        HardwareSpec {
            gpu_class: self.gpu_class.clone(),
            gpu_count: self.gpu_count,
            estimated_vram_gb: self.estimated_vram_gb,
            gpu_memory_utilization: self.gpu_memory_utilization.clone(),
        }
    }
}

impl ServingSpec {
    pub fn duplicate(&self) -> (r: Self)
        ensures
            r@ == self@,
    {
        ServingSpec {
            namespace: self.namespace.clone(),
            service_name: self.service_name.clone(),
            replicas: self.replicas,
            storage_mode: self.storage_mode,
            ingress_policy: self.ingress_policy,
        }
    }
}

impl Recipe {
    pub fn duplicate(&self) -> (r: Self)
        ensures
            r@ == self@,
    {
        Recipe {
            id: self.id.clone(),
            source: self.source,
            model: self.model.duplicate(),
            runtime: self.runtime.duplicate(),
            hardware: self.hardware.duplicate(),
            serving: self.serving.duplicate(),
            provenance: self.provenance.duplicate(),
        }
    }
}

} // verus!
