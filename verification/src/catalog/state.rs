//! Runtime profiles and the stored records of recipes and deployments.
use crate::catalog::types::{EnvVar, EnvVarView, Recipe, RecipeView, ResourceRequests, ResourceRequestsView};
use vstd::prelude::*;

verus! {

#[derive(Clone, Copy, Debug, PartialEq, Eq, Structural)]
pub enum RendererMode {
    Kserve,
    DirectVllm,
    ExternalOpenAiCompatible,
    MacMiniMlx,
}

#[derive(Clone, Debug, PartialEq, Eq)]
pub struct RuntimeProfile {
    pub id: String,
    pub target: String,
    pub renderer_mode: RendererMode,
    pub allowed_images: Vec<String>,
    pub allowed_model_roots: Vec<String>,
    pub max_resources: ResourceRequests,
    pub default_resources: ResourceRequests,
}

impl RuntimeProfile {
    /// The vLLM-on-KServe profile for the Spark GPU node.
    pub fn spark_vllm_medium() -> (r: Self)
        ensures
            r.id@ == "spark-vllm-medium"@,
            r.target@ == "spark"@,
            r.renderer_mode == RendererMode::Kserve,
            r.allowed_images.deep_view() == seq!["vllm/vllm-openai:latest"@],
            r.allowed_model_roots.deep_view() == seq!["/mnt/nas/models"@],
            r.max_resources@ == (ResourceRequestsView { cpu: "16"@, memory: "96Gi"@, gpu_count: 1 }),
            r.default_resources@ == (ResourceRequestsView { cpu: "2"@, memory: "16Gi"@, gpu_count: 1 }),
    {
        let mut images = Vec::new();
        images.push("vllm/vllm-openai:latest".to_owned());
        let mut roots = Vec::new();
        roots.push("/mnt/nas/models".to_owned());
        let r = RuntimeProfile {
            id: "spark-vllm-medium".to_owned(),
            target: "spark".to_owned(),
            renderer_mode: RendererMode::Kserve,
            allowed_images: images,
            allowed_model_roots: roots,
            max_resources: ResourceRequests { cpu: "16".to_owned(), memory: "96Gi".to_owned(), gpu_count: 1 },
            default_resources: ResourceRequests { cpu: "2".to_owned(), memory: "16Gi".to_owned(), gpu_count: 1 },
        };
        assert(r.allowed_images.deep_view() =~= seq!["vllm/vllm-openai:latest"@]);
        assert(r.allowed_model_roots.deep_view() =~= seq!["/mnt/nas/models"@]);
        r
    }
}

#[derive(Clone, Debug, PartialEq, Eq)]
pub struct RuntimeRecipeRecord {
    pub recipe: Recipe,
    pub created_by: String,
    pub created_at: String,
    pub updated_at: String,
}

pub struct RecipeRecordView {
    pub recipe: RecipeView,
    pub created_by: Seq<char>,
    pub created_at: Seq<char>,
    pub updated_at: Seq<char>,
}

impl View for RuntimeRecipeRecord {
    type V = RecipeRecordView;

    open spec fn view(&self) -> RecipeRecordView {
        RecipeRecordView {
            recipe: self.recipe@,
            created_by: self.created_by@,
            created_at: self.created_at@,
            updated_at: self.updated_at@,
        }
    }
}

#[derive(Clone, Copy, Debug, PartialEq, Eq, Structural)]
pub enum DeploymentState {
    Planned,
    Applying,
    Ready,
    Failed,
    Stopped,
}

#[derive(Clone, Debug, PartialEq, Eq)]
pub struct RuntimeDeploymentRecord {
    pub name: String,
    pub namespace: String,
    pub recipe_id: String,
    pub target: String,
    pub runtime_args: Vec<String>,
    pub runtime_env: Vec<EnvVar>,
    pub resources: ResourceRequests,
    pub status: DeploymentState,
    pub last_plan_digest: String,
    pub created_by: String,
    pub created_at: String,
    pub failure_reason: Option<String>,
}

pub struct DeploymentRecordView {
    pub name: Seq<char>,
    pub namespace: Seq<char>,
    pub recipe_id: Seq<char>,
    pub target: Seq<char>,
    pub runtime_args: Seq<Seq<char>>,
    pub runtime_env: Seq<EnvVarView>,
    pub resources: ResourceRequestsView,
    pub status: DeploymentState,
    pub last_plan_digest: Seq<char>,
    pub created_by: Seq<char>,
    pub created_at: Seq<char>,
    pub failure_reason: Option<Seq<char>>,
}

impl View for RuntimeDeploymentRecord {
    type V = DeploymentRecordView;

    open spec fn view(&self) -> DeploymentRecordView {
        DeploymentRecordView {
            name: self.name@,
            namespace: self.namespace@,
            recipe_id: self.recipe_id@,
            target: self.target@,
            runtime_args: self.runtime_args.deep_view(),
            runtime_env: self.runtime_env.deep_view(),
            resources: self.resources@,
            status: self.status,
            last_plan_digest: self.last_plan_digest@,
            created_by: self.created_by@,
            created_at: self.created_at@,
            failure_reason: self.failure_reason.deep_view(),
        }
    }
}

} // verus!
