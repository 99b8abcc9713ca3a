//! Specs and statuses of the `ModelRecipe` and `ModelDeployment` custom
//! resources, and their conversions to and from the stored records.
use crate::catalog::state::{
    DeploymentRecordView, DeploymentState, RecipeRecordView, RuntimeDeploymentRecord,
    RuntimeRecipeRecord,
};
use crate::catalog::types::{
    clone_env, clone_strings, EnvVar, EnvVarView, Recipe, RecipeView, ResourceRequests,
    ResourceRequestsView,
};
use vstd::prelude::*;

verus! {

pub const MODEL_CRD_GROUP: &'static str = "models.saavylab.dev";

pub const MODEL_CRD_VERSION: &'static str = "v1alpha1";

#[derive(Clone, Debug, PartialEq, Eq)]
pub struct ModelRecipeSpec {
    pub recipe: Recipe,
    pub created_by: String,
    pub created_at: String,
    pub updated_at: String,
}

impl View for ModelRecipeSpec {
    type V = RecipeRecordView;

    open spec fn view(&self) -> RecipeRecordView {
        RecipeRecordView {
            recipe: self.recipe@,
            created_by: self.created_by@,
            created_at: self.created_at@,
            updated_at: self.updated_at@,
        }
    }
}

#[derive(Clone, Debug, Default, PartialEq, Eq)]
pub struct ModelRecipeStatus {
    pub observed_generation: Option<i64>,
}

#[derive(Clone, Debug, PartialEq, Eq)]
pub struct ModelDeploymentSpec {
    pub name: String,
    pub namespace: String,
    pub recipe_id: String,
    pub target: String,
    pub runtime_args: Vec<String>,
    pub runtime_env: Vec<EnvVar>,
    pub resources: ResourceRequests,
    pub last_plan_digest: String,
    pub created_by: String,
    pub created_at: String,
}

pub struct DeploymentSpecView {
    pub name: Seq<char>,
    pub namespace: Seq<char>,
    pub recipe_id: Seq<char>,
    pub target: Seq<char>,
    pub runtime_args: Seq<Seq<char>>,
    pub runtime_env: Seq<EnvVarView>,
    pub resources: ResourceRequestsView,
    pub last_plan_digest: Seq<char>,
    pub created_by: Seq<char>,
    pub created_at: Seq<char>,
}

impl View for ModelDeploymentSpec {
    type V = DeploymentSpecView;

    open spec fn view(&self) -> DeploymentSpecView {
        DeploymentSpecView {
            name: self.name@,
            namespace: self.namespace@,
            recipe_id: self.recipe_id@,
            target: self.target@,
            runtime_args: self.runtime_args.deep_view(),
            runtime_env: self.runtime_env.deep_view(),
            resources: self.resources@,
            last_plan_digest: self.last_plan_digest@,
            created_by: self.created_by@,
            created_at: self.created_at@,
        }
    }
}

#[derive(Clone, Debug, PartialEq, Eq)]
pub struct ModelDeploymentStatus {
    pub state: DeploymentState,
    pub observed_generation: Option<i64>,
    pub last_transition_time: Option<String>,
    pub failure_reason: Option<String>,
    pub kserve_ready: bool,
    pub url: Option<String>,
}

pub struct DeploymentStatusView {
    pub state: DeploymentState,
    pub observed_generation: Option<i64>,
    pub last_transition_time: Option<Seq<char>>,
    pub failure_reason: Option<Seq<char>>,
    pub kserve_ready: bool,
    pub url: Option<Seq<char>>,
}

impl View for ModelDeploymentStatus {
    type V = DeploymentStatusView;

    open spec fn view(&self) -> DeploymentStatusView {
        DeploymentStatusView {
            state: self.state,
            observed_generation: self.observed_generation,
            last_transition_time: self.last_transition_time.deep_view(),
            failure_reason: self.failure_reason.deep_view(),
            kserve_ready: self.kserve_ready,
            url: self.url.deep_view(),
        }
    }
}

pub open spec fn default_status_view() -> DeploymentStatusView {
    DeploymentStatusView {
        state: DeploymentState::Applying,
        observed_generation: None,
        last_transition_time: None,
        failure_reason: None,
        kserve_ready: false,
        url: None,
    }
}

impl Default for ModelDeploymentStatus {
    /// A deployment whose status was never written is taken to be applying.
    fn default() -> (r: Self)
        ensures
            r@ == default_status_view(),
    {
        ModelDeploymentStatus {
            state: DeploymentState::Applying,
            observed_generation: None,
            last_transition_time: None,
            failure_reason: None,
            kserve_ready: false,
            url: None,
        }
    }
}

impl ModelDeploymentStatus {
    pub fn duplicate(&self) -> (r: Self)
        ensures
            r@ == self@,
    {
        ModelDeploymentStatus {
            state: self.state,
            observed_generation: self.observed_generation,
            last_transition_time: self.last_transition_time.clone(),
            failure_reason: self.failure_reason.clone(),
            kserve_ready: self.kserve_ready,
            url: self.url.clone(),
        }
    }
}

// ---------------------------------------------------------------------------
// Conversions, as functions on the models
// ---------------------------------------------------------------------------

pub open spec fn spec_of_deployment(r: DeploymentRecordView) -> DeploymentSpecView {
    DeploymentSpecView {
        name: r.name,
        namespace: r.namespace,
        recipe_id: r.recipe_id,
        target: r.target,
        runtime_args: r.runtime_args,
        runtime_env: r.runtime_env,
        resources: r.resources,
        last_plan_digest: r.last_plan_digest,
        created_by: r.created_by,
        created_at: r.created_at,
    }
}

pub open spec fn status_of_deployment(r: DeploymentRecordView) -> DeploymentStatusView {
    DeploymentStatusView {
        state: r.status,
        observed_generation: None,
        last_transition_time: Some(r.created_at),
        failure_reason: r.failure_reason,
        kserve_ready: r.status == DeploymentState::Ready,
        url: None,
    }
}

pub open spec fn record_of_parts(spec: DeploymentSpecView, status: Option<DeploymentStatusView>) -> DeploymentRecordView {
    let st = match status {
        Some(s) => s,
        None => default_status_view(),
    };
    DeploymentRecordView {
        name: spec.name,
        namespace: spec.namespace,
        recipe_id: spec.recipe_id,
        target: spec.target,
        runtime_args: spec.runtime_args,
        runtime_env: spec.runtime_env,
        resources: spec.resources,
        status: st.state,
        last_plan_digest: spec.last_plan_digest,
        created_by: spec.created_by,
        created_at: spec.created_at,
        failure_reason: st.failure_reason,
    }
}

/// The `ModelRecipe` spec of a record carries the record's fields.
pub open spec fn recipe_spec_of_record(r: RecipeRecordView) -> RecipeRecordView {
    RecipeRecordView { recipe: r.recipe, created_by: r.created_by, created_at: r.created_at, updated_at: r.updated_at }
}

/// The record read back from a `ModelRecipe` spec carries the spec's fields.
pub open spec fn recipe_record_of_spec(s: RecipeRecordView) -> RecipeRecordView {
    RecipeRecordView { recipe: s.recipe, created_by: s.created_by, created_at: s.created_at, updated_at: s.updated_at }
}

pub fn recipe_record_to_spec(record: &RuntimeRecipeRecord) -> (r: ModelRecipeSpec)
    ensures
        r@ == recipe_spec_of_record(record@),
{
    ModelRecipeSpec {
        recipe: record.recipe.duplicate(),
        created_by: record.created_by.clone(),
        created_at: record.created_at.clone(),
        updated_at: record.updated_at.clone(),
    }
}

pub fn recipe_spec_to_record(spec: &ModelRecipeSpec) -> (r: RuntimeRecipeRecord)
    ensures
        r@ == recipe_record_of_spec(spec@),
{
    RuntimeRecipeRecord {
        recipe: spec.recipe.duplicate(),
        created_by: spec.created_by.clone(),
        created_at: spec.created_at.clone(),
        updated_at: spec.updated_at.clone(),
    }
}

pub fn deployment_record_to_spec(record: &RuntimeDeploymentRecord) -> (r: ModelDeploymentSpec)
    ensures
        r@ == spec_of_deployment(record@),
{
    ModelDeploymentSpec {
        name: record.name.clone(),
        namespace: record.namespace.clone(),
        recipe_id: record.recipe_id.clone(),
        target: record.target.clone(),
        runtime_args: clone_strings(&record.runtime_args),
        runtime_env: clone_env(&record.runtime_env),
        resources: record.resources.duplicate(),
        last_plan_digest: record.last_plan_digest.clone(),
        created_by: record.created_by.clone(),
        created_at: record.created_at.clone(),
    }
}

pub fn deployment_record_to_status(record: &RuntimeDeploymentRecord) -> (r: ModelDeploymentStatus)
    ensures
        r@ == status_of_deployment(record@),
{
    ModelDeploymentStatus {
        state: record.status,
        observed_generation: None,
        last_transition_time: Some(record.created_at.clone()),
        failure_reason: record.failure_reason.clone(),
        kserve_ready: record.status == DeploymentState::Ready,
        url: None,
    }
}

pub fn deployment_parts_to_record(
    spec: &ModelDeploymentSpec,
    status: Option<&ModelDeploymentStatus>,
) -> (r: RuntimeDeploymentRecord)
    ensures
        r@ == record_of_parts(
            spec@,
            match status {
                Some(s) => Some(s@),
                None => None,
            },
        ),
{
    let status = match status {
        Some(s) => s.duplicate(),
        None => ModelDeploymentStatus::default(),
    };
    RuntimeDeploymentRecord {
        name: spec.name.clone(),
        namespace: spec.namespace.clone(),
        recipe_id: spec.recipe_id.clone(),
        target: spec.target.clone(),
        runtime_args: clone_strings(&spec.runtime_args),
        runtime_env: clone_env(&spec.runtime_env),
        resources: spec.resources.duplicate(),
        status: status.state,
        last_plan_digest: spec.last_plan_digest.clone(),
        created_by: spec.created_by.clone(),
        created_at: spec.created_at.clone(),
        failure_reason: status.failure_reason,
    }
}

/// Storing a deployment record as a spec and a status and reading it back
/// gives the same record.
pub proof fn law_deployment_record_round_trip(r: DeploymentRecordView)
    ensures
        record_of_parts(spec_of_deployment(r), Some(status_of_deployment(r))) == r,
{
}

/// A recipe record survives the trip through a `ModelRecipe` spec unchanged.
pub proof fn law_recipe_record_round_trip(r: RecipeRecordView)
    ensures
        recipe_record_of_spec(recipe_spec_of_record(r)) == r,
{
}

} // verus!
