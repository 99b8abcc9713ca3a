//! The canonical JSON text of a plan and the digest computed from it.
//!
//! The canonical text is the JSON object of the plan's fields without
//! `plan_digest`, keys in byte order, no whitespace; strings are quoted by
//! `serde_json`.
use crate::catalog::types::{
    DeploymentPlan, EnvVar, EnvVarView, IngressPolicy, PlanView, ResourceRequests,
    ResourceRequestsView, RuntimeEngine, StorageMode,
};
use crate::json::{json_quote, json_quoted};
use crate::mcp_core::{compute_digest, is_lower_hex, sha256_hex};
use crate::text::{decimal, join_with, lemma_join_push, u64_to_decimal};
use vstd::prelude::*;

verus! {

pub open spec fn json_array(items: Seq<Seq<char>>) -> Seq<char> {
    "["@ + join_with(items, ","@) + "]"@
}

pub open spec fn json_opt_str(o: Option<Seq<char>>) -> Seq<char> {
    match o {
        Some(s) => json_quoted(s),
        None => "null"@,
    }
}

pub open spec fn json_bool(b: bool) -> Seq<char> {
    if b {
        "true"@
    } else {
        "false"@
    }
}

pub open spec fn json_env(e: EnvVarView) -> Seq<char> {
    "{\"name\":"@ + json_quoted(e.name) + ",\"value\":"@ + json_quoted(e.value) + "}"@
}

pub open spec fn json_env_list(v: Seq<EnvVarView>) -> Seq<char> {
    json_array(v.map_values(|e: EnvVarView| json_env(e)))
}

pub open spec fn json_str_list(v: Seq<Seq<char>>) -> Seq<char> {
    json_array(v.map_values(|s: Seq<char>| json_quoted(s)))
}

pub open spec fn json_resources(r: ResourceRequestsView) -> Seq<char> {
    "{\"cpu\":"@ + json_quoted(r.cpu) + ",\"gpu_count\":"@ + decimal(r.gpu_count as nat) + ",\"memory\":"@
        + json_quoted(r.memory) + "}"@
}

pub open spec fn engine_text(e: RuntimeEngine) -> Seq<char> {
    match e {
        RuntimeEngine::Vllm => "vllm"@,
        RuntimeEngine::Sglang => "sglang"@,
    }
}

pub open spec fn storage_text(m: StorageMode) -> Seq<char> {
    match m {
        StorageMode::Ephemeral => "ephemeral"@,
        StorageMode::ModelCache => "model-cache"@,
    }
}

pub open spec fn ingress_text(p: IngressPolicy) -> Seq<char> {
    match p {
        IngressPolicy::ClusterLocal => "cluster-local"@,
        IngressPolicy::InternalHttp => "internal-http"@,
    }
}

/// The canonical JSON text of a plan, without its digest field.
pub open spec fn plan_json(p: PlanView) -> Seq<char> {
    "{\"env_overrides\":"@ + json_env_list(p.env_overrides) + ",\"ingress_policy\":"@ + json_quoted(
        ingress_text(p.ingress_policy),
    ) + ",\"model_id\":"@ + json_quoted(p.model_id) + ",\"model_path\":"@ + json_quoted(p.model_path)
        + ",\"model_revision\":"@ + json_opt_str(p.model_revision) + ",\"name\":"@ + json_quoted(p.name)
        + ",\"namespace\":"@ + json_quoted(p.namespace) + ",\"readiness_timeout_seconds\":"@ + decimal(
        p.readiness_timeout_seconds as nat,
    ) + ",\"recipe_id\":"@ + json_quoted(p.recipe_id) + ",\"replicas\":"@ + decimal(p.replicas as nat)
        + ",\"resource_requests\":"@ + json_resources(p.resource_requests) + ",\"runtime_args\":"@
        + json_str_list(p.runtime_args) + ",\"runtime_engine\":"@ + json_quoted(engine_text(p.runtime_engine))
        + ",\"runtime_env\":"@ + json_env_list(p.runtime_env) + ",\"runtime_image\":"@ + json_quoted(
        p.runtime_image,
    ) + ",\"runtime_port\":"@ + decimal(p.runtime_port as nat) + ",\"scale_to_zero\":"@ + json_bool(
        p.scale_to_zero,
    ) + ",\"selected_gpu_class\":"@ + json_quoted(p.selected_gpu_class) + ",\"storage_mode\":"@
        + json_quoted(storage_text(p.storage_mode)) + "}"@
}

/// The digest a plan carries: SHA-256 of its canonical JSON text.
pub open spec fn plan_digest_of(p: PlanView) -> Seq<char> {
    sha256_hex(plan_json(p))
}

fn engine_name(e: RuntimeEngine) -> (r: &'static str)
    ensures
        r@ == engine_text(e),
{
    match e {
        RuntimeEngine::Vllm => "vllm",
        RuntimeEngine::Sglang => "sglang",
    }
}

fn storage_name(m: StorageMode) -> (r: &'static str)
    ensures
        r@ == storage_text(m),
{
    match m {
        StorageMode::Ephemeral => "ephemeral",
        StorageMode::ModelCache => "model-cache",
    }
}

fn ingress_name(p: IngressPolicy) -> (r: &'static str)
    ensures
        r@ == ingress_text(p),
{
    match p {
        IngressPolicy::ClusterLocal => "cluster-local",
        IngressPolicy::InternalHttp => "internal-http",
    }
}

fn append_quoted(out: &mut String, s: &str)
    ensures
        final(out)@ == old(out)@ + json_quoted(s@),
{
    let q = json_quote(s);
    out.append(q.as_str());
}

fn append_opt_str(out: &mut String, o: &Option<String>)
    ensures
        final(out)@ == old(out)@ + json_opt_str(o.deep_view()),
{
    match o {
        Some(s) => append_quoted(out, s.as_str()),
        None => out.append("null"),
    }
}

fn append_u64(out: &mut String, n: u64)
    ensures
        final(out)@ == old(out)@ + decimal(n as nat),
{
    let d = u64_to_decimal(n);
    out.append(d.as_str());
}

fn append_env(out: &mut String, e: &EnvVar)
    ensures
        final(out)@ == old(out)@ + json_env(e@),
{
    let ghost start = out@;
    out.append("{\"name\":");
    append_quoted(out, e.name.as_str());
    out.append(",\"value\":");
    append_quoted(out, e.value.as_str());
    out.append("}");
    assert(out@ =~= start + json_env(e@));
}

fn append_env_list(out: &mut String, v: &Vec<EnvVar>)
    ensures
        final(out)@ == old(out)@ + json_env_list(v.deep_view()),
{
    let ghost start = out@;
    let ghost items = v.deep_view().map_values(|e: EnvVarView| json_env(e));
    out.append("[");
    let mut i: usize = 0;
    while i < v.len()
        invariant
            i <= v@.len(),
            items == v.deep_view().map_values(|e: EnvVarView| json_env(e)),
            out@ == start + "["@ + join_with(items.subrange(0, i as int), ","@),
        decreases v.len() - i,
    {
        if i > 0 {
            out.append(",");
        }
        append_env(out, &v[i]);
        proof {
            assert(items.subrange(0, i + 1) =~= items.subrange(0, i as int).push(items[i as int]));
            lemma_join_push(items.subrange(0, i as int), items[i as int], ","@);
        }
        i += 1;
    }
    out.append("]");
    assert(items.subrange(0, v@.len() as int) =~= items);
}

fn append_str_list(out: &mut String, v: &Vec<String>)
    ensures
        final(out)@ == old(out)@ + json_str_list(v.deep_view()),
{
    let ghost start = out@;
    let ghost items = v.deep_view().map_values(|s: Seq<char>| json_quoted(s));
    out.append("[");
    let mut i: usize = 0;
    while i < v.len()
        invariant
            i <= v@.len(),
            items == v.deep_view().map_values(|s: Seq<char>| json_quoted(s)),
            out@ == start + "["@ + join_with(items.subrange(0, i as int), ","@),
        decreases v.len() - i,
    {
        if i > 0 {
            out.append(",");
        }
        append_quoted(out, v[i].as_str());
        proof {
            assert(items.subrange(0, i + 1) =~= items.subrange(0, i as int).push(items[i as int]));
            lemma_join_push(items.subrange(0, i as int), items[i as int], ","@);
        }
        i += 1;
    }
    out.append("]");
    assert(items.subrange(0, v@.len() as int) =~= items);
}

fn append_resources(out: &mut String, r: &ResourceRequests)
    ensures
        final(out)@ == old(out)@ + json_resources(r@),
{
    let ghost start = out@;
    out.append("{\"cpu\":");
    append_quoted(out, r.cpu.as_str());
    out.append(",\"gpu_count\":");
    append_u64(out, r.gpu_count as u64);
    out.append(",\"memory\":");
    append_quoted(out, r.memory.as_str());
    out.append("}");
    assert(out@ =~= start + json_resources(r@));
}

/// The canonical JSON text of the plan without its `plan_digest` field.
pub fn plan_to_digest_input(plan: &DeploymentPlan) -> (r: String)
    ensures
        r@ == plan_json(plan@),
{
    let mut out = String::new();
    out.append("{\"env_overrides\":");
    append_env_list(&mut out, &plan.env_overrides);
    out.append(",\"ingress_policy\":");
    append_quoted(&mut out, ingress_name(plan.ingress_policy));
    out.append(",\"model_id\":");
    append_quoted(&mut out, plan.model_id.as_str());
    out.append(",\"model_path\":");
    append_quoted(&mut out, plan.model_path.as_str());
    out.append(",\"model_revision\":");
    append_opt_str(&mut out, &plan.model_revision);
    out.append(",\"name\":");
    append_quoted(&mut out, plan.name.as_str());
    out.append(",\"namespace\":");
    append_quoted(&mut out, plan.namespace.as_str());
    out.append(",\"readiness_timeout_seconds\":");
    append_u64(&mut out, plan.readiness_timeout_seconds as u64);
    out.append(",\"recipe_id\":");
    append_quoted(&mut out, plan.recipe_id.as_str());
    out.append(",\"replicas\":");
    append_u64(&mut out, plan.replicas as u64);
    out.append(",\"resource_requests\":");
    append_resources(&mut out, &plan.resource_requests);
    out.append(",\"runtime_args\":");
    append_str_list(&mut out, &plan.runtime_args);
    out.append(",\"runtime_engine\":");
    append_quoted(&mut out, engine_name(plan.runtime_engine));
    out.append(",\"runtime_env\":");
    append_env_list(&mut out, &plan.runtime_env);
    out.append(",\"runtime_image\":");
    append_quoted(&mut out, plan.runtime_image.as_str());
    out.append(",\"runtime_port\":");
    append_u64(&mut out, plan.runtime_port as u64);
    out.append(",\"scale_to_zero\":");
    if plan.scale_to_zero {
        out.append("true");
    } else {
        out.append("false");
    }
    out.append(",\"selected_gpu_class\":");
    append_quoted(&mut out, plan.selected_gpu_class.as_str());
    out.append(",\"storage_mode\":");
    append_quoted(&mut out, storage_name(plan.storage_mode));
    out.append("}");
    assert(out@ =~= plan_json(plan@));
    out
}

/// The plan's digest: 64 lower-case hexadecimal characters.
pub fn compute_plan_digest(plan: &DeploymentPlan) -> (r: String)
    ensures
        r@ == plan_digest_of(plan@),
        r@.len() == 64,
        forall|i: int| 0 <= i < r@.len() ==> is_lower_hex(#[trigger] r@[i]),
{
    let input = plan_to_digest_input(plan);
    compute_digest(input.as_str())
}

/// The digest never reads the digest field: two plans that differ only in
/// `plan_digest` have the same canonical text and the same digest.
pub proof fn law_digest_excludes_itself(p: PlanView, other_digest: Seq<char>)
    ensures
        plan_json(PlanView { plan_digest: other_digest, ..p }) == plan_json(p),
        plan_digest_of(PlanView { plan_digest: other_digest, ..p }) == plan_digest_of(p),
{
}

} // verus!
