//! Turning a recipe, a cluster profile and operator overrides into a
//! deployment plan, and checking that the plan fits the cluster.
use crate::catalog::digest::{compute_plan_digest, plan_digest_of};
use crate::catalog::profile::{
    find_node_with_role, first_with_role, has_role, roles_contain, ClusterProfile, NodeProfile,
    NodeRole,
};
use crate::catalog::types::{
    clone_env, clone_strings, DeploymentPlan, EnvVar, EnvVarView, PlanView, Recipe, RecipeView,
    ResourceRequests, ResourceRequestsView, RuntimeEngine, StorageMode,
};
use crate::mcp_core::{
    dns_name_spec, is_lower_hex, issue_view, sanitize_dns_name, IssueView, ToolResult,
    ValidationIssue, RiskLevel,
};
use crate::text::{contains, contains_sub, decimal, has_prefix, join_with, lemma_join_push, strings_contain, starts_with, str_eq, to_lowercase, u64_to_decimal, unicode_lowercase};
use vstd::prelude::*;
use vstd::utf8::{encode_utf8, is_char_boundary};

verus! {

/// What an operator may change about a recipe when deploying it.
#[derive(Clone, Debug, PartialEq, Eq)]
pub struct DeployOverrides {
    pub name: Option<String>,
    pub namespace: Option<String>,
    pub replicas: Option<u32>,
    pub runtime_args: Vec<String>,
    pub runtime_env: Vec<EnvVar>,
    pub env_overrides: Vec<EnvVar>,
    pub resource_requests: Option<ResourceRequests>,
    pub readiness_timeout_seconds: Option<u32>,
}

pub struct OverridesView {
    pub name: Option<Seq<char>>,
    pub namespace: Option<Seq<char>>,
    pub replicas: Option<u32>,
    pub runtime_args: Seq<Seq<char>>,
    pub runtime_env: Seq<EnvVarView>,
    pub env_overrides: Seq<EnvVarView>,
    pub resource_requests: Option<ResourceRequestsView>,
    pub readiness_timeout_seconds: Option<u32>,
}

impl View for DeployOverrides {
    type V = OverridesView;

    open spec fn view(&self) -> OverridesView {
        OverridesView {
            name: self.name.deep_view(),
            namespace: self.namespace.deep_view(),
            replicas: self.replicas,
            runtime_args: self.runtime_args.deep_view(),
            runtime_env: self.runtime_env.deep_view(),
            env_overrides: self.env_overrides.deep_view(),
            resource_requests: match self.resource_requests {
                Some(r) => Some(r@),
                None => None,
            },
            readiness_timeout_seconds: self.readiness_timeout_seconds,
        }
    }
}

impl DeployOverrides {
    /// No overrides at all: the plan follows the recipe.
    pub fn empty() -> (r: Self)
        ensures
            r@.name is None,
            r@.namespace is None,
            r@.replicas is None,
            r@.runtime_args.len() == 0,
            r@.runtime_env.len() == 0,
            r@.env_overrides.len() == 0,
            r@.resource_requests is None,
            r@.readiness_timeout_seconds is None,
    {
        DeployOverrides {
            name: None,
            namespace: None,
            replicas: None,
            runtime_args: Vec::new(),
            runtime_env: Vec::new(),
            env_overrides: Vec::new(),
            resource_requests: None,
            readiness_timeout_seconds: None,
        }
    }
}

// ---------------------------------------------------------------------------
// Merging runtime arguments and environment
// ---------------------------------------------------------------------------

/// An argument that names an option (`--name` or `--name=value`), as
/// opposed to a value that follows one.
pub open spec fn is_option(a: Seq<char>) -> bool {
    has_prefix(a, "--"@)
}

/// The recipe's arguments followed by the override arguments in order; an
/// option already present is not repeated, while a value is always kept, so
/// that two options with the same value each keep it.
pub open spec fn merged_args(d: Seq<Seq<char>>, ov: Seq<Seq<char>>) -> Seq<Seq<char>>
    decreases ov.len(),
{
    if ov.len() == 0 {
        d
    } else {
        let m = merged_args(d, ov.drop_last());
        if is_option(ov.last()) && m.contains(ov.last()) {
            m
        } else {
            m.push(ov.last())
        }
    }
}

/// `v` without the entries named `name`, order kept.
pub open spec fn without_name(v: Seq<EnvVarView>, name: Seq<char>) -> Seq<EnvVarView>
    decreases v.len(),
{
    if v.len() == 0 {
        v
    } else {
        let w = without_name(v.drop_last(), name);
        if v.last().name == name {
            w
        } else {
            w.push(v.last())
        }
    }
}

/// Each override entry replaces every earlier entry with its name and goes to the end.
pub open spec fn merged_env(d: Seq<EnvVarView>, ov: Seq<EnvVarView>) -> Seq<EnvVarView>
    decreases ov.len(),
{
    if ov.len() == 0 {
        d
    } else {
        without_name(merged_env(d, ov.drop_last()), ov.last().name).push(ov.last())
    }
}

pub fn merge_args(default_args: &Vec<String>, override_args: &Vec<String>) -> (r: Vec<String>)
    ensures
        r.deep_view() == merged_args(default_args.deep_view(), override_args.deep_view()),
{
    let mut merged = clone_strings(default_args);
    let ghost d = default_args.deep_view();
    let ghost ov = override_args.deep_view();
    let mut i: usize = 0;
    assert(ov.subrange(0, 0) =~= Seq::<Seq<char>>::empty());
    while i < override_args.len()
        invariant
            i <= override_args@.len(),
            d == default_args.deep_view(),
            ov == override_args.deep_view(),
            merged.deep_view() == merged_args(d, ov.subrange(0, i as int)),
        decreases override_args.len() - i,
    {
        let arg = &override_args[i];
        let present = starts_with(arg.as_str(), "--") && strings_contain(&merged, arg);
        assert(ov.subrange(0, i + 1).drop_last() =~= ov.subrange(0, i as int));
        assert(ov.subrange(0, i + 1).last() == arg@);
        if !present {
            merged.push(arg.clone());
            assert(merged.deep_view() =~= merged_args(d, ov.subrange(0, i as int)).push(arg@));
        }
        i += 1;
    }
    assert(ov.subrange(0, ov.len() as int) =~= ov);
    merged
}

fn without_name_exec(v: Vec<EnvVar>, name: &String) -> (r: Vec<EnvVar>)
    ensures
        r.deep_view() == without_name(v.deep_view(), name@),
{
    let mut out: Vec<EnvVar> = Vec::new();
    let ghost vv = v.deep_view();
    let mut i: usize = 0;
    assert(vv.subrange(0, 0) =~= Seq::<EnvVarView>::empty());
    while i < v.len()
        invariant
            i <= v@.len(),
            vv == v.deep_view(),
            out.deep_view() == without_name(vv.subrange(0, i as int), name@),
        decreases v.len() - i,
    {
        assert(vv.subrange(0, i + 1).drop_last() =~= vv.subrange(0, i as int));
        assert(vv.subrange(0, i + 1).last() == v@[i as int]@);
        if !str_eq(v[i].name.as_str(), name.as_str()) {
            out.push(v[i].duplicate());
            assert(out.deep_view() =~= without_name(vv.subrange(0, i as int), name@).push(v@[i as int]@));
        }
        i += 1;
    }
    assert(vv.subrange(0, vv.len() as int) =~= vv);
    out
}

pub fn merge_env(default_env: &Vec<EnvVar>, override_env: &Vec<EnvVar>) -> (r: Vec<EnvVar>)
    ensures
        r.deep_view() == merged_env(default_env.deep_view(), override_env.deep_view()),
{
    let mut merged = clone_env(default_env);
    let ghost d = default_env.deep_view();
    let ghost ov = override_env.deep_view();
    let mut i: usize = 0;
    assert(ov.subrange(0, 0) =~= Seq::<EnvVarView>::empty());
    while i < override_env.len()
        invariant
            i <= override_env@.len(),
            d == default_env.deep_view(),
            ov == override_env.deep_view(),
            merged.deep_view() == merged_env(d, ov.subrange(0, i as int)),
        decreases override_env.len() - i,
    {
        let item = &override_env[i];
        assert(ov.subrange(0, i + 1).drop_last() =~= ov.subrange(0, i as int));
        assert(ov.subrange(0, i + 1).last() == item@);
        merged = without_name_exec(merged, &item.name);
        merged.push(item.duplicate());
        assert(merged.deep_view() =~= merged_env(d, ov.subrange(0, i + 1)));
        i += 1;
    }
    assert(ov.subrange(0, ov.len() as int) =~= ov);
    merged
}

/// How many of `ov` are values rather than options.
pub open spec fn value_count(ov: Seq<Seq<char>>) -> nat
    decreases ov.len(),
{
    if ov.len() == 0 {
        0
    } else if is_option(ov.last()) {
        value_count(ov.drop_last())
    } else {
        value_count(ov.drop_last()) + 1
    }
}

/// No option occurs twice (values may).
pub open spec fn no_repeated_options(s: Seq<Seq<char>>) -> bool {
    forall|i: int, j: int|
        0 <= i < s.len() && 0 <= j < s.len() && i != j && is_option(s[i]) ==> s[i] != s[j]
}

/// Merging arguments keeps the recipe's arguments as a prefix, includes every
/// override argument, adds nothing else, keeps every override value, and
/// repeats no option.
pub proof fn law_merge_args(d: Seq<Seq<char>>, ov: Seq<Seq<char>>)
    ensures
        merged_args(d, ov).len() >= d.len(),
        merged_args(d, ov).subrange(0, d.len() as int) == d,
        forall|k: int| 0 <= k < ov.len() ==> merged_args(d, ov).contains(#[trigger] ov[k]),
        forall|x: Seq<char>| merged_args(d, ov).contains(x) ==> d.contains(x) || ov.contains(x),
        merged_args(d, ov).len() >= d.len() + value_count(ov),
        no_repeated_options(d) ==> no_repeated_options(merged_args(d, ov)),
    decreases ov.len(),
{
    if ov.len() > 0 {
        let p = ov.drop_last();
        law_merge_args(d, p);
        let m = merged_args(d, p);
        let last = ov.last();
        let r = merged_args(d, ov);
        assert(r.subrange(0, d.len() as int) =~= m.subrange(0, d.len() as int));
        assert forall|k: int| 0 <= k < ov.len() implies r.contains(#[trigger] ov[k]) by {
            if k < ov.len() - 1 {
                assert(ov[k] == p[k]);
                assert(m.contains(p[k]));
                let j = choose|j: int| 0 <= j < m.len() && m[j] == p[k];
                assert(r[j] == m[j]);
            } else {
                if !m.contains(last) {
                    assert(r[m.len() as int] == last);
                }
            }
        }
        assert forall|x: Seq<char>| r.contains(x) implies d.contains(x) || ov.contains(x) by {
            let j = choose|j: int| 0 <= j < r.len() && r[j] == x;
            if j < m.len() {
                assert(m[j] == x);
                assert(m.contains(x));
                if p.contains(x) {
                    let q = choose|q: int| 0 <= q < p.len() && p[q] == x;
                    assert(ov[q] == x);
                }
            } else {
                assert(ov[ov.len() - 1] == x);
            }
        }
        if no_repeated_options(d) {
            assert forall|i: int, j: int|
                0 <= i < r.len() && 0 <= j < r.len() && i != j && is_option(r[i]) implies r[i] != r[j] by {
                if i < m.len() && j < m.len() {
                } else if i < m.len() {
                    assert(m[i] == r[i]);
                } else {
                    assert(m[j] == r[j]);
                }
            }
        }
    }
}

pub proof fn lemma_without_name_members(v: Seq<EnvVarView>, name: Seq<char>)
    ensures
        forall|x: EnvVarView| #[trigger] without_name(v, name).contains(x) <==> (v.contains(x) && x.name != name),
    decreases v.len(),
{
    if v.len() > 0 {
        let p = v.drop_last();
        lemma_without_name_members(p, name);
        let w = without_name(p, name);
        let r = without_name(v, name);
        assert forall|x: EnvVarView| r.contains(x) <==> (v.contains(x) && x.name != name) by {
            if r.contains(x) {
                let j = choose|j: int| 0 <= j < r.len() && r[j] == x;
                if j < w.len() {
                    assert(w[j] == x);
                    assert(w.contains(x));
                    assert(p.contains(x) && x.name != name);
                    let q = choose|q: int| 0 <= q < p.len() && p[q] == x;
                    assert(v[q] == p[q]);
                    assert(v.contains(x));
                } else {
                    assert(v[v.len() - 1] == x);
                    assert(v.contains(x));
                }
            }
            if v.contains(x) && x.name != name {
                let q = choose|q: int| 0 <= q < v.len() && v[q] == x;
                if q < v.len() - 1 {
                    assert(p[q] == x);
                    assert(p.contains(x));
                    assert(w.contains(x));
                    let j = choose|j: int| 0 <= j < w.len() && w[j] == x;
                    assert(r[j] == x);
                } else {
                    assert(r[r.len() - 1] == x);
                }
            }
        }
    }
}

/// The last override with a given name wins: the merged environment holds
/// that entry and no other entry with its name.
pub proof fn law_merge_env_last_override_wins(d: Seq<EnvVarView>, ov: Seq<EnvVarView>, k: int)
    requires
        0 <= k < ov.len(),
        forall|j: int| k < j < ov.len() ==> (#[trigger] ov[j]).name != ov[k].name,
    ensures
        merged_env(d, ov).contains(ov[k]),
        forall|x: EnvVarView| merged_env(d, ov).contains(x) && x.name == ov[k].name ==> x == ov[k],
    decreases ov.len(),
{
    let p = ov.drop_last();
    let last = ov.last();
    let m = merged_env(d, p);
    let w = without_name(m, last.name);
    let r = merged_env(d, ov);
    lemma_without_name_members(m, last.name);
    if k == ov.len() - 1 {
        assert(r[r.len() - 1] == last);
        assert forall|x: EnvVarView| r.contains(x) && x.name == ov[k].name implies x == ov[k] by {
            let j = choose|j: int| 0 <= j < r.len() && r[j] == x;
            if j < w.len() {
                assert(w[j] == x);
                assert(w.contains(x));
                assert(x.name != last.name);
            }
        }
    } else {
        assert forall|j: int| k < j < p.len() implies (#[trigger] p[j]).name != p[k].name by {
            assert(p[j] == ov[j]);
        }
        law_merge_env_last_override_wins(d, p, k);
        assert(p[k] == ov[k]);
        assert(ov[ov.len() - 1].name != ov[k].name);
        assert(w.contains(ov[k]));
        let j = choose|j: int| 0 <= j < w.len() && w[j] == ov[k];
        assert(r[j] == ov[k]);
        assert forall|x: EnvVarView| r.contains(x) && x.name == ov[k].name implies x == ov[k] by {
            let q = choose|q: int| 0 <= q < r.len() && r[q] == x;
            if q < w.len() {
                assert(w[q] == x);
                assert(w.contains(x));
                assert(m.contains(x));
            }
        }
    }
}

// ---------------------------------------------------------------------------
// Fit validation
// ---------------------------------------------------------------------------

pub open spec fn node_has_gpu_class(n: NodeProfile, class_lower: Seq<char>) -> bool {
    has_role(n, NodeRole::GpuWorker) && match n.gpu_product {
        Some(p) => contains_sub(unicode_lowercase(p@), class_lower),
        None => false,
    }
}

/// The GPU products of the GPU workers, in node order.
pub open spec fn gpu_products(nodes: Seq<NodeProfile>) -> Seq<Seq<char>>
    decreases nodes.len(),
{
    if nodes.len() == 0 {
        Seq::empty()
    } else {
        let rest = gpu_products(nodes.drop_last());
        let n = nodes.last();
        if has_role(n, NodeRole::GpuWorker) && n.gpu_product is Some {
            rest.push(n.gpu_product.unwrap()@)
        } else {
            rest
        }
    }
}

/// Every GPU worker that names its GPU product gives that product, in node
/// order, and no other node gives one; the products of two runs of nodes put
/// together are those of the first followed by those of the second.
pub proof fn law_gpu_products_list_every_gpu_worker(items: Seq<NodeProfile>, more: Seq<NodeProfile>)
    ensures
        gpu_products(items) == items.filter_map(|v: NodeProfile| if has_role(v, NodeRole::GpuWorker) && v.gpu_product is Some { Some(v.gpu_product.unwrap()@) } else { None }),
        gpu_products(items + more) == gpu_products(items) + gpu_products(more),
        gpu_products(items).len() <= items.len(),
    decreases items.len() + more.len(),
{
    if items.len() > 0 {
        law_gpu_products_list_every_gpu_worker(items.drop_last(), Seq::empty());
        let v = items.last();
        match if has_role(v, NodeRole::GpuWorker) && v.gpu_product is Some { Some(v.gpu_product.unwrap()@) } else { None } {
            Some(x) => {
                assert(gpu_products(items.drop_last()).push(x) =~= gpu_products(items.drop_last()) + seq![x]);
            },
            None => {},
        }
    }
    if more.len() > 0 {
        law_gpu_products_list_every_gpu_worker(items, more.drop_last());
        assert((items + more).drop_last() =~= items + more.drop_last());
        assert((items + more).last() == more.last());
        let v = more.last();
        match if has_role(v, NodeRole::GpuWorker) && v.gpu_product is Some { Some(v.gpu_product.unwrap()@) } else { None } {
            Some(x) => {
                assert((gpu_products(items) + gpu_products(more.drop_last())).push(x) =~= gpu_products(items)
                    + gpu_products(more.drop_last()).push(x));
            },
            None => {},
        }
    } else {
        assert(items + more =~= items);
        assert(gpu_products(items) + gpu_products(more) =~= gpu_products(items));
    }
}

pub open spec fn gpu_count_issue(requested: u32, max: u32) -> IssueView {
    issue_view(
        "resource_requests.gpu_count"@,
        "plan requests "@ + decimal(requested as nat) + " GPU(s), cluster permits "@ + decimal(
            max as nat,
        ) + " GPU(s) per pod"@,
        Some("1..="@ + decimal(max as nat)),
    )
}

pub open spec fn gpu_class_issue(class: Seq<char>, nodes: Seq<NodeProfile>) -> IssueView {
    issue_view(
        "hardware.gpu_class"@,
        "cluster has no GPU class matching "@ + class,
        Some(join_with(gpu_products(nodes), ","@)),
    )
}

pub open spec fn storage_issue() -> IssueView {
    issue_view(
        "serving.storage_mode"@,
        "recipe expects model cache but GPU node has no model_path"@,
        Some("ephemeral"@),
    )
}

pub open spec fn gated_issue() -> IssueView {
    issue_view(
        "model.gated"@,
        "model requires gated access but no HF token secret is configured"@,
        Some("configure hf_secret_name in ModelStorage"@),
    )
}

pub open spec fn gpu_node_lacks_model_path(nodes: Seq<NodeProfile>) -> bool {
    let k = first_with_role(nodes, NodeRole::GpuWorker);
    k >= nodes.len() || nodes[k].model_path is None
}

pub open spec fn issue_if(b: bool, issue: IssueView) -> Seq<IssueView> {
    if b {
        seq![issue]
    } else {
        Seq::empty()
    }
}

/// The issues that keep a plan from fitting the cluster, in the order they are checked.
pub open spec fn fit_issues(recipe: RecipeView, profile: ClusterProfile, plan: PlanView) -> Seq<IssueView> {
    let nodes = profile.nodes@;
    issue_if(
        plan.resource_requests.gpu_count > profile.max_gpu_per_pod,
        gpu_count_issue(plan.resource_requests.gpu_count, profile.max_gpu_per_pod),
    ) + issue_if(
        !(exists|i: int|
            0 <= i < nodes.len() && node_has_gpu_class(
                #[trigger] nodes[i],
                unicode_lowercase(plan.selected_gpu_class),
            )),
        gpu_class_issue(plan.selected_gpu_class, nodes),
    ) + issue_if(
        plan.storage_mode == StorageMode::ModelCache && gpu_node_lacks_model_path(nodes),
        storage_issue(),
    ) + issue_if(
        (match recipe.model.gated {
            Some(g) => g,
            None => false,
        }) && profile.model_storage.hf_secret_name@.len() == 0,
        gated_issue(),
    )
}

/// A gated model on a cluster whose model storage names no HF token secret is
/// reported with a `model.gated` issue, the last one checked; a model that is
/// not gated, or a cluster that names a secret, never is.
pub proof fn law_gated_model_needs_a_token_secret(recipe: RecipeView, profile: ClusterProfile, plan: PlanView)
    ensures
        ({
            let issues = fit_issues(recipe, profile, plan);
            let needs = recipe.model.gated == Some(true) && profile.model_storage.hf_secret_name@.len() == 0;
            &&& (exists|i: int| 0 <= i < issues.len() && (#[trigger] issues[i]).field == "model.gated"@)
                <==> needs
            &&& needs ==> issues.len() > 0 && issues.last() == IssueView {
                field: "model.gated"@,
                message: "model requires gated access but no HF token secret is configured"@,
                allowed: Some("configure hf_secret_name in ModelStorage"@),
            }
        }),
{
    reveal_strlit("model.gated");
    reveal_strlit("resource_requests.gpu_count");
    reveal_strlit("hardware.gpu_class");
    reveal_strlit("serving.storage_mode");
    let nodes = profile.nodes@;
    let a = issue_if(
        plan.resource_requests.gpu_count > profile.max_gpu_per_pod,
        gpu_count_issue(plan.resource_requests.gpu_count, profile.max_gpu_per_pod),
    );
    let b = issue_if(
        !(exists|i: int|
            0 <= i < nodes.len() && node_has_gpu_class(
                #[trigger] nodes[i],
                unicode_lowercase(plan.selected_gpu_class),
            )),
        gpu_class_issue(plan.selected_gpu_class, nodes),
    );
    let c = issue_if(
        plan.storage_mode == StorageMode::ModelCache && gpu_node_lacks_model_path(nodes),
        storage_issue(),
    );
    let needs = recipe.model.gated == Some(true) && profile.model_storage.hf_secret_name@.len() == 0;
    let d = issue_if(needs, gated_issue());
    let issues = fit_issues(recipe, profile, plan);
    assert(issues == a + b + c + d);
    let head = a + b + c;
    assert forall|i: int| 0 <= i < head.len() implies (#[trigger] head[i]).field != "model.gated"@ by {
        if i < a.len() {
            assert(head[i] == a[i]);
            assert(a[i].field.len() != "model.gated"@.len());
        } else if i < a.len() + b.len() {
            assert(head[i] == b[i - a.len()]);
            assert(b[i - a.len()].field.len() != "model.gated"@.len());
        } else {
            assert(head[i] == c[i - a.len() - b.len()]);
            assert(c[i - a.len() - b.len()].field.len() != "model.gated"@.len());
        }
    }
    if exists|i: int| 0 <= i < issues.len() && (#[trigger] issues[i]).field == "model.gated"@ {
        let i = choose|i: int| 0 <= i < issues.len() && (#[trigger] issues[i]).field == "model.gated"@;
        if i < head.len() {
            assert(issues[i] == head[i]);
        } else {
            assert(d.len() > 0);
        }
    }
    if needs {
        assert(issues[issues.len() - 1] == gated_issue());
    }
}

/// A plan is reported with a `resource_requests.gpu_count` issue exactly when
/// it requests more GPUs per pod than the cluster permits, and that issue is
/// then the first one.
pub proof fn law_gpu_count_issue_iff_over_limit(recipe: RecipeView, profile: ClusterProfile, plan: PlanView)
    ensures
        ({
            let issues = fit_issues(recipe, profile, plan);
            let over = plan.resource_requests.gpu_count > profile.max_gpu_per_pod;
            &&& (exists|i: int|
                0 <= i < issues.len() && (#[trigger] issues[i]).field == "resource_requests.gpu_count"@)
                <==> over
            &&& over ==> issues.len() > 0 && issues[0].field == "resource_requests.gpu_count"@
        }),
{
    reveal_strlit("model.gated");
    reveal_strlit("resource_requests.gpu_count");
    reveal_strlit("hardware.gpu_class");
    reveal_strlit("serving.storage_mode");
    let nodes = profile.nodes@;
    let over = plan.resource_requests.gpu_count > profile.max_gpu_per_pod;
    let a = issue_if(over, gpu_count_issue(plan.resource_requests.gpu_count, profile.max_gpu_per_pod));
    let b = issue_if(
        !(exists|i: int|
            0 <= i < nodes.len() && node_has_gpu_class(
                #[trigger] nodes[i],
                unicode_lowercase(plan.selected_gpu_class),
            )),
        gpu_class_issue(plan.selected_gpu_class, nodes),
    );
    let c = issue_if(
        plan.storage_mode == StorageMode::ModelCache && gpu_node_lacks_model_path(nodes),
        storage_issue(),
    );
    let d = issue_if(
        (match recipe.model.gated {
            Some(g) => g,
            None => false,
        }) && profile.model_storage.hf_secret_name@.len() == 0,
        gated_issue(),
    );
    let issues = fit_issues(recipe, profile, plan);
    assert(issues == a + (b + c + d));
    let tail = b + c + d;
    let f = "resource_requests.gpu_count"@;
    assert forall|i: int| 0 <= i < tail.len() implies (#[trigger] tail[i]).field != f by {
        if i < b.len() {
            assert(tail[i] == b[i]);
            assert(b[i].field.len() != f.len());
        } else if i < b.len() + c.len() {
            assert(tail[i] == c[i - b.len()]);
            assert(c[i - b.len()].field.len() != f.len());
        } else {
            assert(tail[i] == d[i - b.len() - c.len()]);
            assert(d[i - b.len() - c.len()].field.len() != f.len());
        }
    }
    if exists|i: int| 0 <= i < issues.len() && (#[trigger] issues[i]).field == f {
        let i = choose|i: int| 0 <= i < issues.len() && (#[trigger] issues[i]).field == f;
        if i >= a.len() {
            assert(issues[i] == tail[i - a.len()]);
        }
    }
    if over {
        assert(issues[0] == a[0]);
    }
}

fn gpu_count_issue_exec(requested: u32, max: u32) -> (r: ValidationIssue)
    ensures
        r@ == gpu_count_issue(requested, max),
{
    let mut message = "plan requests ".to_owned();
    message.append(u64_to_decimal(requested as u64).as_str());
    message.append(" GPU(s), cluster permits ");
    message.append(u64_to_decimal(max as u64).as_str());
    message.append(" GPU(s) per pod");
    let mut allowed = "1..=".to_owned();
    allowed.append(u64_to_decimal(max as u64).as_str());
    ValidationIssue { field: "resource_requests.gpu_count".to_owned(), message, allowed: Some(allowed) }
}

fn has_gpu_class(nodes: &Vec<NodeProfile>, class: &String) -> (r: bool)
    ensures
        r == exists|i: int|
            0 <= i < nodes@.len() && node_has_gpu_class(
                #[trigger] nodes@[i],
                unicode_lowercase(class@),
            ),
{
    let class_lower = to_lowercase(class.as_str());
    let mut i: usize = 0;
    while i < nodes.len()
        invariant
            i <= nodes@.len(),
            class_lower@ == unicode_lowercase(class@),
            forall|j: int| 0 <= j < i ==> !node_has_gpu_class(#[trigger] nodes@[j], class_lower@),
        decreases nodes.len() - i,
    {
        let node = &nodes[i];
        if roles_contain(&node.roles, NodeRole::GpuWorker) {
            match &node.gpu_product {
                Some(p) => {
                    let pl = to_lowercase(p.as_str());
                    if contains(pl.as_str(), class_lower.as_str()) {
                        assert(node_has_gpu_class(nodes@[i as int], class_lower@));
                        return true;
                    }
                },
                None => {},
            }
        }
        i += 1;
    }
    false
}

fn gpu_products_exec(nodes: &Vec<NodeProfile>) -> (r: String)
    ensures
        r@ == join_with(gpu_products(nodes@), ","@),
{
    let mut out = String::new();
    let ghost mut items: Seq<Seq<char>> = Seq::empty();
    let mut i: usize = 0;
    let mut first = true;
    assert(nodes@.subrange(0, 0) =~= Seq::<NodeProfile>::empty());
    while i < nodes.len()
        invariant
            i <= nodes@.len(),
            first == (items.len() == 0),
            items == gpu_products(nodes@.subrange(0, i as int)),
            out@ == join_with(items, ","@),
        decreases nodes.len() - i,
    {
        let node = &nodes[i];
        assert(nodes@.subrange(0, i + 1).drop_last() =~= nodes@.subrange(0, i as int));
        assert(nodes@.subrange(0, i + 1).last() == nodes@[i as int]);
        if roles_contain(&node.roles, NodeRole::GpuWorker) {
            match &node.gpu_product {
                Some(p) => {
                    if !first {
                        out.append(",");
                    }
                    first = false;
                    out.append(p.as_str());
                    proof {
                        lemma_join_push(items, p@, ","@);
                        items = items.push(p@);
                    }
                },
                None => {},
            }
        }
        i += 1;
    }
    assert(nodes@.subrange(0, nodes@.len() as int) =~= nodes@);
    out
}

fn gpu_node_lacks_model_path_exec(profile: &ClusterProfile) -> (r: bool)
    ensures
        r == gpu_node_lacks_model_path(profile.nodes@),
{
    match find_node_with_role(&profile.nodes, NodeRole::GpuWorker) {
        Some(n) => n.model_path.is_none(),
        None => true,
    }
}

/// Checks that a plan fits the cluster: GPU count per pod, an available GPU
/// class, model storage on the GPU node, and an HF token for gated models.
pub fn validate_fit(recipe: &Recipe, profile: &ClusterProfile, plan: &DeploymentPlan) -> (r: Vec<
    ValidationIssue,
>)
    ensures
        r.deep_view() == fit_issues(recipe@, *profile, plan@),
{
    let mut issues: Vec<ValidationIssue> = Vec::new();
    let ghost nodes = profile.nodes@;
    if plan.resource_requests.gpu_count > profile.max_gpu_per_pod {
        issues.push(gpu_count_issue_exec(plan.resource_requests.gpu_count, profile.max_gpu_per_pod));
    }
    let ghost s1 = issues.deep_view();
    if !has_gpu_class(&profile.nodes, &plan.selected_gpu_class) {
        let mut message = "cluster has no GPU class matching ".to_owned();
        message.append(plan.selected_gpu_class.as_str());
        let allowed = gpu_products_exec(&profile.nodes);
        issues.push(ValidationIssue { field: "hardware.gpu_class".to_owned(), message, allowed: Some(allowed) });
    }
    let ghost s2 = issues.deep_view();
    if plan.storage_mode == StorageMode::ModelCache && gpu_node_lacks_model_path_exec(profile) {
        issues.push(
            ValidationIssue {
                field: "serving.storage_mode".to_owned(),
                message: "recipe expects model cache but GPU node has no model_path".to_owned(),
                allowed: Some("ephemeral".to_owned()),
            },
        );
    }
    let ghost s3 = issues.deep_view();
    let gated = match recipe.model.gated {
        Some(g) => g,
        None => false,
    };
    if gated && profile.model_storage.hf_secret_name.unicode_len() == 0 {
        issues.push(
            ValidationIssue {
                field: "model.gated".to_owned(),
                message: "model requires gated access but no HF token secret is configured".to_owned(),
                allowed: Some("configure hf_secret_name in ModelStorage".to_owned()),
            },
        );
    }
    assert(issues.deep_view() =~= fit_issues(recipe@, *profile, plan@));
    issues
}

// ---------------------------------------------------------------------------
// Planning
// ---------------------------------------------------------------------------

/// The serving port an engine listens on unless the recipe names one.
pub open spec fn default_port(e: RuntimeEngine) -> u16 {
    match e {
        RuntimeEngine::Vllm => 8080,
        RuntimeEngine::Sglang => 8000,
    }
}

pub open spec fn planned_name(recipe: RecipeView, ov: OverridesView) -> Seq<char> {
    dns_name_spec(
        match ov.name {
            Some(n) => n,
            None => match recipe.serving.service_name {
                Some(s) => s,
                None => recipe.id,
            },
        },
    )
}

pub open spec fn planned_replicas(recipe: RecipeView, ov: OverridesView) -> u32 {
    match ov.replicas {
        Some(r) => r,
        None => recipe.serving.replicas,
    }
}

/// The plan before its digest is stamped on.
pub open spec fn planned_undigested(recipe: RecipeView, profile: ClusterProfile, ov: OverridesView) -> PlanView {
    PlanView {
        name: planned_name(recipe, ov),
        namespace: match ov.namespace {
            Some(n) => n,
            None => recipe.serving.namespace,
        },
        recipe_id: recipe.id,
        runtime_image: recipe.runtime.image,
        runtime_engine: recipe.runtime.engine,
        runtime_port: match recipe.runtime.port {
            Some(p) => p,
            None => default_port(recipe.runtime.engine),
        },
        runtime_args: merged_args(recipe.runtime.args, ov.runtime_args),
        runtime_env: merged_env(recipe.runtime.env, ov.runtime_env),
        selected_gpu_class: recipe.hardware.gpu_class,
        replicas: planned_replicas(recipe, ov),
        scale_to_zero: planned_replicas(recipe, ov) == 0,
        storage_mode: recipe.serving.storage_mode,
        ingress_policy: recipe.serving.ingress_policy,
        env_overrides: ov.env_overrides,
        resource_requests: match ov.resource_requests {
            Some(r) => r,
            None => ResourceRequestsView { cpu: "2"@, memory: "16Gi"@, gpu_count: recipe.hardware.gpu_count },
        },
        readiness_timeout_seconds: match ov.readiness_timeout_seconds {
            Some(t) => t,
            None => 900,
        },
        model_id: recipe.model.id,
        model_revision: recipe.model.revision,
        model_path: profile.model_storage.gpu_node_path@ + "/"@ + recipe.model.id,
        plan_digest: Seq::empty(),
    }
}

/// The plan `plan_deploy` makes: the undigested plan with its digest.
pub open spec fn planned(recipe: RecipeView, profile: ClusterProfile, ov: OverridesView) -> PlanView {
    let p = planned_undigested(recipe, profile, ov);
    PlanView { plan_digest: plan_digest_of(p), ..p }
}

pub open spec fn plan_summary(recipe: RecipeView, profile: ClusterProfile, issue_count: nat) -> Seq<char> {
    if issue_count == 0 {
        "recipe "@ + recipe.id + " fits cluster "@ + profile.cluster_name@ + " for "@ + decimal(
            recipe.hardware.gpu_count as nat,
        ) + " GPU"@
    } else {
        "recipe "@ + recipe.id + " has "@ + decimal(issue_count) + " fit issue(s) on cluster "@
            + profile.cluster_name@
    }
}

/// A digest of 64 lower-case hexadecimal digits is ASCII, so it can be cut
/// after any of its bytes.
pub proof fn lemma_hex_digest_cuts(d: Seq<char>, k: int)
    requires
        d.len() == 64,
        forall|i: int| 0 <= i < d.len() ==> is_lower_hex(#[trigger] d[i]),
        0 <= k <= 64,
    ensures
        is_char_boundary(encode_utf8(d), k),
{
    assert(vstd::utf8::is_ascii_chars(d)) by {
        assert forall|i: int| 0 <= i < d.len() implies '\0' <= #[trigger] d[i] <= '\u{7f}' by {
            assert(is_lower_hex(d[i]));
        }
    }
    vstd::utf8::is_ascii_chars_encode_utf8(d);
    vstd::utf8::encode_utf8_valid_utf8(d);
    let bytes = encode_utf8(d);
    if k < 64 {
        vstd::utf8::is_char_boundary_iff_is_leading_byte(bytes, k);
        assert(bytes[k] == d[k] as u8);
        assert(d[k] as u32 <= 0x7f);
        assert(vstd::utf8::is_leading_byte_width_1(bytes[k])) by {
            let b = bytes[k];
            assert(b <= 0x7f);
        }
    } else {
        vstd::utf8::is_char_boundary_start_end_of_seq(bytes);
    }
}

/// Plans the deployment of `recipe` on the cluster: names, namespace,
/// replicas, merged arguments and environment, resources, model path and
/// digest, with the fit issues the plan has on this cluster.
pub fn plan_deploy(recipe: &Recipe, profile: &ClusterProfile, overrides: DeployOverrides) -> (r:
    ToolResult<DeploymentPlan>)
    ensures
        r.data@ == planned(recipe@, *profile, overrides@),
        r.issues.deep_view() == fit_issues(recipe@, *profile, r.data@),
        r.risk == RiskLevel::Pure,
        r.summary.text@ == plan_summary(recipe@, *profile, r.issues@.len()),
        r.data.plan_digest@.len() == 64,
        forall|i: int| 0 <= i < r.data.plan_digest@.len() ==> is_lower_hex(#[trigger] r.data.plan_digest@[i]),
        r.data.model_path@.contains('/'),
        is_char_boundary(encode_utf8(r.data.plan_digest@), 63),
{
    let ghost ov = overrides@;
    let name_source = match &overrides.name {
        Some(n) => n.clone(),
        None => match &recipe.serving.service_name {
            Some(s) => s.clone(),
            None => recipe.id.clone(),
        },
    };
    let name = sanitize_dns_name(name_source.as_str());
    let namespace = match &overrides.namespace {
        Some(n) => n.clone(),
        None => recipe.serving.namespace.clone(),
    };
    let replicas = match overrides.replicas {
        Some(r) => r,
        None => recipe.serving.replicas,
    };
    let runtime_port = match recipe.runtime.port {
        Some(p) => p,
        None => match recipe.runtime.engine {
            RuntimeEngine::Vllm => 8080,
            RuntimeEngine::Sglang => 8000,
        },
    };
    let resource_requests = match &overrides.resource_requests {
        Some(r) => r.duplicate(),
        None => ResourceRequests {
            cpu: "2".to_owned(),
            memory: "16Gi".to_owned(),
            gpu_count: recipe.hardware.gpu_count,
        },
    };
    let mut model_path = profile.model_storage.gpu_node_path.clone();
    model_path.append("/");
    model_path.append(recipe.model.id.as_str());
    let DeployOverrides { env_overrides, runtime_args, runtime_env, readiness_timeout_seconds, .. } = overrides;
    let mut plan = DeploymentPlan {
        name,
        namespace,
        recipe_id: recipe.id.clone(),
        runtime_image: recipe.runtime.image.clone(),
        runtime_engine: recipe.runtime.engine,
        runtime_port,
        runtime_args: merge_args(&recipe.runtime.args, &runtime_args),
        runtime_env: merge_env(&recipe.runtime.env, &runtime_env),
        selected_gpu_class: recipe.hardware.gpu_class.clone(),
        replicas,
        scale_to_zero: replicas == 0,
        storage_mode: recipe.serving.storage_mode,
        ingress_policy: recipe.serving.ingress_policy,
        env_overrides,
        resource_requests,
        readiness_timeout_seconds: match readiness_timeout_seconds {
            Some(t) => t,
            None => 900,
        },
        model_id: recipe.model.id.clone(),
        model_revision: recipe.model.revision.clone(),
        model_path,
        plan_digest: String::new(),
    };
    assert(plan@ =~= planned_undigested(recipe@, *profile, ov));
    plan.plan_digest = compute_plan_digest(&plan);
    assert(plan@ =~= planned(recipe@, *profile, ov));
    proof {
        lemma_hex_digest_cuts(plan.plan_digest@, 63);
        let root = profile.model_storage.gpu_node_path@;
        reveal_strlit("/");
        assert(plan.model_path@[root.len() as int] == '/');
    }
    let issues = validate_fit(recipe, profile, &plan);
    let count = issues.len();
    let summary = if count == 0 {
        let mut s = "recipe ".to_owned();
        s.append(recipe.id.as_str());
        s.append(" fits cluster ");
        s.append(profile.cluster_name.as_str());
        s.append(" for ");
        s.append(u64_to_decimal(recipe.hardware.gpu_count as u64).as_str());
        s.append(" GPU");
        s
    } else {
        let mut s = "recipe ".to_owned();
        s.append(recipe.id.as_str());
        s.append(" has ");
        s.append(u64_to_decimal(count as u64).as_str());
        s.append(" fit issue(s) on cluster ");
        s.append(profile.cluster_name.as_str());
        s
    };
    ToolResult::pure(summary.as_str(), plan).with_issues(issues)
}

} // verus!
