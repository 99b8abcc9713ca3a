//! Runtime policy: argument combinations the serving engines require, the
//! GPU limit per pod and the approved model root.
use crate::catalog::planner::issue_if;
use crate::catalog::profile::ClusterProfile;
use crate::catalog::types::{DeploymentPlan, PlanView, Recipe, RecipeView};
use crate::mcp_core::{issue_view, IssueView, ValidationIssue};
use crate::text::{ascii_lower, ascii_lowercase, decimal, has_prefix, starts_with, str_eq, u64_to_decimal};
use vstd::prelude::*;

verus! {

/// `flag` directly followed by `value` somewhere in `args`.
pub open spec fn has_arg_value(args: Seq<Seq<char>>, flag: Seq<char>, value: Seq<char>) -> bool {
    exists|i: int| 0 <= i && i + 1 < args.len() && #[trigger] args[i] == flag && args[i + 1] == value
}

pub open spec fn has_tool_call_parser(args: Seq<Seq<char>>) -> bool {
    has_arg_value(args, "--tool-call-parser"@, "hermes"@) || exists|i: int|
        0 <= i < args.len() && has_prefix(#[trigger] args[i], "--tool-call-parser="@)
}

pub open spec fn has_kv_cache_dtype_fp8(args: Seq<Seq<char>>) -> bool {
    has_arg_value(args, "--kv-cache-dtype"@, "fp8"@) || args.contains("--kv-cache-dtype=fp8"@)
}

pub open spec fn eq_ignore_ascii_case(a: Seq<char>, b: Seq<char>) -> bool {
    ascii_lowercase(a) == ascii_lowercase(b)
}

pub open spec fn auto_tool_choice_issue() -> IssueView {
    issue_view(
        "runtime.args"@,
        "--enable-auto-tool-choice requires --tool-call-parser"@,
        Some("--tool-call-parser hermes or --tool-call-parser=hermes"@),
    )
}

pub open spec fn deepseek_issue() -> IssueView {
    issue_view(
        "runtime.args"@,
        "DeepSeek V4 Flash requires fp8 KV cache on the current vLLM runtime"@,
        Some("--kv-cache-dtype fp8 or --kv-cache-dtype=fp8"@),
    )
}

pub open spec fn policy_gpu_issue(requested: u32, max: u32) -> IssueView {
    issue_view(
        "resource_requests.gpu_count"@,
        "deployment requests "@ + decimal(requested as nat) + " GPUs, profile permits "@ + decimal(
            max as nat,
        ) + " per pod"@,
        Some("1..="@ + decimal(max as nat)),
    )
}

pub open spec fn model_path_issue(path: Seq<char>, root: Seq<char>) -> IssueView {
    issue_view("model_path"@, "model path "@ + path + " is outside approved root"@, Some(root))
}

/// The policy violations of a plan, in the order they are checked.
pub open spec fn policy_issues(recipe: RecipeView, profile: ClusterProfile, plan: PlanView) -> Seq<IssueView> {
    let args = plan.runtime_args;
    let root = profile.model_storage.gpu_node_path@;
    issue_if(
        args.contains("--enable-auto-tool-choice"@) && !has_tool_call_parser(args),
        auto_tool_choice_issue(),
    ) + issue_if(
        eq_ignore_ascii_case(recipe.model.id, "deepseek-ai/DeepSeek-V4-Flash"@) && !has_kv_cache_dtype_fp8(
            args,
        ),
        deepseek_issue(),
    ) + issue_if(
        plan.resource_requests.gpu_count > profile.max_gpu_per_pod,
        policy_gpu_issue(plan.resource_requests.gpu_count, profile.max_gpu_per_pod),
    ) + issue_if(!has_prefix(plan.model_path, root), model_path_issue(plan.model_path, root))
}

fn args_contain(args: &Vec<String>, s: &str) -> (r: bool)
    ensures
        r == args.deep_view().contains(s@),
{
    let mut i: usize = 0;
    while i < args.len()
        invariant
            i <= args@.len(),
            forall|j: int| 0 <= j < i ==> args@[j]@ != s@,
        decreases args.len() - i,
    {
        if str_eq(args[i].as_str(), s) {
            assert(args.deep_view()[i as int] == s@);
            return true;
        }
        i += 1;
    }
    proof {
        if args.deep_view().contains(s@) {
            let j = choose|j: int| 0 <= j < args.deep_view().len() && args.deep_view()[j] == s@;
            assert(args@[j]@ == s@);
        }
    }
    false
}

fn any_has_prefix(args: &Vec<String>, p: &str) -> (r: bool)
    ensures
        r == exists|i: int| 0 <= i < args@.len() && has_prefix(#[trigger] args.deep_view()[i], p@),
{
    let mut i: usize = 0;
    while i < args.len()
        invariant
            i <= args@.len(),
            forall|j: int| 0 <= j < i ==> !has_prefix(#[trigger] args.deep_view()[j], p@),
        decreases args.len() - i,
    {
        if starts_with(args[i].as_str(), p) {
            assert(has_prefix(args.deep_view()[i as int], p@));
            return true;
        }
        i += 1;
    }
    false
}

fn has_arg_value_exec(args: &Vec<String>, flag: &str, value: &str) -> (r: bool)
    ensures
        r == has_arg_value(args.deep_view(), flag@, value@),
{
    let ghost a = args.deep_view();
    let mut i: usize = 0;
    while i < args.len() && args.len() - i > 1
        invariant
            a == args.deep_view(),
            i <= args@.len(),
            forall|j: int| 0 <= j < i && j + 1 < a.len() ==> !(#[trigger] a[j] == flag@ && a[j + 1] == value@),
        decreases args.len() - i,
    {
        if str_eq(args[i].as_str(), flag) && str_eq(args[i + 1].as_str(), value) {
            assert(a[i as int] == flag@ && a[i + 1] == value@);
            return true;
        }
        i += 1;
    }
    false
}

fn enables_auto_tool_choice(plan: &DeploymentPlan) -> (r: bool)
    ensures
        r == plan@.runtime_args.contains("--enable-auto-tool-choice"@),
{
    args_contain(&plan.runtime_args, "--enable-auto-tool-choice")
}

fn has_tool_call_parser_exec(plan: &DeploymentPlan) -> (r: bool)
    ensures
        r == has_tool_call_parser(plan@.runtime_args),
{
    has_arg_value_exec(&plan.runtime_args, "--tool-call-parser", "hermes") || any_has_prefix(
        &plan.runtime_args,
        "--tool-call-parser=",
    )
}

fn has_kv_cache_dtype_fp8_exec(plan: &DeploymentPlan) -> (r: bool)
    ensures
        r == has_kv_cache_dtype_fp8(plan@.runtime_args),
{
    has_arg_value_exec(&plan.runtime_args, "--kv-cache-dtype", "fp8") || args_contain(
        &plan.runtime_args,
        "--kv-cache-dtype=fp8",
    )
}

/// `str::eq_ignore_ascii_case`.
pub fn eq_ignore_ascii_case_exec(a: &str, b: &str) -> (r: bool)
    ensures
        r == eq_ignore_ascii_case(a@, b@),
{
    let la = ascii_lower(a);
    let lb = ascii_lower(b);
    str_eq(la.as_str(), lb.as_str())
}

/// Checks a plan against the runtime policy: auto tool choice needs a tool
/// call parser, DeepSeek V4 Flash needs an fp8 KV cache, the GPU count per
/// pod is bounded, and the model lives under the approved root.
pub fn validate_plan_policy(recipe: &Recipe, profile: &ClusterProfile, plan: &DeploymentPlan) -> (r: Vec<
    ValidationIssue,
>)
    ensures
        r.deep_view() == policy_issues(recipe@, *profile, plan@),
{
    let mut issues: Vec<ValidationIssue> = Vec::new();
    if enables_auto_tool_choice(plan) && !has_tool_call_parser_exec(plan) {
        issues.push(
            ValidationIssue {
                field: "runtime.args".to_owned(),
                message: "--enable-auto-tool-choice requires --tool-call-parser".to_owned(),
                allowed: Some("--tool-call-parser hermes or --tool-call-parser=hermes".to_owned()),
            },
        );
    }
    if eq_ignore_ascii_case_exec(recipe.model.id.as_str(), "deepseek-ai/DeepSeek-V4-Flash")
        && !has_kv_cache_dtype_fp8_exec(plan) {
        issues.push(
            ValidationIssue {
                field: "runtime.args".to_owned(),
                message: "DeepSeek V4 Flash requires fp8 KV cache on the current vLLM runtime".to_owned(),
                allowed: Some("--kv-cache-dtype fp8 or --kv-cache-dtype=fp8".to_owned()),
            },
        );
    }
    if plan.resource_requests.gpu_count > profile.max_gpu_per_pod {
        let mut message = "deployment requests ".to_owned();
        message.append(u64_to_decimal(plan.resource_requests.gpu_count as u64).as_str());
        message.append(" GPUs, profile permits ");
        message.append(u64_to_decimal(profile.max_gpu_per_pod as u64).as_str());
        message.append(" per pod");
        let mut allowed = "1..=".to_owned();
        allowed.append(u64_to_decimal(profile.max_gpu_per_pod as u64).as_str());
        issues.push(
            ValidationIssue { field: "resource_requests.gpu_count".to_owned(), message, allowed: Some(allowed) },
        );
    }
    let allowed_root = &profile.model_storage.gpu_node_path;
    if !starts_with(plan.model_path.as_str(), allowed_root.as_str()) {
        let mut message = "model path ".to_owned();
        message.append(plan.model_path.as_str());
        message.append(" is outside approved root");
        issues.push(
            ValidationIssue { field: "model_path".to_owned(), message, allowed: Some(allowed_root.clone()) },
        );
    }
    assert(issues.deep_view() =~= policy_issues(recipe@, *profile, plan@));
    issues
}

} // verus!
