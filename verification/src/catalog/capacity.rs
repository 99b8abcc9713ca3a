//! Whether a model fits on a node: the decision over what the cluster reports.
use crate::catalog::types::{ResourceRequests, ResourceRequestsView};
use crate::text::{concat, string_of};
use vstd::prelude::*;

verus! {

/// How much a fit estimate can be trusted.
#[derive(Clone, Copy, Debug, PartialEq, Eq, Structural)]
pub enum FitConfidence {
    Low,
    Medium,
    High,
}

/// A model that already runs on the node.
#[derive(Clone, Debug, PartialEq, Eq)]
pub struct ActiveModelCapacity {
    pub name: String,
    pub namespace: String,
    pub recipe_id: Option<String>,
    pub requested: ResourceRequests,
    pub ready: bool,
}

/// What the cluster reports of a node, short of the GPU readings themselves:
/// whether the node is ready, what runs on it, whether its total GPU memory
/// was observed, and the risks already noted.
#[derive(Clone, Debug, PartialEq, Eq)]
pub struct CapacitySnapshot {
    pub target: String,
    pub node_ready: bool,
    pub active_models: Vec<ActiveModelCapacity>,
    pub gpu_memory_total_observed: bool,
    pub risks: Vec<String>,
}

/// How the observed GPU memory compares with what the model needs.
#[derive(Clone, Copy, Debug, PartialEq, Eq, Structural)]
pub enum MemoryEvidence {
    /// Used or total GPU memory was not observed.
    Unobserved,
    /// The free GPU memory against the recipe's estimated VRAM.
    Vram { covers: bool },
    /// The free GPU memory against the memory request, used as a proxy.
    Request { covers: bool },
    /// The memory request does not read as a number of bytes.
    Unreadable,
}

/// The estimate: whether the model fits, how sure that is, how it would
/// share the node, and the risks behind it.
#[derive(Clone, Debug, PartialEq, Eq)]
pub struct FitEstimate {
    pub target: String,
    pub fits: bool,
    pub confidence: FitConfidence,
    pub mode: String,
    pub risks: Vec<String>,
    pub recommended_resources: ResourceRequests,
}

/// The GPUs that the first `n` running models request.
pub open spec fn gpus_in_use(models: Seq<ActiveModelCapacity>, n: int) -> nat
    decreases n,
{
    if n <= 0 {
        0
    } else {
        gpus_in_use(models, n - 1) + models[n - 1].requested.gpu_count as nat
    }
}

proof fn lemma_gpus_in_use_monotone(models: Seq<ActiveModelCapacity>, a: int, b: int)
    requires
        0 <= a <= b,
    ensures
        gpus_in_use(models, a) <= gpus_in_use(models, b),
    decreases b - a,
{
    if a < b {
        lemma_gpus_in_use_monotone(models, a, b - 1);
    }
}

/// Whether the model fits, and the risk that the decision adds.
pub open spec fn fit_decision(
    node_ready: bool,
    active_gpu: nat,
    requested_gpus: u32,
    memory: Seq<char>,
    evidence: MemoryEvidence,
) -> (bool, Option<Seq<char>>) {
    if !node_ready {
        (false, Some("target node is not Ready"@))
    } else {
        match evidence {
            MemoryEvidence::Vram { covers } => (requested_gpus <= 1 && covers, None),
            MemoryEvidence::Request { covers } => (
                requested_gpus <= 1 && covers,
                Some("fit uses Kubernetes memory request as GPU-memory proxy"@),
            ),
            MemoryEvidence::Unreadable => (
                false,
                Some("requested memory '"@ + memory + "' cannot be parsed for fit check"@),
            ),
            MemoryEvidence::Unobserved => (
                active_gpu + requested_gpus <= 1,
                Some("fit uses Kubernetes requests only"@),
            ),
        }
    }
}

/// A node with no running model takes the new one alone; otherwise the new
/// one shares it.
pub open spec fn fit_mode(active_gpu: nat) -> Seq<char> {
    if active_gpu == 0 {
        "single-model"@
    } else {
        "co-locate-small-model"@
    }
}

pub open spec fn with_risk(risks: Seq<Seq<char>>, extra: Option<Seq<char>>) -> Seq<Seq<char>> {
    match extra {
        Some(r) => risks.push(r),
        None => risks,
    }
}

/// Estimates whether a model with the requested resources fits on the node.
pub fn estimate_fit(snapshot: &CapacitySnapshot, requested: ResourceRequests, evidence: MemoryEvidence) -> (r:
    FitEstimate)
    requires
        gpus_in_use(snapshot.active_models@, snapshot.active_models@.len() as int) <= u32::MAX,
        snapshot.node_ready && evidence == MemoryEvidence::Unobserved ==> gpus_in_use(
            snapshot.active_models@,
            snapshot.active_models@.len() as int,
        ) + requested.gpu_count <= u32::MAX,
    ensures
        ({
            let active = gpus_in_use(snapshot.active_models@, snapshot.active_models@.len() as int);
            let (fits, extra) = fit_decision(
                snapshot.node_ready,
                active,
                requested.gpu_count,
                requested.memory@,
                evidence,
            );
            &&& r.target@ == snapshot.target@
            &&& r.fits == fits
            &&& r.confidence == (if snapshot.gpu_memory_total_observed {
                FitConfidence::Medium
            } else {
                FitConfidence::Low
            })
            &&& r.mode@ == fit_mode(active)
            &&& r.risks.deep_view() == with_risk(snapshot.risks.deep_view(), extra)
            &&& r.recommended_resources@ == requested@
        }),
{
    let ghost models = snapshot.active_models@;
    let mut active_gpu: u32 = 0;
    let mut i: usize = 0;
    while i < snapshot.active_models.len()
        invariant
            models == snapshot.active_models@,
            i <= models.len(),
            active_gpu == gpus_in_use(models, i as int),
            gpus_in_use(models, models.len() as int) <= u32::MAX,
        decreases models.len() - i,
    {
        proof {
            lemma_gpus_in_use_monotone(models, i + 1, models.len() as int);
        }
        active_gpu = active_gpu + snapshot.active_models[i].requested.gpu_count;
        i = i + 1;
    }
    let mut risks: Vec<String> = Vec::new();
    let mut k: usize = 0;
    while k < snapshot.risks.len()
        invariant
            k <= snapshot.risks@.len(),
            risks@.len() == k,
            forall|j: int| 0 <= j < k ==> #[trigger] risks@[j]@ == snapshot.risks@[j]@,
        decreases snapshot.risks@.len() - k,
    {
        risks.push(snapshot.risks[k].clone());
        k = k + 1;
    }
    assert(risks.deep_view() =~= snapshot.risks.deep_view());
    let ghost base = risks.deep_view();
    let confidence = if snapshot.gpu_memory_total_observed {
        FitConfidence::Medium
    } else {
        FitConfidence::Low
    };
    let fits: bool;
    if !snapshot.node_ready {
        fits = false;
        risks.push(string_of("target node is not Ready"));
    } else {
        match evidence {
            MemoryEvidence::Vram { covers } => {
                fits = requested.gpu_count <= 1 && covers;
            },
            MemoryEvidence::Request { covers } => {
                fits = requested.gpu_count <= 1 && covers;
                risks.push(string_of("fit uses Kubernetes memory request as GPU-memory proxy"));
            },
            MemoryEvidence::Unreadable => {
                fits = false;
                let head = concat("requested memory '", requested.memory.as_str());
                risks.push(concat(head.as_str(), "' cannot be parsed for fit check"));
            },
            MemoryEvidence::Unobserved => {
                fits = active_gpu + requested.gpu_count <= 1;
                risks.push(string_of("fit uses Kubernetes requests only"));
            },
        }
    }
    let ghost (f, extra) = fit_decision(
        snapshot.node_ready,
        active_gpu as nat,
        requested.gpu_count,
        requested.memory@,
        evidence,
    );
    assert(risks.deep_view() =~= with_risk(base, extra));
    let mode = if active_gpu == 0 {
        string_of("single-model")
    } else {
        string_of("co-locate-small-model")
    };
    FitEstimate {
        target: snapshot.target.clone(),
        fits,
        confidence,
        mode,
        risks,
        recommended_resources: requested,
    }
}

/// A node that is not ready never takes a model, and a request for more than
/// one GPU never fits.
pub proof fn law_unready_or_multi_gpu_never_fits(
    node_ready: bool,
    active_gpu: nat,
    requested_gpus: u32,
    memory: Seq<char>,
    evidence: MemoryEvidence,
)
    requires
        !node_ready || requested_gpus > 1,
    ensures
        !fit_decision(node_ready, active_gpu, requested_gpus, memory, evidence).0,
{
}

/// On a ready node: with no GPU memory reading the model fits exactly when
/// the GPUs already requested and the new request add up to at most one;
/// with a reading it fits exactly when it asks for at most one GPU and the
/// free memory covers its need; with a memory request that does not read as
/// bytes it never fits. The node is run single-model exactly when no GPU is
/// requested on it yet.
pub proof fn law_ready_node_fit(
    active_gpu: nat,
    requested_gpus: u32,
    memory: Seq<char>,
    evidence: MemoryEvidence,
)
    ensures
        ({
            let fits = fit_decision(true, active_gpu, requested_gpus, memory, evidence).0;
            match evidence {
                MemoryEvidence::Unobserved => fits <==> active_gpu + requested_gpus <= 1,
                MemoryEvidence::Vram { covers } => fits <==> requested_gpus <= 1 && covers,
                MemoryEvidence::Request { covers } => fits <==> requested_gpus <= 1 && covers,
                MemoryEvidence::Unreadable => !fits,
            }
        }),
        (fit_mode(active_gpu) == "single-model"@) <==> active_gpu == 0,
{
    reveal_strlit("single-model");
    reveal_strlit("co-locate-small-model");
    assert("single-model"@.len() != "co-locate-small-model"@.len());
}

} // verus!
