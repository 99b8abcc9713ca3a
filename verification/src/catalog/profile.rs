//! The cluster a plan is made for: its nodes, GPUs, taints and model storage.
use vstd::prelude::*;

verus! {

#[derive(Clone, Copy, Debug, PartialEq, Eq, Structural)]
pub enum NodeRole {
    ControlPlane,
    Nas,
    GpuWorker,
}

#[derive(Clone, Debug, PartialEq, Eq)]
pub struct Taint {
    pub key: String,
    pub effect: String,
}

#[derive(Clone, Debug, PartialEq, Eq)]
pub struct NodeProfile {
    pub hostname: String,
    pub roles: Vec<NodeRole>,
    pub gpu_product: Option<String>,
    pub gpu_count: u32,
    pub gpu_memory_gb: u32,
    pub taints: Vec<Taint>,
    pub model_path: Option<String>,
}

#[derive(Clone, Debug, PartialEq, Eq)]
pub struct ModelStorage {
    pub nas_hostname: String,
    pub nas_path: String,
    pub gpu_node_path: String,
    pub download_node_selector: String,
    pub hf_secret_name: String,
    pub hf_secret_namespace: String,
}

#[derive(Clone, Copy, Debug, PartialEq, Eq, Structural)]
pub enum IngressMode {
    ClusterLocal,
    InternalHttp,
}

#[derive(Clone, Debug, PartialEq, Eq)]
pub struct ClusterProfile {
    pub cluster_name: String,
    pub nodes: Vec<NodeProfile>,
    pub default_namespace: String,
    pub available_serving_runtimes: Vec<String>,
    pub max_gpu_per_pod: u32,
    pub ingress_mode: IngressMode,
    pub model_storage: ModelStorage,
}

pub open spec fn has_role(node: NodeProfile, role: NodeRole) -> bool {
    node.roles@.contains(role)
}

/// Index of the first node that has `role`, or the number of nodes when none has it.
pub open spec fn first_with_role(nodes: Seq<NodeProfile>, role: NodeRole) -> int
    decreases nodes.len(),
{
    if nodes.len() == 0 {
        0
    } else if has_role(nodes[0], role) {
        0
    } else {
        1 + first_with_role(nodes.drop_first(), role)
    }
}

pub proof fn lemma_first_with_role(nodes: Seq<NodeProfile>, role: NodeRole)
    ensures
        0 <= first_with_role(nodes, role) <= nodes.len(),
        forall|j: int| 0 <= j < first_with_role(nodes, role) ==> !has_role(#[trigger] nodes[j], role),
        first_with_role(nodes, role) < nodes.len() ==> has_role(nodes[first_with_role(nodes, role)], role),
    decreases nodes.len(),
{
    if nodes.len() > 0 && !has_role(nodes[0], role) {
        lemma_first_with_role(nodes.drop_first(), role);
        assert forall|j: int| 0 <= j < first_with_role(nodes, role) implies !has_role(
            #[trigger] nodes[j],
            role,
        ) by {
            if j > 0 {
                assert(nodes[j] == nodes.drop_first()[j - 1]);
            }
        }
    }
}

proof fn lemma_first_with_role_is(nodes: Seq<NodeProfile>, role: NodeRole, k: int)
    requires
        0 <= k <= nodes.len(),
        forall|j: int| 0 <= j < k ==> !has_role(#[trigger] nodes[j], role),
        k < nodes.len() ==> has_role(nodes[k], role),
    ensures
        first_with_role(nodes, role) == k,
    decreases nodes.len(),
{
    if k > 0 {
        let t = nodes.drop_first();
        assert(!has_role(nodes[0], role));
        assert forall|j: int| 0 <= j < k - 1 implies !has_role(#[trigger] t[j], role) by {
            assert(t[j] == nodes[j + 1]);
        }
        if k - 1 < t.len() {
            assert(t[k - 1] == nodes[k]);
        }
        lemma_first_with_role_is(t, role, k - 1);
    }
}

pub fn roles_contain(roles: &Vec<NodeRole>, role: NodeRole) -> (r: bool)
    ensures
        r == roles@.contains(role),
{
    let mut i: usize = 0;
    while i < roles.len()
        invariant
            i <= roles@.len(),
            forall|j: int| 0 <= j < i ==> roles@[j] != role,
        decreases roles.len() - i,
    {
        if roles[i] == role {
            assert(roles@[i as int] == role);
            return true;
        }
        i += 1;
    }
    false
}

/// The first node with the given role.
pub fn find_node_with_role(nodes: &Vec<NodeProfile>, role: NodeRole) -> (r: Option<&NodeProfile>)
    ensures
        first_with_role(nodes@, role) <= nodes@.len(),
        r is None <==> first_with_role(nodes@, role) == nodes@.len(),
        r matches Some(n) ==> *n == nodes@[first_with_role(nodes@, role)],
{
    let mut i: usize = 0;
    while i < nodes.len()
        invariant
            i <= nodes@.len(),
            forall|j: int| 0 <= j < i ==> !has_role(#[trigger] nodes@[j], role),
        decreases nodes.len() - i,
    {
        if roles_contain(&nodes[i].roles, role) {
            proof {
                lemma_first_with_role_is(nodes@, role, i as int);
            }
            return Some(&nodes[i]);
        }
        i += 1;
    }
    proof {
        lemma_first_with_role_is(nodes@, role, i as int);
    }
    None
}

impl ClusterProfile {
    /// The superbloom homelab: a NAS control-plane node and one GB10 GPU worker.
    pub fn superbloom_default() -> (r: Self)
        ensures
            r.cluster_name@ == "superbloom"@,
            r.nodes@.len() == 2,
            r.nodes@[0].hostname@ == "superbloom"@,
            r.nodes@[0].roles@ == seq![NodeRole::ControlPlane, NodeRole::Nas],
            r.nodes@[0].gpu_product.is_none(),
            r.nodes@[0].gpu_count == 0,
            r.nodes@[0].gpu_memory_gb == 0,
            r.nodes@[0].taints@.len() == 0,
            r.nodes@[0].model_path.deep_view() == Some("/tank/models"@),
            r.nodes@[1].hostname@ == "gx10-98a5"@,
            r.nodes@[1].roles@ == seq![NodeRole::GpuWorker],
            r.nodes@[1].gpu_product.deep_view() == Some("NVIDIA-GB10"@),
            r.nodes@[1].gpu_count == 1,
            r.nodes@[1].gpu_memory_gb == 128,
            r.nodes@[1].taints@.len() == 2,
            r.nodes@[1].taints@[0].key@ == "nvidia.com/gpu"@,
            r.nodes@[1].taints@[0].effect@ == "NoSchedule"@,
            r.nodes@[1].taints@[1].key@ == "nvidia.com/gpu"@,
            r.nodes@[1].taints@[1].effect@ == "NoExecute"@,
            r.nodes@[1].model_path.deep_view() == Some("/mnt/nas/models"@),
            r.default_namespace@ == "ai"@,
            r.available_serving_runtimes.deep_view() == seq!["vllm"@],
            r.max_gpu_per_pod == 1,
            r.ingress_mode == IngressMode::ClusterLocal,
            r.model_storage.nas_hostname@ == "superbloom"@,
            r.model_storage.nas_path@ == "/tank/models"@,
            r.model_storage.gpu_node_path@ == "/mnt/nas/models"@,
            r.model_storage.download_node_selector@ == "superbloom"@,
            r.model_storage.hf_secret_name@ == "hf-token"@,
            r.model_storage.hf_secret_namespace@ == "ai"@,
    {
        let mut nas_roles = Vec::new();
        nas_roles.push(NodeRole::ControlPlane);
        nas_roles.push(NodeRole::Nas);
        let mut gpu_roles = Vec::new();
        gpu_roles.push(NodeRole::GpuWorker);
        let mut taints = Vec::new();
        taints.push(Taint { key: "nvidia.com/gpu".to_owned(), effect: "NoSchedule".to_owned() });
        taints.push(Taint { key: "nvidia.com/gpu".to_owned(), effect: "NoExecute".to_owned() });
        let mut nodes = Vec::new();
        nodes.push(
            NodeProfile {
                hostname: "superbloom".to_owned(),
                roles: nas_roles,
                gpu_product: None,
                gpu_count: 0,
                gpu_memory_gb: 0,
                taints: Vec::new(),
                model_path: Some("/tank/models".to_owned()),
            },
        );
        nodes.push(
            NodeProfile {
                hostname: "gx10-98a5".to_owned(),
                roles: gpu_roles,
                gpu_product: Some("NVIDIA-GB10".to_owned()),
                gpu_count: 1,
                gpu_memory_gb: 128,
                taints,
                model_path: Some("/mnt/nas/models".to_owned()),
            },
        );
        let mut runtimes = Vec::new();
        runtimes.push("vllm".to_owned());
        let r = ClusterProfile {
            cluster_name: "superbloom".to_owned(),
            nodes,
            default_namespace: "ai".to_owned(),
            available_serving_runtimes: runtimes,
            max_gpu_per_pod: 1,
            ingress_mode: IngressMode::ClusterLocal,
            model_storage: ModelStorage {
                nas_hostname: "superbloom".to_owned(),
                nas_path: "/tank/models".to_owned(),
                gpu_node_path: "/mnt/nas/models".to_owned(),
                download_node_selector: "superbloom".to_owned(),
                hf_secret_name: "hf-token".to_owned(),
                hf_secret_namespace: "ai".to_owned(),
            },
        };
        assert(r.nodes@[0].roles@ =~= seq![NodeRole::ControlPlane, NodeRole::Nas]);
        assert(r.nodes@[1].roles@ =~= seq![NodeRole::GpuWorker]);
        assert(r.available_serving_runtimes.deep_view() =~= seq!["vllm"@]);
        r
    }

    /// The first node that works as a GPU worker.
    pub fn gpu_node(&self) -> (r: Option<&NodeProfile>)
        ensures
            r is None <==> first_with_role(self.nodes@, NodeRole::GpuWorker) == self.nodes@.len(),
            r matches Some(n) ==> *n == self.nodes@[first_with_role(self.nodes@, NodeRole::GpuWorker)],
    {
        find_node_with_role(&self.nodes, NodeRole::GpuWorker)
    }

    /// The first node that serves as the NAS.
    pub fn nas_node(&self) -> (r: Option<&NodeProfile>)
        ensures
            r is None <==> first_with_role(self.nodes@, NodeRole::Nas) == self.nodes@.len(),
            r matches Some(n) ==> *n == self.nodes@[first_with_role(self.nodes@, NodeRole::Nas)],
    {
        find_node_with_role(&self.nodes, NodeRole::Nas)
    }
}

} // verus!
