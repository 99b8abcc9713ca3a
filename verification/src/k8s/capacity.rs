//! What the cluster tells about a node's capacity: readiness, the models that
//! run there, and the GPU readings of the metrics service.
use crate::catalog::capacity::ActiveModelCapacity;
use crate::catalog::types::ResourceRequests;
use crate::json::{deref_opt, field, field_of, items_of, str_of, JsonValue};
use crate::k8s::reconciler::{ConditionView, StatusCondition};
use crate::text::{concat, str_eq, string_of, trim_end_char, trim_end_matches_char};
use vstd::prelude::*;

verus! {

/// Some condition says `Ready` is `True`.
pub open spec fn has_ready_condition(conditions: Seq<ConditionView>) -> bool {
    exists|i: int|
        0 <= i < conditions.len() && (#[trigger] conditions[i]).type_ == "Ready"@ && conditions[i].status
            == "True"@
}

/// Whether the conditions of a node or a pod say it is ready; no conditions
/// say it is not.
pub fn node_is_ready(conditions: Option<&Vec<StatusCondition>>) -> (r: bool)
    ensures
        r == match conditions {
            Some(c) => has_ready_condition(c.deep_view()),
            None => false,
        },
{
    let list = match conditions {
        Some(c) => c,
        None => {
            return false;
        },
    };
    let ghost cv = list.deep_view();
    let mut i: usize = 0;
    while i < list.len()
        invariant
            cv == list.deep_view(),
            i <= cv.len(),
            match conditions {
                Some(c) => c.deep_view() == cv,
                None => false,
            },
            forall|k: int|
                0 <= k < i ==> !((#[trigger] cv[k]).type_ == "Ready"@ && cv[k].status == "True"@),
        decreases cv.len() - i,
    {
        assert(cv[i as int] == list@[i as int]@);
        if str_eq(list[i].type_.as_str(), "Ready") && str_eq(list[i].status.as_str(), "True") {
            assert(cv[i as int].type_ == "Ready"@ && cv[i as int].status == "True"@);
            return true;
        }
        i = i + 1;
    }
    false
}

/// What the cluster reports of a pod: its name, namespace, labels and
/// conditions, each possibly absent.
pub struct PodFacts {
    pub name: Option<String>,
    pub namespace: Option<String>,
    pub labels: Option<Vec<(String, String)>>,
    pub conditions: Option<Vec<StatusCondition>>,
}

/// The value of the first label named `key`.
pub open spec fn label_value(labels: Seq<(String, String)>, key: Seq<char>) -> Option<Seq<char>>
    decreases labels.len(),
{
    if labels.len() == 0 {
        None
    } else if labels[0].0@ == key {
        Some(labels[0].1@)
    } else {
        label_value(labels.drop_first(), key)
    }
}

fn find_label(labels: &Vec<(String, String)>, key: &str) -> (r: Option<String>)
    ensures
        r.deep_view() == label_value(labels@, key@),
{
    let ghost all = labels@;
    let mut i: usize = 0;
    assert(all.subrange(0, all.len() as int) =~= all);
    while i < labels.len()
        invariant
            all == labels@,
            i <= all.len(),
            label_value(all, key@) == label_value(all.subrange(i as int, all.len() as int), key@),
        decreases all.len() - i,
    {
        let ghost rest = all.subrange(i as int, all.len() as int);
        assert(rest.drop_first() =~= all.subrange(i + 1, all.len() as int));
        assert(rest[0] == all[i as int]);
        if str_eq(labels[i].0.as_str(), key) {
            return Some(labels[i].1.clone());
        }
        i = i + 1;
    }
    None
}

/// A running model as its pod shows it, when the pod has labels, a name and
/// a namespace; what it requests is not known from the pod.
pub fn active_model_from_pod(pod: &PodFacts) -> (r: Option<ActiveModelCapacity>)
    ensures
        (pod.labels is Some && pod.name is Some && pod.namespace is Some) == (r is Some),
        r matches Some(m) ==> {
            &&& m.name@ == pod.name.unwrap()@
            &&& m.namespace@ == pod.namespace.unwrap()@
            &&& m.recipe_id.deep_view() == label_value(pod.labels.unwrap()@, "homelab.saavylab.dev/recipe-id"@)
            &&& m.requested@.cpu == "unknown"@
            &&& m.requested@.memory == "unknown"@
            &&& m.requested.gpu_count == 1
            &&& m.ready == match pod.conditions {
                Some(c) => has_ready_condition(c.deep_view()),
                None => false,
            }
        },
{
    let labels = match &pod.labels {
        Some(l) => l,
        None => {
            return None;
        },
    };
    let name = match &pod.name {
        Some(n) => n.clone(),
        None => {
            return None;
        },
    };
    let namespace = match &pod.namespace {
        Some(n) => n.clone(),
        None => {
            return None;
        },
    };
    let recipe_id = find_label(labels, "homelab.saavylab.dev/recipe-id");
    let ready = match &pod.conditions {
        Some(c) => node_is_ready(Some(c)),
        None => node_is_ready(None),
    };
    Some(ActiveModelCapacity {
        name,
        namespace,
        recipe_id,
        requested: ResourceRequests {
            cpu: string_of("unknown"),
            memory: string_of("unknown"),
            gpu_count: 1,
        },
        ready,
    })
}

/// The sample text of a metrics answer: the second entry of the `value` of
/// the first result, when it is a string.
pub open spec fn scalar_sample(response: JsonValue) -> Option<Seq<char>> {
    match field_of(field(response, "data"@), "result"@) {
        Some(results) => match items_of(results) {
            Some(items) => if items.len() > 0 {
                match field(items[0], "value"@) {
                    Some(value) => match items_of(value) {
                        Some(pair) => if pair.len() > 1 {
                            str_of(pair[1])
                        } else {
                            None
                        },
                        None => None,
                    },
                    None => None,
                }
            } else {
                None
            },
            None => None,
        },
        None => None,
    }
}

/// Reads the sample text of a scalar metrics answer; the number itself is
/// read from it by the caller.
pub fn prometheus_scalar_text(response: &JsonValue) -> (r: Option<String>)
    ensures
        r.deep_view() == scalar_sample(*response),
{
    let data = response.get("data")?;
    let results = data.get("result")?;
    let items = results.as_array()?;
    if items.len() == 0 {
        return None;
    }
    let value = items[0].get("value")?;
    let pair = value.as_array()?;
    if pair.len() <= 1 {
        return None;
    }
    let text = pair[1].as_str()?;
    Some(string_of(text))
}

/// The query endpoint of the metrics service at `base`.
pub fn prometheus_query_url(base: &str) -> (r: String)
    ensures
        r@ == trim_end_char(base@, '/') + "/api/v1/query"@,
{
    let b = trim_end_matches_char(base, '/');
    concat(b.as_str(), "/api/v1/query")
}

/// The risk noted when there is no metrics service to ask.
pub fn capacity_risks(metrics_configured: bool) -> (r: Vec<String>)
    ensures
        metrics_configured ==> r@.len() == 0,
        !metrics_configured ==> r.deep_view() == seq![
            "PROMETHEUS_BASE_URL is not configured; fit uses Kubernetes state only"@,
        ],
{
    let mut risks: Vec<String> = Vec::new();
    if !metrics_configured {
        risks.push(string_of("PROMETHEUS_BASE_URL is not configured; fit uses Kubernetes state only"));
        assert(risks.deep_view() =~= seq!["PROMETHEUS_BASE_URL is not configured; fit uses Kubernetes state only"@]);
    }
    risks
}

} // verus!
