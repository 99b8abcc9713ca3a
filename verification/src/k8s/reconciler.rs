//! The status a `ModelDeployment` gets from its KServe `InferenceService`.
use crate::catalog::crds::{DeploymentStatusView, ModelDeploymentStatus};
use crate::catalog::state::DeploymentState;
use crate::json::{deref_opt, field, field_of, get_opt, items_of, str_of, str_of_opt, text_of, JsonValue};
use crate::text::{str_eq, string_of};
use vstd::prelude::*;

verus! {

/// One entry of an object's `status.conditions`; a missing reason or
/// message is empty.
#[derive(Clone, Debug, PartialEq, Eq)]
pub struct StatusCondition {
    pub type_: String,
    pub status: String,
    pub reason: String,
    pub message: String,
}

pub struct ConditionView {
    pub type_: Seq<char>,
    pub status: Seq<char>,
    pub reason: Seq<char>,
    pub message: Seq<char>,
}

impl View for StatusCondition {
    type V = ConditionView;

    open spec fn view(&self) -> ConditionView {
        ConditionView { type_: self.type_@, status: self.status@, reason: self.reason@, message: self.message@ }
    }
}

impl DeepView for StatusCondition {
    type V = ConditionView;

    open spec fn deep_view(&self) -> ConditionView {
        self@
    }
}

/// Index of the first `Ready` condition, or the number of conditions.
pub open spec fn first_ready(c: Seq<ConditionView>) -> int
    decreases c.len(),
{
    if c.len() == 0 {
        0
    } else if c[0].type_ == "Ready"@ {
        0
    } else {
        1 + first_ready(c.drop_first())
    }
}

pub proof fn lemma_first_ready(c: Seq<ConditionView>)
    ensures
        0 <= first_ready(c) <= c.len(),
        first_ready(c) < c.len() ==> c[first_ready(c)].type_ == "Ready"@,
        forall|j: int| 0 <= j < first_ready(c) ==> (#[trigger] c[j]).type_ != "Ready"@,
    decreases c.len(),
{
    if c.len() > 0 && c[0].type_ != "Ready"@ {
        lemma_first_ready(c.drop_first());
        assert forall|j: int| 0 <= j < first_ready(c) implies (#[trigger] c[j]).type_ != "Ready"@ by {
            if j > 0 {
                assert(c[j] == c.drop_first()[j - 1]);
            }
        }
    }
}

proof fn lemma_first_ready_is(c: Seq<ConditionView>, k: int)
    requires
        0 <= k <= c.len(),
        forall|j: int| 0 <= j < k ==> (#[trigger] c[j]).type_ != "Ready"@,
        k < c.len() ==> c[k].type_ == "Ready"@,
    ensures
        first_ready(c) == k,
    decreases c.len(),
{
    if k > 0 {
        let t = c.drop_first();
        assert(c[0].type_ != "Ready"@);
        assert forall|j: int| 0 <= j < k - 1 implies (#[trigger] t[j]).type_ != "Ready"@ by {
            assert(t[j] == c[j + 1]);
        }
        if k - 1 < t.len() {
            assert(t[k - 1] == c[k]);
        }
        lemma_first_ready_is(t, k - 1);
    }
}

/// The failure reason of a `Ready=False` condition: its message, else its
/// reason, else a fixed text.
pub open spec fn failure_text(c: ConditionView) -> Seq<char> {
    if c.message.len() > 0 {
        c.message
    } else if c.reason.len() > 0 {
        c.reason
    } else {
        "KServe Ready condition is False"@
    }
}

/// State, readiness and failure reason that the conditions call for.
pub open spec fn readiness_of(c: Seq<ConditionView>) -> (DeploymentState, bool, Option<Seq<char>>) {
    let k = first_ready(c);
    if k < c.len() && c[k].status == "True"@ {
        (DeploymentState::Ready, true, None)
    } else if k < c.len() && c[k].status == "False"@ {
        (DeploymentState::Failed, false, Some(failure_text(c[k])))
    } else {
        (DeploymentState::Applying, false, None)
    }
}

/// The transition time: kept while the state stays the same, else now.
pub open spec fn transition_time(
    existing: Option<DeploymentStatusView>,
    state: DeploymentState,
    now: Seq<char>,
) -> Option<Seq<char>> {
    match existing {
        Some(e) => if e.state == state {
            e.last_transition_time
        } else {
            Some(now)
        },
        None => Some(now),
    }
}

pub open spec fn opt_status_view(existing: Option<&ModelDeploymentStatus>) -> Option<DeploymentStatusView> {
    match existing {
        Some(e) => Some(e@),
        None => None,
    }
}

pub open spec fn status_from_conditions(
    existing: Option<DeploymentStatusView>,
    observed_generation: Option<i64>,
    conditions: Seq<ConditionView>,
    url: Option<Seq<char>>,
    now: Seq<char>,
) -> DeploymentStatusView {
    let (state, ready, reason) = readiness_of(conditions);
    DeploymentStatusView {
        state,
        observed_generation,
        last_transition_time: transition_time(existing, state, now),
        failure_reason: reason,
        kserve_ready: ready,
        url,
    }
}

pub open spec fn status_when_missing(
    existing: Option<DeploymentStatusView>,
    observed_generation: Option<i64>,
    now: Seq<char>,
) -> DeploymentStatusView {
    DeploymentStatusView {
        state: DeploymentState::Failed,
        observed_generation,
        last_transition_time: transition_time(existing, DeploymentState::Failed, now),
        failure_reason: Some("KServe InferenceService not found"@),
        kserve_ready: false,
        url: match existing {
            Some(e) => e.url,
            None => None,
        },
    }
}

/// The current time in RFC 3339 form (`chrono::Utc::now().to_rfc3339()`).
/// Nothing is promised of it: it depends on the clock.
#[verifier::external_body]
fn now_rfc3339() -> (r: String) {
    chrono::Utc::now().to_rfc3339()
}

/// Builds a status; the transition time moves to `now` only when the state changes.
pub fn build_status_at(
    existing: Option<&ModelDeploymentStatus>,
    state: DeploymentState,
    observed_generation: Option<i64>,
    kserve_ready: bool,
    failure_reason: Option<String>,
    url: Option<String>,
    now: String,
) -> (r: ModelDeploymentStatus)
    ensures
        r@ == (DeploymentStatusView {
            state,
            observed_generation,
            last_transition_time: transition_time(opt_status_view(existing), state, now@),
            failure_reason: failure_reason.deep_view(),
            kserve_ready,
            url: url.deep_view(),
        }),
{
    let last_transition_time = match existing {
        Some(e) => {
            if e.state == state {
                e.last_transition_time.clone()
            } else {
                Some(now)
            }
        },
        None => Some(now),
    };
    ModelDeploymentStatus { state, observed_generation, last_transition_time, failure_reason, kserve_ready, url }
}

fn find_ready(conditions: &Vec<StatusCondition>) -> (r: Option<usize>)
    ensures
        match r {
            Some(k) => k as int == first_ready(conditions.deep_view()) && k < conditions@.len(),
            None => first_ready(conditions.deep_view()) == conditions@.len(),
        },
{
    let mut i: usize = 0;
    while i < conditions.len()
        invariant
            i <= conditions@.len(),
            forall|j: int| 0 <= j < i ==> (#[trigger] conditions.deep_view()[j]).type_ != "Ready"@,
        decreases conditions.len() - i,
    {
        if str_eq(conditions[i].type_.as_str(), "Ready") {
            proof {
                lemma_first_ready_is(conditions.deep_view(), i as int);
            }
            return Some(i);
        }
        i += 1;
    }
    proof {
        lemma_first_ready_is(conditions.deep_view(), i as int);
    }
    None
}

/// The status that KServe conditions call for, with `now` as the time of a
/// state change: `Ready=True` is ready, `Ready=False` failed with the
/// condition's message or reason, anything else still applying.
pub fn status_from_kserve_conditions_at(
    existing: Option<&ModelDeploymentStatus>,
    observed_generation: Option<i64>,
    conditions: &Vec<StatusCondition>,
    url: Option<String>,
    now: String,
) -> (r: ModelDeploymentStatus)
    ensures
        r@ == status_from_conditions(
            opt_status_view(existing),
            observed_generation,
            conditions.deep_view(),
            url.deep_view(),
            now@,
        ),
{
    let ghost c = conditions.deep_view();
    match find_ready(conditions) {
        Some(k) => {
            let cond = &conditions[k];
            assert(c[k as int] == cond@);
            if str_eq(cond.status.as_str(), "True") {
                build_status_at(existing, DeploymentState::Ready, observed_generation, true, None, url, now)
            } else if str_eq(cond.status.as_str(), "False") {
                let reason = if cond.message.unicode_len() > 0 {
                    cond.message.clone()
                } else if cond.reason.unicode_len() > 0 {
                    cond.reason.clone()
                } else {
                    "KServe Ready condition is False".to_owned()
                };
                build_status_at(
                    existing,
                    DeploymentState::Failed,
                    observed_generation,
                    false,
                    Some(reason),
                    url,
                    now,
                )
            } else {
                build_status_at(existing, DeploymentState::Applying, observed_generation, false, None, url, now)
            }
        },
        None => build_status_at(existing, DeploymentState::Applying, observed_generation, false, None, url, now),
    }
}

/// The status that KServe conditions call for, stamped with the current time
/// when the state changes.
pub fn status_from_kserve_conditions(
    existing: Option<&ModelDeploymentStatus>,
    observed_generation: Option<i64>,
    conditions: Vec<StatusCondition>,
    url: Option<String>,
) -> (r: ModelDeploymentStatus)
    ensures
        exists|now: Seq<char>|
            r@ == status_from_conditions(
                opt_status_view(existing),
                observed_generation,
                conditions.deep_view(),
                url.deep_view(),
                now,
            ),
{
    let now = now_rfc3339();
    status_from_kserve_conditions_at(existing, observed_generation, &conditions, url, now)
}

/// The status of a deployment whose InferenceService is gone, with `now` as
/// the time of a state change: failed, not ready, URL kept.
pub fn missing_inferenceservice_status_at(
    existing: Option<&ModelDeploymentStatus>,
    observed_generation: Option<i64>,
    now: String,
) -> (r: ModelDeploymentStatus)
    ensures
        r@ == status_when_missing(opt_status_view(existing), observed_generation, now@),
{
    let url = match existing {
        Some(e) => e.url.clone(),
        None => None,
    };
    build_status_at(
        existing,
        DeploymentState::Failed,
        observed_generation,
        false,
        Some("KServe InferenceService not found".to_owned()),
        url,
        now,
    )
}

/// The status of a deployment whose InferenceService is gone, stamped with
/// the current time when the state changes.
pub fn missing_inferenceservice_status(
    existing: Option<&ModelDeploymentStatus>,
    observed_generation: Option<i64>,
) -> (r: ModelDeploymentStatus)
    ensures
        exists|now: Seq<char>| r@ == status_when_missing(opt_status_view(existing), observed_generation, now),
{
    let now = now_rfc3339();
    missing_inferenceservice_status_at(existing, observed_generation, now)
}

/// The transition time changes exactly when the state does: with an existing
/// status in the same state it is kept, otherwise it is the time given.
pub proof fn law_transition_time_tracks_state_changes(
    existing: DeploymentStatusView,
    observed_generation: Option<i64>,
    conditions: Seq<ConditionView>,
    url: Option<Seq<char>>,
    now: Seq<char>,
)
    ensures
        ({
            let r = status_from_conditions(Some(existing), observed_generation, conditions, url, now);
            &&& r.state == existing.state ==> r.last_transition_time == existing.last_transition_time
            &&& r.state != existing.state ==> r.last_transition_time == Some(now)
        }),
        ({
            let m = status_when_missing(Some(existing), observed_generation, now);
            &&& existing.state == DeploymentState::Failed ==> m.last_transition_time
                == existing.last_transition_time
            &&& existing.state != DeploymentState::Failed ==> m.last_transition_time == Some(now)
        }),
{
}

/// A deployment is reported ready exactly when its state is `Ready`, and
/// carries a failure reason exactly when its state is `Failed`.
pub proof fn law_readiness_matches_state(conditions: Seq<ConditionView>)
    ensures
        readiness_of(conditions).1 <==> readiness_of(conditions).0 == DeploymentState::Ready,
        readiness_of(conditions).2 is Some <==> readiness_of(conditions).0 == DeploymentState::Failed,
{
}


// ---------------------------------------------------------------------------
// Reading an InferenceService object
// ---------------------------------------------------------------------------

/// A text member, or the empty text when it is absent or not a string.
pub open spec fn text_or_empty(v: Option<JsonValue>) -> Seq<char> {
    match str_of_opt(v) {
        Some(t) => t,
        None => Seq::empty(),
    }
}

/// A condition: its type and status are required, its reason and message
/// default to empty.
pub open spec fn condition_of(c: JsonValue) -> Option<ConditionView> {
    match (str_of_opt(field(c, "type"@)), str_of_opt(field(c, "status"@))) {
        (Some(t), Some(s)) => Some(
            ConditionView {
                type_: t,
                status: s,
                reason: text_or_empty(field(c, "reason"@)),
                message: text_or_empty(field(c, "message"@)),
            },
        ),
        _ => None,
    }
}

/// The conditions among `items`, in order.
pub open spec fn conditions_of(items: Seq<JsonValue>) -> Seq<ConditionView>
    decreases items.len(),
{
    if items.len() == 0 {
        Seq::empty()
    } else {
        let rest = conditions_of(items.drop_last());
        match condition_of(items.last()) {
            Some(c) => rest.push(c),
            None => rest,
        }
    }
}

/// Every entry that reads as a condition is kept, in order, and no other; the
/// conditions of two runs of entries put together are those of the first
/// followed by those of the second.
pub proof fn law_conditions_keep_every_condition(items: Seq<JsonValue>, more: Seq<JsonValue>)
    ensures
        conditions_of(items) == items.filter_map(|v: JsonValue| condition_of(v)),
        conditions_of(items + more) == conditions_of(items) + conditions_of(more),
        conditions_of(items).len() <= items.len(),
    decreases items.len() + more.len(),
{
    if items.len() > 0 {
        law_conditions_keep_every_condition(items.drop_last(), Seq::empty());
        let v = items.last();
        match condition_of(v) {
            Some(x) => {
                assert(conditions_of(items.drop_last()).push(x) =~= conditions_of(items.drop_last()) + seq![x]);
            },
            None => {},
        }
    }
    if more.len() > 0 {
        law_conditions_keep_every_condition(items, more.drop_last());
        assert((items + more).drop_last() =~= items + more.drop_last());
        assert((items + more).last() == more.last());
        let v = more.last();
        match condition_of(v) {
            Some(x) => {
                assert((conditions_of(items) + conditions_of(more.drop_last())).push(x) =~= conditions_of(items)
                    + conditions_of(more.drop_last()).push(x));
            },
            None => {},
        }
    } else {
        assert(items + more =~= items);
        assert(conditions_of(items) + conditions_of(more) =~= conditions_of(items));
    }
}

/// The conditions of an object's `status.conditions`.
pub open spec fn object_conditions(data: JsonValue) -> Seq<ConditionView> {
    match field_of(field(data, "status"@), "conditions"@) {
        Some(list) => match items_of(list) {
            Some(items) => conditions_of(items),
            None => Seq::empty(),
        },
        None => Seq::empty(),
    }
}

/// An object's `status.url`, when it is a string.
pub open spec fn object_url(data: JsonValue) -> Option<Seq<char>> {
    str_of_opt(field_of(field(data, "status"@), "url"@))
}

fn text_or_empty_string(value: Option<&JsonValue>) -> (r: String)
    ensures
        r@ == text_or_empty(deref_opt(value)),
{
    match text_of(value) {
        Some(t) => t,
        None => String::new(),
    }
}

/// Reads the conditions of an object's status.
pub fn dynamic_conditions(data: &JsonValue) -> (r: Vec<StatusCondition>)
    ensures
        r.deep_view() == object_conditions(*data),
{
    let mut out: Vec<StatusCondition> = Vec::new();
    let list = get_opt(data.get("status"), "conditions");
    let items = match list {
        Some(l) => match l.as_array() {
            Some(a) => a,
            None => {
                assert(out.deep_view() =~= Seq::<ConditionView>::empty());
                return out;
            },
        },
        None => {
            assert(out.deep_view() =~= Seq::<ConditionView>::empty());
            return out;
        },
    };
    let mut i: usize = 0;
    assert(out.deep_view() =~= conditions_of(items@.subrange(0, 0)));
    while i < items.len()
        invariant
            i <= items@.len(),
            out.deep_view() == conditions_of(items@.subrange(0, i as int)),
        decreases items@.len() - i,
    {
        let ghost prev = out.deep_view();
        proof {
            let next = items@.subrange(0, i + 1);
            assert(next.drop_last() =~= items@.subrange(0, i as int));
            assert(next.last() == items@[i as int]);
        }
        let c = &items[i];
        match (text_of(c.get("type")), text_of(c.get("status"))) {
            (Some(type_), Some(status)) => {
                let cond = StatusCondition {
                    type_,
                    status,
                    reason: text_or_empty_string(c.get("reason")),
                    message: text_or_empty_string(c.get("message")),
                };
                out.push(cond);
                assert(out.deep_view() =~= prev.push(cond@));
            },
            _ => {},
        }
        i = i + 1;
    }
    assert(items@.subrange(0, items@.len() as int) =~= items@);
    out
}

/// Reads an object's `status.url`.
pub fn dynamic_url(data: &JsonValue) -> (r: Option<String>)
    ensures
        r.deep_view() == object_url(*data),
{
    text_of(get_opt(data.get("status"), "url"))
}

// ---------------------------------------------------------------------------
// One reconciliation of one deployment
// ---------------------------------------------------------------------------

/// What looking up a deployment's InferenceService found.
pub enum ServiceLookup {
    /// The object, by its data.
    Found(JsonValue),
    /// There is none.
    Missing,
    /// The lookup failed otherwise; the deployment is left for the next pass.
    Unreachable,
}

/// A stopped deployment is not reconciled.
pub open spec fn is_stopped(existing: Option<DeploymentStatusView>) -> bool {
    existing matches Some(e) && e.state == DeploymentState::Stopped
}

/// Whether a deployment is reconciled at all. A stopped one is not: whatever
/// a lookup of its InferenceService would find, its status stays, so the
/// lookup is not made.
pub fn needs_reconcile(existing: Option<&ModelDeploymentStatus>) -> (r: bool)
    ensures
        r == !is_stopped(opt_status_view(existing)),
        !r ==> forall|generation: Option<i64>, lookup: ServiceLookup, now: Seq<char>|
            #[trigger] reconciled(opt_status_view(existing), generation, lookup, now) is None,
{
    match existing {
        Some(e) => e.state != DeploymentState::Stopped,
        None => true,
    }
}

/// The new status of a deployment after one lookup, with `now` as the time of
/// a state change: none for a stopped deployment or a failed lookup.
pub open spec fn reconciled(
    existing: Option<DeploymentStatusView>,
    generation: Option<i64>,
    lookup: ServiceLookup,
    now: Seq<char>,
) -> Option<DeploymentStatusView> {
    if is_stopped(existing) {
        None
    } else {
        match lookup {
            ServiceLookup::Found(data) => Some(
                status_from_conditions(existing, generation, object_conditions(data), object_url(data), now),
            ),
            ServiceLookup::Missing => Some(status_when_missing(existing, generation, now)),
            ServiceLookup::Unreachable => None,
        }
    }
}

pub open spec fn status_view_opt(r: Option<ModelDeploymentStatus>) -> Option<DeploymentStatusView> {
    match r {
        Some(s) => Some(s@),
        None => None,
    }
}

pub fn reconcile_step_at(
    existing: Option<&ModelDeploymentStatus>,
    generation: Option<i64>,
    lookup: &ServiceLookup,
    now: String,
) -> (r: Option<ModelDeploymentStatus>)
    ensures
        status_view_opt(r) == reconciled(opt_status_view(existing), generation, *lookup, now@),
{
    if !needs_reconcile(existing) {
        return None;
    }
    match lookup {
        ServiceLookup::Found(data) => {
            let conditions = dynamic_conditions(data);
            let url = dynamic_url(data);
            Some(status_from_kserve_conditions_at(existing, generation, &conditions, url, now))
        },
        ServiceLookup::Missing => Some(missing_inferenceservice_status_at(existing, generation, now)),
        ServiceLookup::Unreachable => None,
    }
}

/// One reconciliation of one deployment, stamped with the current time when
/// its state changes.
pub fn reconcile_step(existing: Option<&ModelDeploymentStatus>, generation: Option<i64>, lookup: &ServiceLookup) -> (r:
    Option<ModelDeploymentStatus>)
    ensures
        exists|now: Seq<char>| status_view_opt(r) == reconciled(opt_status_view(existing), generation, *lookup, now),
{
    let now = now_rfc3339();
    reconcile_step_at(existing, generation, lookup, now)
}

/// A stopped deployment keeps its status, whatever the lookup finds.
pub proof fn law_stopped_deployments_are_left_alone(
    existing: DeploymentStatusView,
    generation: Option<i64>,
    lookup: ServiceLookup,
    now: Seq<char>,
)
    requires
        existing.state == DeploymentState::Stopped,
    ensures
        reconciled(Some(existing), generation, lookup, now) is None,
{
}

} // verus!
