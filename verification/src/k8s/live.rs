//! What the live cluster's answers mean: the phase of a download Job, the
//! status of an InferenceService, recent events and predictor logs.
use crate::json::{deref_opt, field, field_of, get_opt, items_of, str_of_opt, text_of, JsonValue};
use crate::k8s::status::{DownloadJobRef, DownloadStatus, KserveCondition, ModelLogs, ModelStatus};
use crate::text::{concat, push_char, str_eq, string_of};
use vstd::prelude::*;

verus! {

pub struct JobRefView {
    pub job_name: Seq<char>,
    pub namespace: Seq<char>,
    pub model_id: Seq<char>,
}

impl View for DownloadJobRef {
    type V = JobRefView;

    open spec fn view(&self) -> JobRefView {
        JobRefView { job_name: self.job_name@, namespace: self.namespace@, model_id: self.model_id@ }
    }
}

impl DownloadJobRef {
    pub fn duplicate(&self) -> (r: Self)
        ensures
            r@ == self@,
    {
        DownloadJobRef {
            job_name: self.job_name.clone(),
            namespace: self.namespace.clone(),
            model_id: self.model_id.clone(),
        }
    }
}

/// A condition of a Job.
pub struct JobCondition {
    pub type_: String,
    pub status: String,
    pub message: Option<String>,
}

/// What a Job's status reports: its conditions and how many pods run.
pub struct JobStatusFacts {
    pub conditions: Option<Vec<JobCondition>>,
    pub active: Option<i32>,
}

/// What looking up a download Job found.
pub enum JobLookup {
    NotFound,
    Found { status: Option<JobStatusFacts> },
}

/// Where a download stands, as the Job shows it.
pub enum DownloadPhase {
    NotStarted,
    JobCreated,
    Running,
    Completed,
    Failed(Seq<char>),
}

pub open spec fn has_condition(c: Seq<JobCondition>, type_: Seq<char>) -> bool {
    exists|i: int| 0 <= i < c.len() && (#[trigger] c[i]).type_@ == type_ && c[i].status@ == "True"@
}

/// The first condition of the type that holds, if one does.
pub open spec fn first_condition(c: Seq<JobCondition>, type_: Seq<char>) -> Option<JobCondition>
    decreases c.len(),
{
    if c.len() == 0 {
        None
    } else if c[0].type_@ == type_ && c[0].status@ == "True"@ {
        Some(c[0])
    } else {
        first_condition(c.drop_first(), type_)
    }
}

/// A missing Job has not started; a Job that reports nothing is created; one
/// that completed or failed says so (completion first); one with running
/// pods runs; any other is created.
pub open spec fn download_phase(lookup: JobLookup) -> DownloadPhase {
    match lookup {
        JobLookup::NotFound => DownloadPhase::NotStarted,
        JobLookup::Found { status: None } => DownloadPhase::JobCreated,
        JobLookup::Found { status: Some(s) } => {
            let conditions = match s.conditions {
                Some(c) => c@,
                None => Seq::empty(),
            };
            if has_condition(conditions, "Complete"@) {
                DownloadPhase::Completed
            } else if first_condition(conditions, "Failed"@) is Some {
                DownloadPhase::Failed(
                    match first_condition(conditions, "Failed"@).unwrap().message {
                        Some(m) => m@,
                        None => "unknown"@,
                    },
                )
            } else if s.active matches Some(a) && a > 0 {
                DownloadPhase::Running
            } else {
                DownloadPhase::JobCreated
            }
        },
    }
}

/// The status reads as the phase, about the given Job.
pub open spec fn status_shows(r: DownloadStatus, phase: DownloadPhase, job_ref: JobRefView) -> bool {
    match phase {
        DownloadPhase::NotStarted => r is NotStarted,
        DownloadPhase::JobCreated => r matches DownloadStatus::JobCreated { job_ref: j } && j@ == job_ref,
        DownloadPhase::Running => r matches DownloadStatus::Running { job_ref: j } && j@ == job_ref,
        DownloadPhase::Completed => r matches DownloadStatus::Completed { job_ref: j } && j@ == job_ref,
        DownloadPhase::Failed(reason) => r matches DownloadStatus::Failed { job_ref: j, reason: m } && j@
            == job_ref && m@ == reason,
    }
}

fn find_true_condition(c: &Vec<JobCondition>, type_: &str) -> (r: Option<usize>)
    ensures
        match r {
            Some(i) => i < c@.len() && first_condition(c@, type_@) == Some(c@[i as int]),
            None => first_condition(c@, type_@) is None,
        },
        (r is Some) == has_condition(c@, type_@),
{
    let ghost all = c@;
    let mut i: usize = 0;
    assert(all.subrange(0, all.len() as int) =~= all);
    while i < c.len()
        invariant
            all == c@,
            i <= all.len(),
            first_condition(all, type_@) == first_condition(all.subrange(i as int, all.len() as int), type_@),
            forall|k: int|
                0 <= k < i ==> !((#[trigger] all[k]).type_@ == type_@ && all[k].status@ == "True"@),
        decreases all.len() - i,
    {
        let ghost rest = all.subrange(i as int, all.len() as int);
        assert(rest.drop_first() =~= all.subrange(i + 1, all.len() as int));
        assert(rest[0] == all[i as int]);
        if str_eq(c[i].type_.as_str(), type_) && str_eq(c[i].status.as_str(), "True") {
            return Some(i);
        }
        i = i + 1;
    }
    assert(all.subrange(all.len() as int, all.len() as int) =~= Seq::<JobCondition>::empty());
    None
}

/// Reads a download Job's phase.
pub fn download_status_of(job_ref: &DownloadJobRef, lookup: &JobLookup) -> (r: DownloadStatus)
    ensures
        status_shows(r, download_phase(*lookup), job_ref@),
{
    let status = match lookup {
        JobLookup::NotFound => {
            return DownloadStatus::NotStarted;
        },
        JobLookup::Found { status: None } => {
            return DownloadStatus::JobCreated { job_ref: job_ref.duplicate() };
        },
        JobLookup::Found { status: Some(s) } => s,
    };
    let empty: Vec<JobCondition> = Vec::new();
    let conditions = match &status.conditions {
        Some(c) => c,
        None => &empty,
    };
    if find_true_condition(conditions, "Complete").is_some() {
        return DownloadStatus::Completed { job_ref: job_ref.duplicate() };
    }
    if let Some(i) = find_true_condition(conditions, "Failed") {
        let reason = match &conditions[i].message {
            Some(m) => m.clone(),
            None => string_of("unknown"),
        };
        return DownloadStatus::Failed { job_ref: job_ref.duplicate(), reason };
    }
    match status.active {
        Some(a) => if a > 0 {
            DownloadStatus::Running { job_ref: job_ref.duplicate() }
        } else {
            DownloadStatus::JobCreated { job_ref: job_ref.duplicate() }
        },
        None => DownloadStatus::JobCreated { job_ref: job_ref.duplicate() },
    }
}

// ---------------------------------------------------------------------------
// InferenceService status
// ---------------------------------------------------------------------------

pub struct KserveConditionView {
    pub condition_type: Seq<char>,
    pub status: Seq<char>,
    pub reason: Option<Seq<char>>,
    pub message: Option<Seq<char>>,
}

impl View for KserveCondition {
    type V = KserveConditionView;

    open spec fn view(&self) -> KserveConditionView {
        KserveConditionView {
            condition_type: self.condition_type@,
            status: self.status@,
            reason: self.reason.deep_view(),
            message: self.message.deep_view(),
        }
    }
}

impl DeepView for KserveCondition {
    type V = KserveConditionView;

    open spec fn deep_view(&self) -> KserveConditionView {
        self@
    }
}

/// A condition of an InferenceService: type and status required, reason and
/// message when they are strings.
pub open spec fn kserve_condition_of(c: JsonValue) -> Option<KserveConditionView> {
    match (str_of_opt(field(c, "type"@)), str_of_opt(field(c, "status"@))) {
        (Some(t), Some(s)) => Some(
            KserveConditionView {
                condition_type: t,
                status: s,
                reason: str_of_opt(field(c, "reason"@)),
                message: str_of_opt(field(c, "message"@)),
            },
        ),
        _ => None,
    }
}

pub open spec fn kserve_conditions_of(items: Seq<JsonValue>) -> Seq<KserveConditionView>
    decreases items.len(),
{
    if items.len() == 0 {
        Seq::empty()
    } else {
        let rest = kserve_conditions_of(items.drop_last());
        match kserve_condition_of(items.last()) {
            Some(c) => rest.push(c),
            None => rest,
        }
    }
}

/// Every entry that reads as a condition is kept, in order, and no other; the
/// conditions of two runs of entries put together are those of the first
/// followed by those of the second.
pub proof fn law_kserve_conditions_keep_every_condition(items: Seq<JsonValue>, more: Seq<JsonValue>)
    ensures
        kserve_conditions_of(items) == items.filter_map(|v: JsonValue| kserve_condition_of(v)),
        kserve_conditions_of(items + more) == kserve_conditions_of(items) + kserve_conditions_of(more),
        kserve_conditions_of(items).len() <= items.len(),
    decreases items.len() + more.len(),
{
    if items.len() > 0 {
        law_kserve_conditions_keep_every_condition(items.drop_last(), Seq::empty());
        let v = items.last();
        match kserve_condition_of(v) {
            Some(x) => {
                assert(kserve_conditions_of(items.drop_last()).push(x) =~= kserve_conditions_of(items.drop_last()) + seq![x]);
            },
            None => {},
        }
    }
    if more.len() > 0 {
        law_kserve_conditions_keep_every_condition(items, more.drop_last());
        assert((items + more).drop_last() =~= items + more.drop_last());
        assert((items + more).last() == more.last());
        let v = more.last();
        match kserve_condition_of(v) {
            Some(x) => {
                assert((kserve_conditions_of(items) + kserve_conditions_of(more.drop_last())).push(x) =~= kserve_conditions_of(items)
                    + kserve_conditions_of(more.drop_last()).push(x));
            },
            None => {},
        }
    } else {
        assert(items + more =~= items);
        assert(kserve_conditions_of(items) + kserve_conditions_of(more) =~= kserve_conditions_of(items));
    }
}

/// The conditions of an InferenceService object's status.
pub open spec fn service_conditions(data: JsonValue) -> Seq<KserveConditionView> {
    match field_of(field(data, "status"@), "conditions"@) {
        Some(list) => match items_of(list) {
            Some(items) => kserve_conditions_of(items),
            None => Seq::empty(),
        },
        None => Seq::empty(),
    }
}

pub open spec fn service_ready(c: Seq<KserveConditionView>) -> bool {
    exists|i: int| 0 <= i < c.len() && (#[trigger] c[i]).condition_type == "Ready"@ && c[i].status == "True"@
}

/// The status of an InferenceService from its object, with the recent events
/// of its namespace.
pub fn model_status(namespace: &str, name: &str, data: &JsonValue, recent_events: Vec<String>) -> (r: ModelStatus)
    ensures
        r.namespace@ == namespace@,
        r.name@ == name@,
        r.conditions.deep_view() == service_conditions(*data),
        r.ready == service_ready(service_conditions(*data)),
        r.recent_events@ == recent_events@,
{
    let mut conditions: Vec<KserveCondition> = Vec::new();
    let list = get_opt(data.get("status"), "conditions");
    let items = match list {
        Some(l) => l.as_array(),
        None => None,
    };
    if let Some(items) = items {
        let mut i: usize = 0;
        assert(conditions.deep_view() =~= kserve_conditions_of(items@.subrange(0, 0)));
        while i < items.len()
            invariant
                i <= items@.len(),
                conditions.deep_view() == kserve_conditions_of(items@.subrange(0, i as int)),
            decreases items@.len() - i,
        {
            let ghost prev = conditions.deep_view();
            proof {
                let next = items@.subrange(0, i + 1);
                assert(next.drop_last() =~= items@.subrange(0, i as int));
                assert(next.last() == items@[i as int]);
            }
            let c = &items[i];
            match (text_of(c.get("type")), text_of(c.get("status"))) {
                (Some(condition_type), Some(status)) => {
                    let cond = KserveCondition {
                        condition_type,
                        status,
                        reason: text_of(c.get("reason")),
                        message: text_of(c.get("message")),
                    };
                    conditions.push(cond);
                    assert(conditions.deep_view() =~= prev.push(cond@));
                },
                _ => {},
            }
            i = i + 1;
        }
        assert(items@.subrange(0, items@.len() as int) =~= items@);
    } else {
        assert(conditions.deep_view() =~= Seq::<KserveConditionView>::empty());
    }
    let ghost cv = conditions.deep_view();
    let mut ready = false;
    let mut k: usize = 0;
    while k < conditions.len()
        invariant
            cv == conditions.deep_view(),
            k <= cv.len(),
            ready == exists|j: int| 0 <= j < k && (#[trigger] cv[j]).condition_type == "Ready"@ && cv[j].status
                == "True"@,
        decreases cv.len() - k,
    {
        assert(cv[k as int] == conditions@[k as int]@);
        if str_eq(conditions[k].condition_type.as_str(), "Ready") && str_eq(conditions[k].status.as_str(), "True") {
            ready = true;
        }
        k = k + 1;
    }
    ModelStatus {
        namespace: string_of(namespace),
        name: string_of(name),
        ready,
        conditions,
        recent_events,
    }
}

/// An event line: the involved object's name (`unknown` when it has none) and
/// the message; an event without a message gives no line.
pub fn event_line(involved_name: Option<&str>, message: Option<&str>) -> (r: Option<String>)
    ensures
        match message {
            None => r is None,
            Some(m) => r matches Some(line) && line@ == (match involved_name {
                Some(n) => n@,
                None => "unknown"@,
            }) + ": "@ + m@,
        },
{
    let m = message?;
    let head = match involved_name {
        Some(n) => concat(n, ": "),
        None => concat("unknown", ": "),
    };
    Some(concat(head.as_str(), m))
}

/// The name in a manifest's metadata, or `unknown`.
pub fn manifest_name(manifest: &JsonValue) -> (r: String)
    ensures
        r@ == match str_of_opt(field_of(field(*manifest, "metadata"@), "name"@)) {
            Some(n) => n,
            None => "unknown"@,
        },
{
    match text_of(get_opt(manifest.get("metadata"), "name")) {
        Some(n) => n,
        None => string_of("unknown"),
    }
}

// ---------------------------------------------------------------------------
// Predictor logs
// ---------------------------------------------------------------------------

/// The label selector of an InferenceService's predictor pods.
pub fn predictor_selector(name: &str) -> (r: String)
    ensures
        r@ == "serving.kserve.io/inferenceservice="@ + name@,
{
    concat("serving.kserve.io/inferenceservice=", name)
}

/// The pod whose logs are read: the first listed, or a placeholder.
pub fn log_pod_name(first_pod: Option<&str>) -> (r: String)
    ensures
        r@ == match first_pod {
            Some(p) => p@,
            None => "no-pod-found"@,
        },
{
    match first_pod {
        Some(p) => string_of(p),
        None => string_of("no-pod-found"),
    }
}

/// A line without the carriage return that ended it.
pub open spec fn strip_cr(line: Seq<char>) -> Seq<char> {
    if line.len() > 0 && line.last() == '\r' {
        line.drop_last()
    } else {
        line
    }
}

/// The lines ended so far in `s`, and the line still open.
pub open spec fn line_state(s: Seq<char>) -> (Seq<Seq<char>>, Seq<char>)
    decreases s.len(),
{
    if s.len() == 0 {
        (Seq::empty(), Seq::empty())
    } else {
        let (done, open) = line_state(s.drop_last());
        if s.last() == '\n' {
            (done.push(strip_cr(open)), Seq::empty())
        } else {
            (done, open.push(s.last()))
        }
    }
}

/// The lines of a text, as `str::lines` reads them: ended by `\n` or `\r\n`,
/// the last one with or without an ending.
pub open spec fn text_lines(s: Seq<char>) -> Seq<Seq<char>> {
    let (done, open) = line_state(s);
    if open.len() > 0 {
        done.push(open)
    } else {
        done
    }
}

fn strip_cr_string(line: &String) -> (r: String)
    ensures
        r@ == strip_cr(line@),
{
    let n = line.unicode_len();
    let end = if n > 0 && line.as_str().get_char(n - 1) == '\r' {
        n - 1
    } else {
        n
    };
    let mut out = String::new();
    let mut i: usize = 0;
    while i < end
        invariant
            n == line@.len(),
            end <= n,
            i <= end,
            out@ == line@.subrange(0, i as int),
        decreases end - i,
    {
        push_char(&mut out, line.as_str().get_char(i));
        assert(out@ =~= line@.subrange(0, i + 1));
        i = i + 1;
    }
    proof {
        if n > 0 && line@.last() == '\r' {
            assert(line@.drop_last() =~= line@.subrange(0, n - 1));
        } else {
            assert(line@.subrange(0, n as int) =~= line@);
        }
    }
    out
}

/// Splits a log text into its lines.
pub fn log_lines(text: &str) -> (r: Vec<String>)
    ensures
        r.deep_view() == text_lines(text@),
{
    let n = text.unicode_len();
    let mut done: Vec<String> = Vec::new();
    let mut open = String::new();
    let mut i: usize = 0;
    assert(text@.subrange(0, 0) =~= Seq::<char>::empty());
    assert(done.deep_view() =~= Seq::<Seq<char>>::empty());
    while i < n
        invariant
            n == text@.len(),
            i <= n,
            (done.deep_view(), open@) == line_state(text@.subrange(0, i as int)),
        decreases n - i,
    {
        let c = text.get_char(i);
        proof {
            let next = text@.subrange(0, i + 1);
            assert(next.drop_last() =~= text@.subrange(0, i as int));
            assert(next.last() == c);
        }
        if c == '\n' {
            let line = strip_cr_string(&open);
            let ghost prev = done.deep_view();
            done.push(line);
            assert(done.deep_view() =~= prev.push(line@));
            open = String::new();
            assert(open@ =~= Seq::<char>::empty());
        } else {
            push_char(&mut open, c);
        }
        i = i + 1;
    }
    assert(text@.subrange(0, n as int) =~= text@);
    if open.unicode_len() > 0 {
        let ghost prev = done.deep_view();
        done.push(open);
        assert(done.deep_view() =~= prev.push(open@));
    }
    done
}

/// The logs read from a predictor pod.
pub fn model_logs(namespace: &str, name: &str, text: &str) -> (r: ModelLogs)
    ensures
        r.namespace@ == namespace@,
        r.name@ == name@,
        r.lines.deep_view() == text_lines(text@),
{
    ModelLogs { namespace: string_of(namespace), name: string_of(name), lines: log_lines(text) }
}

} // verus!
