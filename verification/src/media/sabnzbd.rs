//! What the library reads from the download manager's answers: downloads in
//! the queue and the history, and whether an action took effect.
use crate::api_model::{DownloadItem, DownloadItemView, MediaOperation};
use crate::catalog::policy::{eq_ignore_ascii_case, eq_ignore_ascii_case_exec};
use crate::json::{bool_of, deref_opt, field, field_of, get_opt, items_of, str_of, JsonValue};
use crate::media::error::{upstream_retryable, MediaError};
use crate::text::{decimal, i64_to_decimal, int_decimal, str_eq, string_of, trim, trimmed, u64_to_decimal};
use crate::json::{i64_of, u64_of};
use vstd::prelude::*;

verus! {

/// A download id must name one download: it is neither blank nor `all`.
pub open spec fn specific_id(nzo_id: Seq<char>) -> bool {
    trimmed(nzo_id).len() > 0 && !eq_ignore_ascii_case(trimmed(nzo_id), "all"@)
}

pub fn require_id(nzo_id: &str) -> (r: Result<(), MediaError>)
    ensures
        specific_id(nzo_id@) ==> r is Ok,
        !specific_id(nzo_id@) ==> (r matches Err(MediaError::Validation(m)) && m@
            == "a specific nzo_id is required"@),
{
    let t = trim(nzo_id);
    if t.unicode_len() == 0 || eq_ignore_ascii_case_exec(t.as_str(), "all") {
        Err(MediaError::Validation(string_of("a specific nzo_id is required")))
    } else {
        Ok(())
    }
}

/// The ids an action answer lists.
pub open spec fn answer_ids(value: JsonValue) -> Option<Seq<JsonValue>> {
    match field(value, "nzo_ids"@) {
        Some(ids) => items_of(ids),
        None => None,
    }
}

pub open spec fn answer_status(value: JsonValue) -> Option<bool> {
    match field(value, "status"@) {
        Some(s) => bool_of(s),
        None => None,
    }
}

/// The action succeeded and names the download.
pub open spec fn action_names(value: JsonValue, nzo_id: Seq<char>) -> bool {
    answer_status(value) == Some(true) && match answer_ids(value) {
        Some(ids) => exists|i: int| 0 <= i < ids.len() && str_of(#[trigger] ids[i]) == Some(nzo_id),
        None => false,
    }
}

/// The action did not fail, and its list of ids leaves the download out.
pub open spec fn action_skips(value: JsonValue, nzo_id: Seq<char>) -> bool {
    answer_status(value) != Some(false) && match answer_ids(value) {
        Some(ids) => forall|i: int| 0 <= i < ids.len() ==> str_of(#[trigger] ids[i]) != Some(nzo_id),
        None => false,
    }
}

fn status_flag(value: &JsonValue) -> (r: Option<bool>)
    ensures
        r == answer_status(*value),
{
    match value.get("status") {
        Some(s) => s.as_bool(),
        None => None,
    }
}

fn id_is(v: &JsonValue, nzo_id: &str) -> (r: bool)
    ensures
        r == (str_of(*v) == Some(nzo_id@)),
{
    match v.as_str() {
        Some(s) => str_eq(s, nzo_id),
        None => false,
    }
}

pub fn action_contains_id(value: &JsonValue, nzo_id: &str) -> (r: bool)
    ensures
        r == action_names(*value, nzo_id@),
{
    if status_flag(value) != Some(true) {
        return false;
    }
    let ids = match value.get("nzo_ids") {
        Some(ids) => match ids.as_array() {
            Some(a) => a,
            None => {
                return false;
            },
        },
        None => {
            return false;
        },
    };
    let mut i: usize = 0;
    while i < ids.len()
        invariant
            i <= ids@.len(),
            answer_status(*value) == Some(true),
            answer_ids(*value) == Some(ids@),
            forall|k: int| 0 <= k < i ==> str_of(#[trigger] ids@[k]) != Some(nzo_id@),
        decreases ids@.len() - i,
    {
        if id_is(&ids[i], nzo_id) {
            assert(str_of(ids@[i as int]) == Some(nzo_id@));
            return true;
        }
        i = i + 1;
    }
    false
}

pub fn valid_empty_action(value: &JsonValue, nzo_id: &str) -> (r: bool)
    ensures
        r == action_skips(*value, nzo_id@),
{
    if status_flag(value) == Some(false) {
        return false;
    }
    let ids = match value.get("nzo_ids") {
        Some(ids) => match ids.as_array() {
            Some(a) => a,
            None => {
                return false;
            },
        },
        None => {
            return false;
        },
    };
    let mut i: usize = 0;
    while i < ids.len()
        invariant
            i <= ids@.len(),
            answer_status(*value) != Some(false),
            answer_ids(*value) == Some(ids@),
            forall|k: int| 0 <= k < i ==> str_of(#[trigger] ids@[k]) != Some(nzo_id@),
        decreases ids@.len() - i,
    {
        if id_is(&ids[i], nzo_id) {
            assert(str_of(ids@[i as int]) == Some(nzo_id@));
            return false;
        }
        i = i + 1;
    }
    true
}

/// The operation done on a download.
pub fn operation(operation_name: &str, nzo_id: &str) -> (r: MediaOperation)
    ensures
        r@.service == "sabnzbd"@,
        r@.operation == operation_name@,
        r@.affected_id == Some(nzo_id@),
{
    MediaOperation {
        service: string_of("sabnzbd"),
        operation: string_of(operation_name),
        affected_id: Some(string_of(nzo_id)),
    }
}

/// An answer that carries an error is a failure of the upstream.
pub open spec fn answer_has_error(value: JsonValue) -> bool {
    match field(value, "error"@) {
        Some(e) => !(e is Null),
        None => false,
    }
}

pub fn reports_error(value: &JsonValue) -> (r: bool)
    ensures
        r == answer_has_error(*value),
{
    match value.get("error") {
        Some(e) => !e.is_null(),
        None => false,
    }
}

// ---------------------------------------------------------------------------
// Downloads
// ---------------------------------------------------------------------------

/// A string as it is, an integer in decimal, or another number in the text
/// it is displayed with.
pub open spec fn scalar_text(v: JsonValue) -> Option<Seq<char>> {
    match v {
        JsonValue::Str(s) => Some(s@),
        JsonValue::Float { display, .. } => Some(display@),
        _ => match i64_of(v) {
            Some(i) => Some(int_decimal(i as int)),
            None => match u64_of(v) {
                Some(u) => Some(decimal(u as nat)),
                None => None,
            },
        },
    }
}

pub open spec fn scalar_text_of(v: Option<JsonValue>) -> Option<Seq<char>> {
    match v {
        Some(x) => scalar_text(x),
        None => None,
    }
}

pub fn scalar_string(value: &JsonValue) -> (r: Option<String>)
    ensures
        match r {
            Some(s) => scalar_text(*value) == Some(s@),
            None => scalar_text(*value) is None,
        },
{
    match value {
        JsonValue::Str(s) => Some(s.clone()),
        JsonValue::Float { display, .. } => Some(display.clone()),
        _ => {
            if let Some(i) = value.as_i64() {
                return Some(i64_to_decimal(i));
            }
            if let Some(u) = value.as_u64() {
                return Some(u64_to_decimal(u));
            }
            None
        },
    }
}

fn scalar_of(value: Option<&JsonValue>) -> (r: Option<String>)
    ensures
        match r {
            Some(s) => scalar_text_of(deref_opt(value)) == Some(s@),
            None => scalar_text_of(deref_opt(value)) is None,
        },
{
    match value {
        Some(v) => scalar_string(v),
        None => None,
    }
}

/// The first of two members that is present.
pub open spec fn either(v: JsonValue, first: Seq<char>, second: Seq<char>) -> Option<JsonValue> {
    match field(v, first) {
        Some(x) => Some(x),
        None => field(v, second),
    }
}

fn either_of<'a>(value: &'a JsonValue, first: &str, second: &str) -> (r: Option<&'a JsonValue>)
    ensures
        deref_opt(r) == either(*value, first@, second@),
{
    match value.get(first) {
        Some(x) => Some(x),
        None => value.get(second),
    }
}

/// A download as a list of the download manager reports it: its id, with
/// the name, status, progress and size read from the members that this list
/// uses.
pub open spec fn download_of(
    value: JsonValue,
    name_first: Seq<char>,
    name_second: Seq<char>,
    size_second: Seq<char>,
) -> Option<DownloadItemView> {
    match scalar_text_of(field(value, "nzo_id"@)) {
        Some(id) => Some(
            DownloadItemView {
                id,
                name: match scalar_text_of(either(value, name_first, name_second)) {
                    Some(n) => n,
                    None => Seq::empty(),
                },
                status: match scalar_text_of(field(value, "status"@)) {
                    Some(s) => s,
                    None => Seq::empty(),
                },
                percentage: scalar_text_of(field(value, "percentage"@)),
                size: scalar_text_of(either(value, "size"@, size_second)),
            },
        ),
        None => None,
    }
}

/// A queue slot names itself by `filename`, then `name`, and gives its size
/// in `size`, then `mb`.
pub open spec fn queue_item_of(value: JsonValue) -> Option<DownloadItemView> {
    download_of(value, "filename"@, "name"@, "mb"@)
}

/// A history slot names itself by `name`, then `filename`, and gives its size
/// in `size`, then `bytes`.
pub open spec fn history_item_of(value: JsonValue) -> Option<DownloadItemView> {
    download_of(value, "name"@, "filename"@, "bytes"@)
}

pub open spec fn download_view_opt(r: Option<DownloadItem>) -> Option<DownloadItemView> {
    match r {
        Some(x) => Some(x@),
        None => None,
    }
}

fn normalize_download(value: &JsonValue, name_first: &str, name_second: &str, size_second: &str) -> (r: Option<
    DownloadItem,
>)
    ensures
        download_view_opt(r) == download_of(*value, name_first@, name_second@, size_second@),
{
    let id = scalar_of(value.get("nzo_id"))?;
    let name = match scalar_of(either_of(value, name_first, name_second)) {
        Some(n) => n,
        None => String::new(),
    };
    let status = match scalar_of(value.get("status")) {
        Some(s) => s,
        None => String::new(),
    };
    let percentage = scalar_of(value.get("percentage"));
    let size = scalar_of(either_of(value, "size", size_second));
    Some(DownloadItem { id, name, status, percentage, size })
}

pub fn normalize_queue_item(value: &JsonValue) -> (r: Option<DownloadItem>)
    ensures
        download_view_opt(r) == queue_item_of(*value),
{
    normalize_download(value, "filename", "name", "mb")
}

pub fn normalize_history_item(value: &JsonValue) -> (r: Option<DownloadItem>)
    ensures
        download_view_opt(r) == history_item_of(*value),
{
    normalize_download(value, "name", "filename", "bytes")
}

/// The downloads among the slots of a list, in order; `history` picks the
/// history reading of a slot.
pub open spec fn slot_items(slots: Seq<JsonValue>, history: bool) -> Seq<DownloadItemView>
    decreases slots.len(),
{
    if slots.len() == 0 {
        Seq::empty()
    } else {
        let rest = slot_items(slots.drop_last(), history);
        let item = if history {
            history_item_of(slots.last())
        } else {
            queue_item_of(slots.last())
        };
        match item {
            Some(x) => rest.push(x),
            None => rest,
        }
    }
}

/// Every slot that has an `nzo_id` gives one download, with that id, in slot
/// order, and no other slot gives one: the downloads are what `filter_map`
/// keeps of the slots, the downloads of two runs of slots put together are
/// those of the first followed by those of the second, and there are never
/// more downloads than slots.
pub proof fn law_slot_items_keep_every_download(
    items: Seq<JsonValue>,
    more: Seq<JsonValue>,
    history: bool,
    slot: JsonValue,
)
    ensures
        slot_items(items, history) == items.filter_map(
            |v: JsonValue|
                if history {
                    history_item_of(v)
                } else {
                    queue_item_of(v)
                },
        ),
        slot_items(items + more, history) == slot_items(items, history) + slot_items(more, history),
        slot_items(items, history).len() <= items.len(),
        (queue_item_of(slot) is Some) == (scalar_text_of(field(slot, "nzo_id"@)) is Some),
        (history_item_of(slot) is Some) == (scalar_text_of(field(slot, "nzo_id"@)) is Some),
        queue_item_of(slot) matches Some(d) ==> Some(d.id) == scalar_text_of(field(slot, "nzo_id"@)),
        history_item_of(slot) matches Some(d) ==> Some(d.id) == scalar_text_of(field(slot, "nzo_id"@)),
    decreases items.len() + more.len(),
{
    let item_of = |v: JsonValue|
        if history {
            history_item_of(v)
        } else {
            queue_item_of(v)
        };
    if items.len() > 0 {
        law_slot_items_keep_every_download(items.drop_last(), Seq::empty(), history, slot);
        match item_of(items.last()) {
            Some(x) => {
                assert(slot_items(items.drop_last(), history).push(x) =~= slot_items(items.drop_last(), history)
                    + seq![x]);
            },
            None => {},
        }
    }
    if more.len() > 0 {
        law_slot_items_keep_every_download(items, more.drop_last(), history, slot);
        assert((items + more).drop_last() =~= items + more.drop_last());
        assert((items + more).last() == more.last());
        match item_of(more.last()) {
            Some(x) => {
                assert((slot_items(items, history) + slot_items(more.drop_last(), history)).push(x)
                    =~= slot_items(items, history) + slot_items(more.drop_last(), history).push(x));
            },
            None => {},
        }
    } else {
        assert(items + more =~= items);
        assert(slot_items(items, history) + slot_items(more, history) =~= slot_items(items, history));
    }
}

/// The slots of the queue (`history` false) or the history answer.
pub open spec fn answer_slots(value: JsonValue, history: bool) -> Seq<JsonValue> {
    let list = if history {
        field_of(field(value, "history"@), "slots"@)
    } else {
        field_of(field(value, "queue"@), "slots"@)
    };
    match list {
        Some(l) => match items_of(l) {
            Some(items) => items,
            None => Seq::empty(),
        },
        None => Seq::empty(),
    }
}

/// Appends the downloads of a queue or history answer to `out`.
pub fn append_downloads(out: &mut Vec<DownloadItem>, value: &JsonValue, history: bool)
    ensures
        final(out).deep_view() == old(out).deep_view() + slot_items(answer_slots(*value, history), history),
{
    let ghost start = out.deep_view();
    let list = if history {
        get_opt(value.get("history"), "slots")
    } else {
        get_opt(value.get("queue"), "slots")
    };
    let slots = match list {
        Some(l) => l.as_array(),
        None => None,
    };
    match slots {
        None => {
            assert(answer_slots(*value, history) =~= Seq::<JsonValue>::empty());
            assert(out.deep_view() =~= start + slot_items(Seq::<JsonValue>::empty(), history));
        },
        Some(items) => {
            let mut i: usize = 0;
            assert(out.deep_view() =~= start + slot_items(items@.subrange(0, 0), history));
            while i < items.len()
                invariant
                    i <= items@.len(),
                    out.deep_view() == start + slot_items(items@.subrange(0, i as int), history),
                decreases items@.len() - i,
            {
                let ghost prev = out.deep_view();
                proof {
                    let next = items@.subrange(0, i + 1);
                    assert(next.drop_last() =~= items@.subrange(0, i as int));
                    assert(next.last() == items@[i as int]);
                }
                let item = if history {
                    normalize_history_item(&items[i])
                } else {
                    normalize_queue_item(&items[i])
                };
                match item {
                    Some(d) => {
                        out.push(d);
                        assert(out.deep_view() =~= prev.push(d@));
                        assert(start + slot_items(items@.subrange(0, i + 1), history) =~= prev.push(d@));
                    },
                    None => {},
                }
                i = i + 1;
            }
            assert(items@.subrange(0, items@.len() as int) =~= items@);
        },
    }
}

/// The queue is read unless only the history is asked for.
pub fn includes_queue(state: Option<&str>) -> (r: bool)
    ensures
        r == !(state matches Some(s) && s@ == "history"@),
{
    match state {
        Some(s) => !str_eq(s, "history"),
        None => true,
    }
}

/// The history is read unless only the queue is asked for.
pub fn includes_history(state: Option<&str>) -> (r: bool)
    ensures
        r == !(state matches Some(s) && s@ == "queue"@),
{
    match state {
        Some(s) => !str_eq(s, "queue"),
        None => true,
    }
}

// ---------------------------------------------------------------------------
// Actions
// ---------------------------------------------------------------------------

/// The upstream failure of a mutation with no status: never retryable.
pub open spec fn failed_mutation(r: Result<MediaOperation, MediaError>, operation_name: Seq<char>) -> bool {
    r matches Err(MediaError::Upstream(u)) && u.service@ == "sabnzbd"@ && u.operation@ == operation_name
        && u.status is None && !u.retryable
}

/// The operation done on `nzo_id`.
pub open spec fn done(r: Result<MediaOperation, MediaError>, operation_name: Seq<char>, nzo_id: Seq<char>) -> bool {
    r matches Ok(op) && op@.service == "sabnzbd"@ && op@.operation == operation_name && op@.affected_id
        == Some(nzo_id)
}

/// A queue action took effect when its answer names the download.
pub fn queue_action_outcome(operation_name: &str, value: &JsonValue, nzo_id: &str) -> (r: Result<
    MediaOperation,
    MediaError,
>)
    ensures
        action_names(*value, nzo_id@) ==> done(r, operation_name@, nzo_id@),
        !action_names(*value, nzo_id@) ==> failed_mutation(r, operation_name@),
{
    if action_contains_id(value, nzo_id) {
        Ok(operation(operation_name, nzo_id))
    } else {
        Err(MediaError::upstream("sabnzbd", operation_name, None, true))
    }
}

/// A retry or a history deletion took effect when its answer succeeded or
/// names the download.
pub fn confirmed_outcome(operation_name: &str, value: &JsonValue, nzo_id: &str) -> (r: Result<
    MediaOperation,
    MediaError,
>)
    ensures
        (answer_status(*value) == Some(true) || action_names(*value, nzo_id@)) ==> done(
            r,
            operation_name@,
            nzo_id@,
        ),
        !(answer_status(*value) == Some(true) || action_names(*value, nzo_id@)) ==> failed_mutation(
            r,
            operation_name@,
        ),
{
    if status_flag(value) == Some(true) || action_contains_id(value, nzo_id) {
        Ok(operation(operation_name, nzo_id))
    } else {
        Err(MediaError::upstream("sabnzbd", operation_name, None, true))
    }
}

/// After asking the queue to delete a download.
pub enum DeleteStep {
    /// The queue deleted it.
    Deleted(MediaOperation),
    /// The queue does not hold it: ask the history.
    TryHistory,
    /// The answer cannot be trusted.
    Failed(MediaError),
}

/// Decides on the queue's answer to a deletion.
pub fn after_queue_delete(value: &JsonValue, nzo_id: &str) -> (r: DeleteStep)
    ensures
        action_names(*value, nzo_id@) ==> (r matches DeleteStep::Deleted(op) && op@.service == "sabnzbd"@
            && op@.operation == "delete_download"@ && op@.affected_id == Some(nzo_id@)),
        !action_names(*value, nzo_id@) && action_skips(*value, nzo_id@) ==> r is TryHistory,
        !action_names(*value, nzo_id@) && !action_skips(*value, nzo_id@) ==> (r matches DeleteStep::Failed(
            MediaError::Upstream(u),
        ) && u.service@ == "sabnzbd"@ && u.operation@ == "delete_download"@ && u.status is None
            && !u.retryable),
{
    if action_contains_id(value, nzo_id) {
        return DeleteStep::Deleted(operation("delete_download", nzo_id));
    }
    if !valid_empty_action(value, nzo_id) {
        return DeleteStep::Failed(MediaError::upstream("sabnzbd", "delete_download", None, true));
    }
    DeleteStep::TryHistory
}

/// The flag that tells the download manager whether to delete the files too.
pub fn del_files_flag(delete_files: bool) -> (r: &'static str)
    ensures
        r@ == (if delete_files { "1"@ } else { "0"@ }),
{
    if delete_files {
        "1"
    } else {
        "0"
    }
}

/// A failed mutation is never retryable.
pub proof fn law_failed_actions_are_not_retried(status: Option<u16>)
    ensures
        !upstream_retryable(status, true),
{
}

} // verus!
