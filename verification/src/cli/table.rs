//! The table form of a command's outcome: labelled rows for the operation,
//! then the data as a small table. Every cell stays on one line and is cut
//! to a bounded width; fields whose names suggest a secret are left out.
use crate::api_model::{date_text, CompletenessStatus, SeasonAvailability};
use crate::json::{
    bool_of, deref_opt, field, field_of, find_member, get_opt, json_text, str_of, to_json_text,
    JsonValue,
};
use crate::text::{
    ascii_lower, ascii_lowercase, concat, contains, contains_sub, decimal, join_strings, join_with,
    lemma_join_push, replace_any, replace_chars, str_eq, string_of, strings_contain,
    u64_to_decimal,
};
use vstd::prelude::*;

verus! {

/// At most this many rows of data are shown.
pub const MAX_ROWS: usize = 20;

/// At most this many columns are shown.
pub const MAX_COLUMNS: usize = 6;

/// A cell shows at most this many characters before its ellipsis.
pub const MAX_CELL_CHARS: usize = 40;

// ---------------------------------------------------------------------------
// Cells
// ---------------------------------------------------------------------------

/// What a value shows before it is fitted to a cell: `-` for null, a
/// string as it is, anything else as compact JSON.
pub open spec fn raw_text(v: JsonValue) -> Seq<char> {
    match v {
        JsonValue::Null => "-"@,
        JsonValue::Str(s) => s@,
        _ => json_text(v),
    }
}

/// Line breaks and tabs become spaces.
pub open spec fn one_line(s: Seq<char>) -> Seq<char> {
    replace_any(s, "\n\r\t"@, ' ')
}

/// A text longer than a cell is cut and marked with `...`.
pub open spec fn bounded(s: Seq<char>) -> Seq<char> {
    if s.len() > MAX_CELL_CHARS {
        s.subrange(0, MAX_CELL_CHARS as int) + "..."@
    } else {
        s
    }
}

pub open spec fn cell_text(v: JsonValue) -> Seq<char> {
    bounded(one_line(raw_text(v)))
}

/// The text of one table cell.
pub fn cell(value: &JsonValue) -> (r: String)
    ensures
        r@ == cell_text(*value),
{
    let raw = match value {
        JsonValue::Null => string_of("-"),
        JsonValue::Str(s) => s.clone(),
        _ => to_json_text(value),
    };
    let normalized = replace_chars(raw.as_str(), "\n\r\t", ' ');
    let n = normalized.unicode_len();
    if n > MAX_CELL_CHARS {
        let head = normalized.as_str().substring_char(0, MAX_CELL_CHARS);
        concat(head, "...")
    } else {
        normalized
    }
}

/// A field may be shown unless its name, in ASCII lower case, mentions a
/// credential, password, secret, token, API key or authorization.
pub open spec fn is_safe_field(name: Seq<char>) -> bool {
    let l = ascii_lowercase(name);
    &&& !contains_sub(l, "credential"@)
    &&& !contains_sub(l, "password"@)
    &&& !contains_sub(l, "secret"@)
    &&& !contains_sub(l, "token"@)
    &&& !contains_sub(l, "api_key"@)
    &&& !contains_sub(l, "authorization"@)
}

pub fn safe_field(name: &str) -> (r: bool)
    ensures
        r == is_safe_field(name@),
{
    let lower = ascii_lower(name);
    let l = lower.as_str();
    !(contains(l, "credential") || contains(l, "password") || contains(l, "secret") || contains(
        l,
        "token",
    ) || contains(l, "api_key") || contains(l, "authorization"))
}

// ---------------------------------------------------------------------------
// The labelled rows
// ---------------------------------------------------------------------------

pub open spec fn is_ok_envelope(env: JsonValue) -> bool {
    match field(env, "ok"@) {
        Some(v) => bool_of(v) == Some(true),
        None => false,
    }
}

pub open spec fn data_status(env: JsonValue) -> Option<Seq<char>> {
    match field_of(field(env, "data"@), "status"@) {
        Some(v) => str_of(v),
        None => None,
    }
}

/// The status row: `error` for a failed operation; for a successful one,
/// `partial` when the data reports itself degraded, `unavailable` when it
/// reports itself unavailable, and `ok` otherwise.
pub open spec fn status_label(env: JsonValue) -> Seq<char> {
    if !is_ok_envelope(env) {
        "error"@
    } else {
        match data_status(env) {
            Some(s) => if s == "degraded"@ {
                "partial"@
            } else if s == "unavailable"@ {
                "unavailable"@
            } else {
                "ok"@
            },
            None => "ok"@,
        }
    }
}

pub fn status(envelope: &JsonValue) -> (r: &'static str)
    ensures
        r@ == status_label(*envelope),
{
    let ok = match envelope.get("ok") {
        Some(v) => v.as_bool(),
        None => None,
    };
    match ok {
        Some(true) => {},
        _ => {
            return "error";
        },
    }
    let data = envelope.get("data");
    match get_opt(data, "status") {
        Some(v) => match v.as_str() {
            Some(s) => {
                if str_eq(s, "degraded") {
                    "partial"
                } else if str_eq(s, "unavailable") {
                    "unavailable"
                } else {
                    "ok"
                }
            },
            None => "ok",
        },
        None => "ok",
    }
}

/// `label: cell` on a line of its own, `-` for a missing value.
pub open spec fn row_text(label: Seq<char>, v: Option<JsonValue>) -> Seq<char> {
    label + ": "@ + match v {
        Some(x) => cell_text(x),
        None => "-"@,
    } + "\n"@
}

fn metadata_row(out: &mut String, label: &str, value: Option<&JsonValue>)
    ensures
        final(out)@ == old(out)@ + row_text(label@, deref_opt(value)),
{
    let ghost start = out@;
    out.append(label);
    out.append(": ");
    match value {
        Some(v) => {
            let c = cell(v);
            out.append(c.as_str());
        },
        None => out.append("-"),
    }
    out.append("\n");
    assert(out@ =~= start + row_text(label@, deref_opt(value)));
}

// ---------------------------------------------------------------------------
// Data as fields
// ---------------------------------------------------------------------------

/// The first rows of a sequence, at most `MAX_ROWS` of them.
pub open spec fn limited<A>(s: Seq<A>) -> Seq<A> {
    if s.len() > MAX_ROWS {
        s.take(MAX_ROWS as int)
    } else {
        s
    }
}

/// The members whose names may be shown, in order.
pub open spec fn safe_members(s: Seq<(String, JsonValue)>) -> Seq<(String, JsonValue)>
    decreases s.len(),
{
    if s.len() == 0 {
        s
    } else {
        let p = safe_members(s.drop_last());
        if is_safe_field(s.last().0@) {
            p.push(s.last())
        } else {
            p
        }
    }
}

pub open spec fn field_line(m: (String, JsonValue)) -> Seq<char> {
    cell_text(JsonValue::Str(m.0)) + " | "@ + cell_text(m.1) + "\n"@
}

pub open spec fn field_lines(s: Seq<(String, JsonValue)>) -> Seq<char>
    decreases s.len(),
{
    if s.len() == 0 {
        Seq::empty()
    } else {
        field_lines(s.drop_last()) + field_line(s.last())
    }
}

pub open spec fn fields_text(members: Seq<(String, JsonValue)>) -> Seq<char> {
    "\nFIELD | VALUE\n------|------\n"@ + field_lines(limited(safe_members(members)))
}

fn write_fields(out: &mut String, fields: &Vec<(String, JsonValue)>)
    ensures
        final(out)@ == old(out)@ + fields_text(fields@),
{
    let ghost start = out@;
    out.append("\nFIELD | VALUE\n------|------\n");
    let mut kept: usize = 0;
    let mut i: usize = 0;
    while i < fields.len()
        invariant
            i <= fields@.len(),
            kept == limited(safe_members(fields@.take(i as int))).len(),
            out@ == start + "\nFIELD | VALUE\n------|------\n"@ + field_lines(
                limited(safe_members(fields@.take(i as int))),
            ),
        decreases fields.len() - i,
    {
        let ghost p = safe_members(fields@.take(i as int));
        assert(fields@.take(i + 1).drop_last() =~= fields@.take(i as int));
        assert(fields@.take(i + 1).last() == fields@[i as int]);
        let name = &fields[i].0;
        if safe_field(name.as_str()) {
            assert(safe_members(fields@.take(i + 1)) == p.push(fields@[i as int]));
            if kept < MAX_ROWS {
                let key = JsonValue::Str(name.clone());
                let k = cell(&key);
                let v = cell(&fields[i].1);
                out.append(k.as_str());
                out.append(" | ");
                out.append(v.as_str());
                out.append("\n");
                assert(limited(p.push(fields@[i as int])) =~= limited(p).push(fields@[i as int]));
                assert(limited(p).push(fields@[i as int]).drop_last() =~= limited(p));
                kept += 1;
            } else {
                assert(limited(p.push(fields@[i as int])) =~= limited(p));
            }
        }
        i += 1;
    }
    assert(fields@.take(fields@.len() as int) =~= fields@);
}

// ---------------------------------------------------------------------------
// Data as rows
// ---------------------------------------------------------------------------

pub open spec fn keys_of(v: JsonValue) -> Seq<Seq<char>> {
    match v {
        JsonValue::Object(ms) => ms@.map_values(|m: (String, JsonValue)| m.0@),
        _ => Seq::empty(),
    }
}

/// The member names of the object rows, row after row.
pub open spec fn row_keys(rows: Seq<JsonValue>) -> Seq<Seq<char>>
    decreases rows.len(),
{
    if rows.len() == 0 {
        Seq::empty()
    } else {
        row_keys(rows.drop_last()) + keys_of(rows.last())
    }
}

/// The columns that a run of names yields: each name that may be shown and
/// is not yet a column, while there are fewer than `MAX_COLUMNS`.
pub open spec fn gather_columns(keys: Seq<Seq<char>>) -> Seq<Seq<char>>
    decreases keys.len(),
{
    if keys.len() == 0 {
        Seq::empty()
    } else {
        let c = gather_columns(keys.drop_last());
        let k = keys.last();
        if is_safe_field(k) && c.len() < MAX_COLUMNS && !c.contains(k) {
            c.push(k)
        } else {
            c
        }
    }
}

pub open spec fn columns_of(rows: Seq<JsonValue>) -> Seq<Seq<char>> {
    gather_columns(row_keys(limited(rows)))
}

fn table_columns(rows: &Vec<JsonValue>) -> (r: Vec<String>)
    ensures
        r.deep_view() == columns_of(rows@),
{
    let n: usize = if rows.len() > MAX_ROWS {
        MAX_ROWS
    } else {
        rows.len()
    };
    let ghost lim = limited(rows@);
    assert(lim =~= rows@.take(n as int));
    let mut cols: Vec<String> = Vec::new();
    let mut i: usize = 0;
    while i < n
        invariant
            n <= rows@.len(),
            i <= n,
            lim == rows@.take(n as int),
            cols.deep_view() == gather_columns(row_keys(rows@.take(i as int))),
        decreases n - i,
    {
        assert(rows@.take(i + 1).drop_last() =~= rows@.take(i as int));
        assert(rows@.take(i + 1).last() == rows@[i as int]);
        let ghost before = row_keys(rows@.take(i as int));
        match &rows[i] {
            JsonValue::Object(ms) => {
                let ghost ks = keys_of(rows@[i as int]);
                assert(ks.len() == ms@.len());
                let mut j: usize = 0;
                assert(before + ks.take(0) =~= before);
                while j < ms.len()
                    invariant
                        j <= ms@.len(),
                        ks.len() == ms@.len(),
                        forall|t: int| 0 <= t < ms@.len() ==> ks[t] == (#[trigger] ms@[t]).0@,
                        cols.deep_view() == gather_columns(before + ks.take(j as int)),
                    decreases ms.len() - j,
                {
                    let k = &ms[j].0;
                    assert((before + ks.take(j + 1)).drop_last() =~= before + ks.take(j as int));
                    assert((before + ks.take(j + 1)).last() == k@);
                    if safe_field(k.as_str()) && cols.len() < MAX_COLUMNS && !strings_contain(
                        &cols,
                        k,
                    ) {
                        cols.push(k.clone());
                        assert(cols.deep_view() =~= gather_columns(before + ks.take(j as int)).push(
                            k@,
                        ));
                    }
                    j += 1;
                }
                assert(ks.take(ms@.len() as int) =~= ks);
            },
            _ => {
                assert(before + keys_of(rows@[i as int]) =~= before);
            },
        }
        i += 1;
    }
    cols
}

/// The cell of a row under a column: the member's cell, or `-`.
pub open spec fn column_value(v: JsonValue, col: Seq<char>) -> Seq<char> {
    match v {
        JsonValue::Object(ms) => match find_member(ms@, col) {
            Some(x) => cell_text(x),
            None => "-"@,
        },
        _ => "-"@,
    }
}

pub open spec fn row_line(v: JsonValue, cols: Seq<Seq<char>>) -> Seq<char> {
    join_with(cols.map_values(|c: Seq<char>| column_value(v, c)), " | "@) + "\n"@
}

/// One line for each object row; other rows are passed over.
pub open spec fn object_rows_text(rows: Seq<JsonValue>, cols: Seq<Seq<char>>) -> Seq<char>
    decreases rows.len(),
{
    if rows.len() == 0 {
        Seq::empty()
    } else {
        let p = object_rows_text(rows.drop_last(), cols);
        if rows.last() is Object {
            p + row_line(rows.last(), cols)
        } else {
            p
        }
    }
}

/// One cell per line.
pub open spec fn plain_rows_text(rows: Seq<JsonValue>) -> Seq<char>
    decreases rows.len(),
{
    if rows.len() == 0 {
        Seq::empty()
    } else {
        plain_rows_text(rows.drop_last()) + cell_text(rows.last()) + "\n"@
    }
}

/// Rows under a header of columns, or one cell per line where no row has a
/// column to show.
pub open spec fn array_text(rows: Seq<JsonValue>) -> Seq<char> {
    let cols = columns_of(rows);
    if cols.len() == 0 {
        plain_rows_text(limited(rows))
    } else {
        "\n"@ + join_with(cols, " | "@) + "\n"@ + join_with(
            cols.map_values(|c: Seq<char>| "------"@),
            "|"@,
        ) + "\n"@ + object_rows_text(limited(rows), cols)
    }
}

fn member_cell(ms: &Vec<(String, JsonValue)>, col: &String) -> (r: String)
    ensures
        r@ == match find_member(ms@, col@) {
            Some(x) => cell_text(x),
            None => "-"@,
        },
{
    let mut i: usize = 0;
    assert(ms@.skip(0) =~= ms@);
    while i < ms.len()
        invariant
            i <= ms@.len(),
            find_member(ms@, col@) == find_member(ms@.skip(i as int), col@),
        decreases ms.len() - i,
    {
        assert(ms@.skip(i as int).drop_first() =~= ms@.skip(i + 1));
        if str_eq(ms[i].0.as_str(), col.as_str()) {
            return cell(&ms[i].1);
        }
        i += 1;
    }
    string_of("-")
}

fn row_line_exec(ms: &Vec<(String, JsonValue)>, cols: &Vec<String>, Ghost(v): Ghost<JsonValue>) -> (r: String)
    requires
        v == JsonValue::Object(*ms),
    ensures
        r@ == row_line(v, cols.deep_view()),
{
    let mut values: Vec<String> = Vec::new();
    let ghost cs = cols.deep_view();
    let mut j: usize = 0;
    while j < cols.len()
        invariant
            j <= cols@.len(),
            cs == cols.deep_view(),
            v == JsonValue::Object(*ms),
            values.deep_view() =~= cs.take(j as int).map_values(|c: Seq<char>| column_value(v, c)),
        decreases cols.len() - j,
    {
        let c = member_cell(ms, &cols[j]);
        values.push(c);
        assert(cs.take(j + 1).map_values(|c: Seq<char>| column_value(v, c)) =~= cs.take(
            j as int,
        ).map_values(|c: Seq<char>| column_value(v, c)).push(column_value(v, cs[j as int])));
        j += 1;
    }
    assert(cs.take(cols@.len() as int) =~= cs);
    let line = join_strings(&values, " | ");
    concat(line.as_str(), "\n")
}

fn write_array(out: &mut String, rows: &Vec<JsonValue>)
    ensures
        final(out)@ == old(out)@ + array_text(rows@),
{
    let ghost start = out@;
    let columns = table_columns(rows);
    let n: usize = if rows.len() > MAX_ROWS {
        MAX_ROWS
    } else {
        rows.len()
    };
    let ghost lim = limited(rows@);
    assert(lim =~= rows@.take(n as int));
    if columns.len() == 0 {
        let mut i: usize = 0;
        while i < n
            invariant
                n <= rows@.len(),
                i <= n,
                out@ == start + plain_rows_text(rows@.take(i as int)),
            decreases n - i,
        {
            assert(rows@.take(i + 1).drop_last() =~= rows@.take(i as int));
            let c = cell(&rows[i]);
            out.append(c.as_str());
            out.append("\n");
            i += 1;
        }
        return;
    }
    let ghost cs = columns.deep_view();
    out.append("\n");
    let header = join_strings(&columns, " | ");
    out.append(header.as_str());
    out.append("\n");
    let mut rules: Vec<String> = Vec::new();
    let mut k: usize = 0;
    while k < columns.len()
        invariant
            k <= columns@.len(),
            rules.deep_view() =~= cs.take(k as int).map_values(|c: Seq<char>| "------"@),
            cs == columns.deep_view(),
        decreases columns.len() - k,
    {
        rules.push(string_of("------"));
        assert(cs.take(k + 1).map_values(|c: Seq<char>| "------"@) =~= cs.take(k as int).map_values(
            |c: Seq<char>| "------"@,
        ).push("------"@));
        k += 1;
    }
    assert(cs.take(columns@.len() as int) =~= cs);
    let rule = join_strings(&rules, "|");
    out.append(rule.as_str());
    out.append("\n");
    let ghost head = out@;
    let mut i: usize = 0;
    while i < n
        invariant
            n <= rows@.len(),
            i <= n,
            cs == columns.deep_view(),
            out@ == head + object_rows_text(rows@.take(i as int), cs),
        decreases n - i,
    {
        assert(rows@.take(i + 1).drop_last() =~= rows@.take(i as int));
        assert(rows@.take(i + 1).last() == rows@[i as int]);
        match &rows[i] {
            JsonValue::Object(ms) => {
                let line = row_line_exec(ms, &columns, Ghost(rows@[i as int]));
                out.append(line.as_str());
            },
            _ => {},
        }
        i += 1;
    }
}

// ---------------------------------------------------------------------------
// The whole table
// ---------------------------------------------------------------------------

/// The data part: rows for an array, `FIELD | VALUE` lines for an object,
/// one cell for any other value, nothing when there is no data.
pub open spec fn data_text(data: Option<JsonValue>) -> Seq<char> {
    match data {
        Some(JsonValue::Array(rows)) => array_text(rows@),
        Some(JsonValue::Object(members)) => fields_text(members@),
        Some(other) => "\n"@ + cell_text(other) + "\n"@,
        None => Seq::empty(),
    }
}

/// The table form of an operation's outcome: operation, request ID,
/// status and summary; then the error code of a failed operation, or the
/// data of a successful one.
pub open spec fn table_text(env: JsonValue) -> Seq<char> {
    row_text("OPERATION"@, field(env, "operation"@)) + row_text(
        "REQUEST ID"@,
        field(env, "request_id"@),
    ) + "STATUS: "@ + status_label(env) + "\n"@ + row_text(
        "SUMMARY"@,
        field_of(field(env, "summary"@), "text"@),
    ) + if !is_ok_envelope(env) {
        row_text("ERROR"@, field_of(field(env, "error"@), "code"@))
    } else {
        data_text(field(env, "data"@))
    }
}

/// Renders an operation's outcome, given as its JSON document, as a table.
pub fn table(envelope: &JsonValue) -> (r: String)
    ensures
        r@ == table_text(*envelope),
{
    let mut out = String::new();
    metadata_row(&mut out, "OPERATION", envelope.get("operation"));
    metadata_row(&mut out, "REQUEST ID", envelope.get("request_id"));
    let s = status(envelope);
    out.append("STATUS: ");
    out.append(s);
    out.append("\n");
    metadata_row(&mut out, "SUMMARY", get_opt(envelope.get("summary"), "text"));
    let ok = match envelope.get("ok") {
        Some(v) => v.as_bool(),
        None => None,
    };
    let is_ok = match ok {
        Some(true) => true,
        _ => false,
    };
    if !is_ok {
        metadata_row(&mut out, "ERROR", get_opt(envelope.get("error"), "code"));
        return out;
    }
    match envelope.get("data") {
        Some(JsonValue::Array(rows)) => write_array(&mut out, rows),
        Some(JsonValue::Object(fields)) => write_fields(&mut out, fields),
        Some(other) => {
            out.append("\n");
            let c = cell(other);
            out.append(c.as_str());
            out.append("\n");
        },
        None => {},
    }
    out
}


// ---------------------------------------------------------------------------
// Season availability
// ---------------------------------------------------------------------------

pub open spec fn completeness_label(s: CompletenessStatus) -> Seq<char> {
    match s {
        CompletenessStatus::Complete => "complete"@,
        CompletenessStatus::Incomplete => "incomplete"@,
        CompletenessStatus::Unknown => "unknown"@,
    }
}

pub fn completeness_status(s: CompletenessStatus) -> (r: &'static str)
    ensures
        r@ == completeness_label(s),
{
    match s {
        CompletenessStatus::Complete => "complete",
        CompletenessStatus::Incomplete => "incomplete",
        CompletenessStatus::Unknown => "unknown",
    }
}

/// The cell of a text.
pub open spec fn text_cell(s: Seq<char>) -> Seq<char> {
    bounded(one_line(s))
}

pub open spec fn bool_label(b: bool) -> Seq<char> {
    if b {
        "true"@
    } else {
        "false"@
    }
}

/// The next episode to air as `E<number> <date>`, or `-` when none is
/// known or its date is not.
pub open spec fn next_airing_cell(data: SeasonAvailability) -> Seq<char> {
    match data.next_airing {
        Some(e) => match e.air_date {
            Some(d) => text_cell("E"@ + decimal(e.episode_number as nat) + " "@ + date_text(d)),
            None => "-"@,
        },
        None => "-"@,
    }
}

pub open spec fn availability_cells(data: SeasonAvailability) -> Seq<Seq<char>> {
    seq![
        text_cell(data.series.title@),
        decimal(data.season as nat),
        bool_label(data.in_library),
        completeness_label(data.aired.status),
        completeness_label(data.announced.status),
        decimal(data.announced.available_count as nat),
        decimal(data.announced.expected_count as nat),
        next_airing_cell(data),
    ]
}

pub open spec fn availability_header() -> Seq<char> {
    "\nTITLE | SEASON | IN_LIBRARY | AIRED | ANNOUNCED | AVAILABLE | EXPECTED | NEXT_AIRING\n"@
        + "------|------|------|------|------|------|------|------\n"@
}

/// The table form of a season's availability: the labelled rows, then the
/// error code of a failed operation, or one row for the season.
pub open spec fn availability_table_text(
    operation: Seq<char>,
    request_id: Seq<char>,
    ok: bool,
    summary: Seq<char>,
    error_code: Option<Seq<char>>,
    data: Option<SeasonAvailability>,
) -> Seq<char> {
    "OPERATION: "@ + text_cell(operation) + "\n"@ + "REQUEST ID: "@ + text_cell(request_id)
        + "\n"@ + "STATUS: "@ + (if ok {
        "ok"@
    } else {
        "error"@
    }) + "\n"@ + "SUMMARY: "@ + text_cell(summary) + "\n"@ + if !ok {
        "ERROR: "@ + match error_code {
            Some(c) => text_cell(c),
            None => "-"@,
        } + "\n"@
    } else {
        match data {
            Some(d) => availability_header() + join_with(availability_cells(d), " | "@) + "\n"@,
            None => Seq::empty(),
        }
    }
}

fn text_cell_exec(s: &str) -> (r: String)
    ensures
        r@ == text_cell(s@),
{
    cell(&JsonValue::Str(string_of(s)))
}

fn next_airing_exec(data: &SeasonAvailability) -> (r: String)
    ensures
        r@ == next_airing_cell(*data),
{
    match &data.next_airing {
        Some(e) => match &e.air_date {
            Some(d) => {
                let mut t = string_of("E");
                let n = u64_to_decimal(e.episode_number as u64);
                t.append(n.as_str());
                t.append(" ");
                let date = d.text();
                t.append(date.as_str());
                text_cell_exec(t.as_str())
            },
            None => string_of("-"),
        },
        None => string_of("-"),
    }
}

/// Renders the outcome of a season availability check as a table.
pub fn availability_table(
    operation: &str,
    request_id: &str,
    ok: bool,
    summary: &str,
    error_code: Option<&str>,
    data: Option<&SeasonAvailability>,
) -> (r: String)
    ensures
        r@ == availability_table_text(
            operation@,
            request_id@,
            ok,
            summary@,
            match error_code {
                Some(c) => Some(c@),
                None => None,
            },
            match data {
                Some(d) => Some(*d),
                None => None,
            },
        ),
{
    let mut out = String::new();
    out.append("OPERATION: ");
    let c = text_cell_exec(operation);
    out.append(c.as_str());
    out.append("\n");
    out.append("REQUEST ID: ");
    let c = text_cell_exec(request_id);
    out.append(c.as_str());
    out.append("\n");
    out.append("STATUS: ");
    out.append(if ok {
        "ok"
    } else {
        "error"
    });
    out.append("\n");
    out.append("SUMMARY: ");
    let c = text_cell_exec(summary);
    out.append(c.as_str());
    out.append("\n");
    let ghost head = out@;
    assert(head =~= "OPERATION: "@ + text_cell(operation@) + "\n"@ + "REQUEST ID: "@ + text_cell(
        request_id@,
    ) + "\n"@ + "STATUS: "@ + (if ok {
        "ok"@
    } else {
        "error"@
    }) + "\n"@ + "SUMMARY: "@ + text_cell(summary@) + "\n"@);
    if !ok {
        out.append("ERROR: ");
        match error_code {
            Some(code) => {
                let c = text_cell_exec(code);
                out.append(c.as_str());
            },
            None => out.append("-"),
        }
        out.append("\n");
        assert(out@ =~= head + ("ERROR: "@ + match error_code {
            Some(c) => text_cell(c@),
            None => "-"@,
        } + "\n"@));
        return out;
    }
    match data {
        Some(d) => {
            out.append(
                "\nTITLE | SEASON | IN_LIBRARY | AIRED | ANNOUNCED | AVAILABLE | EXPECTED | NEXT_AIRING\n",
            );
            out.append("------|------|------|------|------|------|------|------\n");
            assert(out@ =~= head + availability_header());
            let mut values: Vec<String> = Vec::new();
            values.push(text_cell_exec(d.series.title.as_str()));
            values.push(u64_to_decimal(d.season as u64));
            values.push(string_of(if d.in_library {
                "true"
            } else {
                "false"
            }));
            values.push(string_of(completeness_status(d.aired.status)));
            values.push(string_of(completeness_status(d.announced.status)));
            values.push(u64_to_decimal(d.announced.available_count as u64));
            values.push(u64_to_decimal(d.announced.expected_count as u64));
            values.push(next_airing_exec(d));
            assert(values.deep_view() =~= availability_cells(*d));
            let line = join_strings(&values, " | ");
            out.append(line.as_str());
            out.append("\n");
            assert(out@ =~= head + availability_header() + join_with(availability_cells(*d), " | "@)
                + "\n"@);
        },
        None => {
            assert(out@ =~= head + Seq::<char>::empty());
        },
    }
    out
}


// ---------------------------------------------------------------------------
// What every table keeps to
// ---------------------------------------------------------------------------

/// Every cell is a single line of at most `MAX_CELL_CHARS` characters plus
/// an ellipsis: no line break, carriage return or tab survives.
pub proof fn law_cells_are_single_bounded_lines(v: JsonValue)
    ensures
        cell_text(v).len() <= MAX_CELL_CHARS + 3,
        !cell_text(v).contains('\n'),
        !cell_text(v).contains('\r'),
        !cell_text(v).contains('\t'),
{
    reveal_strlit("\n\r\t");
    reveal_strlit("...");
    let n = one_line(raw_text(v));
    assert forall|i: int| 0 <= i < n.len() implies n[i] != '\n' && n[i] != '\r' && n[i] != '\t' by {
        assert("\n\r\t"@[0] == '\n');
        assert("\n\r\t"@[1] == '\r');
        assert("\n\r\t"@[2] == '\t');
    }
    let c = cell_text(v);
    if n.len() > MAX_CELL_CHARS {
        assert forall|i: int| 0 <= i < c.len() implies c[i] != '\n' && c[i] != '\r' && c[i] != '\t' by {
            if i < MAX_CELL_CHARS {
                assert(c[i] == n[i]);
            } else {
                assert(c[i] == '.');
            }
        }
    }
}

/// The fields shown are exactly those whose names suggest no secret, in
/// their order.
pub proof fn law_secret_fields_are_never_shown(members: Seq<(String, JsonValue)>)
    ensures
        forall|i: int| 0 <= i < safe_members(members).len() ==> is_safe_field(
            #[trigger] safe_members(members)[i].0@,
        ),
        forall|i: int| 0 <= i < members.len() && is_safe_field(#[trigger] members[i].0@) ==> safe_members(
            members,
        ).contains(members[i]),
    decreases members.len(),
{
    if members.len() > 0 {
        let p = members.drop_last();
        law_secret_fields_are_never_shown(p);
        let sp = safe_members(p);
        assert forall|i: int| 0 <= i < members.len() && is_safe_field(#[trigger] members[i].0@) implies safe_members(
            members,
        ).contains(members[i]) by {
            if i < members.len() - 1 {
                assert(members[i] == p[i]);
                assert(sp.contains(p[i]));
                let j = choose|j: int| 0 <= j < sp.len() && sp[j] == p[i];
                assert(safe_members(members)[j] == sp[j]);
            } else {
                assert(safe_members(members)[sp.len() as int] == members[i]);
            }
        }
    }
}

/// The columns of a table are at most `MAX_COLUMNS`, all distinct, and
/// none of them suggests a secret.
pub proof fn law_columns_are_few_distinct_and_safe(keys: Seq<Seq<char>>)
    ensures
        gather_columns(keys).len() <= MAX_COLUMNS,
        forall|i: int| 0 <= i < gather_columns(keys).len() ==> is_safe_field(
            #[trigger] gather_columns(keys)[i],
        ),
        forall|i: int, j: int|
            0 <= i < j < gather_columns(keys).len() ==> gather_columns(keys)[i] != gather_columns(
                keys,
            )[j],
    decreases keys.len(),
{
    if keys.len() > 0 {
        law_columns_are_few_distinct_and_safe(keys.drop_last());
        let c = gather_columns(keys.drop_last());
        let k = keys.last();
        if is_safe_field(k) && c.len() < MAX_COLUMNS && !c.contains(k) {
            let g = c.push(k);
            assert forall|i: int, j: int| 0 <= i < j < g.len() implies g[i] != g[j] by {
                if j == c.len() {
                    assert(g[i] == c[i]);
                    if c[i] == k {
                        assert(c.contains(k));
                    }
                }
            }
            assert forall|i: int| 0 <= i < g.len() implies is_safe_field(#[trigger] g[i]) by {
                if i < c.len() {
                    assert(g[i] == c[i]);
                }
            }
        }
    }
}

} // verus!
