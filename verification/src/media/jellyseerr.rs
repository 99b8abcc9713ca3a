//! What the library reads from the request manager's answers: identifiers,
//! catalog items, requests, seasons and their episodes.
use crate::api_model::{
    CalendarDate, MediaRequest, MediaRequestView, MediaSearchItem, MediaSearchItemView, MediaType,
};
use crate::media::availability::{ExpectedEpisode, ExpectedEpisodeView, ExpectedSeason, ExpectedSeasonView};
use chrono::{Datelike, NaiveDate};
use crate::json::{
    array_of, bool_of, field, field_of, get_opt, i64_of, items_of, json_view, nonblank_string,
    nonblank_text, object_of, str_of, str_of_opt, text_member, text_of, u64_of, JsonValue, JsonView,
};
use crate::media::error::MediaError;
use crate::text::{
    all_whitespace, ascii_lowercase, ascii_lower, char_is_ascii_digit, concat, decimal, i64_to_decimal,
    int_decimal, is_ascii_digit, is_blank, percent_encode, percent_encoded, str_eq, string_of,
    u64_to_decimal,
};
use vstd::prelude::*;

verus! {

// ---------------------------------------------------------------------------
// Identifiers and media types
// ---------------------------------------------------------------------------

/// An identifier is required unless it is blank.
pub fn require_id(value: &str, field_name: &str) -> (r: Result<(), MediaError>)
    ensures
        !all_whitespace(value@) ==> r is Ok,
        all_whitespace(value@) ==> (r matches Err(MediaError::Validation(m)) && m@ == field_name@
            + " is required"@),
{
    if is_blank(value) {
        Err(MediaError::Validation(concat(field_name, " is required")))
    } else {
        Ok(())
    }
}

pub open spec fn all_digits(s: Seq<char>) -> bool {
    forall|i: int| 0 <= i < s.len() ==> is_ascii_digit(#[trigger] s[i])
}

/// A catalog identifier is a non-empty run of ASCII digits.
pub fn require_catalog_id(value: &str) -> (r: Result<(), MediaError>)
    ensures
        (value@.len() > 0 && all_digits(value@)) ==> r is Ok,
        !(value@.len() > 0 && all_digits(value@)) ==> (r matches Err(MediaError::Validation(m))
            && m@ == "item_id must be a non-empty numeric catalog identifier"@),
{
    let n = value.unicode_len();
    let mut ok = n > 0;
    let mut i: usize = 0;
    while i < n
        invariant
            n == value@.len(),
            i <= n,
            ok == (n > 0 && forall|k: int| 0 <= k < i ==> is_ascii_digit(#[trigger] value@[k])),
        decreases n - i,
    {
        if !char_is_ascii_digit(value.get_char(i)) {
            ok = false;
        }
        i = i + 1;
    }
    if ok {
        Ok(())
    } else {
        Err(MediaError::Validation(string_of("item_id must be a non-empty numeric catalog identifier")))
    }
}

pub open spec fn media_type_name(t: MediaType) -> Seq<char> {
    match t {
        MediaType::Movie => "movie"@,
        MediaType::Tv => "tv"@,
    }
}

/// The catalog's name for a media type.
pub fn media_type_text(media_type: MediaType) -> (r: &'static str)
    ensures
        r@ == media_type_name(media_type),
{
    match media_type {
        MediaType::Movie => "movie",
        MediaType::Tv => "tv",
    }
}

/// `movie`, or `tv` or `series`, in any ASCII case.
pub open spec fn media_type_named(value: Seq<char>) -> Option<MediaType> {
    let lower = ascii_lowercase(value);
    if lower == "movie"@ {
        Some(MediaType::Movie)
    } else if lower == "tv"@ || lower == "series"@ {
        Some(MediaType::Tv)
    } else {
        None
    }
}

pub fn parse_media_type(value: &str) -> (r: Option<MediaType>)
    ensures
        r == media_type_named(value@),
{
    let lower = ascii_lower(value);
    if str_eq(lower.as_str(), "movie") {
        Some(MediaType::Movie)
    } else if str_eq(lower.as_str(), "tv") || str_eq(lower.as_str(), "series") {
        Some(MediaType::Tv)
    } else {
        None
    }
}

// ---------------------------------------------------------------------------
// Scalars
// ---------------------------------------------------------------------------

/// A string value as it is, or an integer in decimal.
pub open spec fn scalar_text(v: JsonValue) -> Option<Seq<char>> {
    match str_of(v) {
        Some(s) => Some(s),
        None => match i64_of(v) {
            Some(i) => Some(int_decimal(i as int)),
            None => match u64_of(v) {
                Some(u) => Some(decimal(u as nat)),
                None => None,
            },
        },
    }
}

pub open spec fn scalar_text_of(v: Option<JsonValue>) -> Option<Seq<char>> {
    match v {
        Some(x) => scalar_text(x),
        None => None,
    }
}

pub fn scalar_string(value: &JsonValue) -> (r: Option<String>)
    ensures
        match r {
            Some(s) => scalar_text(*value) == Some(s@),
            None => scalar_text(*value) is None,
        },
{
    if let Some(s) = value.as_str() {
        return Some(string_of(s));
    }
    if let Some(i) = value.as_i64() {
        return Some(i64_to_decimal(i));
    }
    if let Some(u) = value.as_u64() {
        return Some(u64_to_decimal(u));
    }
    None
}

fn scalar_of(value: Option<&JsonValue>) -> (r: Option<String>)
    ensures
        match r {
            Some(s) => scalar_text_of(crate::json::deref_opt(value)) == Some(s@),
            None => scalar_text_of(crate::json::deref_opt(value)) is None,
        },
{
    match value {
        Some(v) => scalar_string(v),
        None => None,
    }
}

// ---------------------------------------------------------------------------
// Catalog items and requests
// ---------------------------------------------------------------------------

pub open spec fn digit_value(c: char) -> int {
    c as int - '0' as int
}

/// The value of a run of decimal digits.
pub open spec fn digits_value(s: Seq<char>) -> int
    decreases s.len(),
{
    if s.len() == 0 {
        0
    } else {
        digits_value(s.drop_last()) * 10 + digit_value(s.last())
    }
}

/// The year in the first four characters of a date, read as `i32::from_str`
/// reads them: digits, with an optional leading sign.
pub open spec fn year_of(date: Seq<char>) -> Option<i32> {
    if date.len() < 4 {
        None
    } else {
        let p = date.subrange(0, 4);
        if (p[0] == '+' || p[0] == '-') && all_digits(p.subrange(1, 4)) {
            let v = digits_value(p.subrange(1, 4));
            Some((if p[0] == '-' { -v } else { v }) as i32)
        } else if all_digits(p) {
            Some(digits_value(p) as i32)
        } else {
            None
        }
    }
}

pub open spec fn pow10(n: nat) -> nat
    decreases n,
{
    if n == 0 {
        1
    } else {
        10 * pow10((n - 1) as nat)
    }
}

proof fn lemma_digits_value_bound(s: Seq<char>)
    requires
        all_digits(s),
    ensures
        0 <= digits_value(s) < pow10(s.len()),
    decreases s.len(),
{
    if s.len() > 0 {
        let t = s.drop_last();
        assert forall|i: int| 0 <= i < t.len() implies is_ascii_digit(#[trigger] t[i]) by {
            assert(t[i] == s[i]);
        }
        lemma_digits_value_bound(t);
        assert(is_ascii_digit(s[s.len() - 1]));
        let a = digits_value(t);
        let d = digit_value(s.last());
        let b = pow10(t.len());
        assert(0 <= a * 10 + d < 10 * b) by (nonlinear_arith)
            requires
                0 <= a < b,
                0 <= d < 10,
        ;
    }
}

/// The year at the start of a date text.
pub fn parse_year(date: &str) -> (r: Option<i32>)
    ensures
        r == year_of(date@),
{
    let n = date.unicode_len();
    if n < 4 {
        return None;
    }
    let ghost p = date@.subrange(0, 4);
    let c0 = date.get_char(0);
    assert(p[0] == c0);
    let signed = c0 == '+' || c0 == '-';
    let start: usize = if signed { 1 } else { 0 };
    let mut value: i32 = 0;
    let mut i: usize = start;
    while i < 4
        invariant
            n == date@.len(),
            4 <= n,
            p == date@.subrange(0, 4),
            start <= i <= 4,
            start == (if signed { 1usize } else { 0usize }),
            p[0] == c0,
            signed == (c0 == '+' || c0 == '-'),
            all_digits(p.subrange(start as int, i as int)),
            value == digits_value(p.subrange(start as int, i as int)),
            0 <= value < 10000,
        decreases 4 - i,
    {
        let c = date.get_char(i);
        if !char_is_ascii_digit(c) {
            proof {
                assert(p[i as int] == c);
                assert(p.subrange(start as int, 4)[i - start] == c);
                assert(!all_digits(p.subrange(start as int, 4)));
                if !signed {
                    assert(p.subrange(0, 4) =~= p);
                    assert(!all_digits(p));
                } else {
                    assert(!is_ascii_digit(p[0]));
                    assert(!all_digits(p));
                }
            }
            return None;
        }
        proof {
            let prev = p.subrange(start as int, i as int);
            let next = p.subrange(start as int, i + 1);
            assert(next.drop_last() =~= prev);
            assert(next.last() == c);
            assert forall|k: int| 0 <= k < next.len() implies is_ascii_digit(#[trigger] next[k]) by {
                if k < prev.len() {
                    assert(next[k] == prev[k]);
                }
            }
            lemma_digits_value_bound(next);
            assert(pow10(4) == 10000) by {
                reveal_with_fuel(pow10, 5);
            }
            if next.len() < 4 {
                assert(pow10(next.len()) <= 10000) by {
                    reveal_with_fuel(pow10, 5);
                }
            }
        }
        value = value * 10 + (c as u32 - '0' as u32) as i32;
        i = i + 1;
    }
    if signed && start == 1 {
        proof {
            if !(p[0] == '+' || p[0] == '-') {
                assert(false);
            }
        }
        if c0 == '-' {
            Some(-value)
        } else {
            Some(value)
        }
    } else {
        proof {
            assert(!(p[0] == '+' || p[0] == '-'));
            assert(p.subrange(0, 4) =~= p);
        }
        Some(value)
    }
}

/// A catalog item as the request manager describes it.
pub open spec fn catalog_item_of(v: JsonValue, media_type: MediaType) -> Option<MediaSearchItemView> {
    let title_value = match field(v, "title"@) {
        Some(t) => Some(t),
        None => field(v, "name"@),
    };
    let date_value = match field(v, "releaseDate"@) {
        Some(d) => Some(d),
        None => field(v, "firstAirDate"@),
    };
    match (scalar_text_of(field(v, "id"@)), str_of_opt(title_value)) {
        (Some(id), Some(title)) => Some(
            MediaSearchItemView {
                id,
                media_type,
                title,
                year: match str_of_opt(date_value) {
                    Some(d) => year_of(d),
                    None => None,
                },
                status: scalar_text_of(field_of(field(v, "mediaInfo"@), "status"@)),
            },
        ),
        _ => None,
    }
}

pub open spec fn item_view_opt(r: Option<MediaSearchItem>) -> Option<MediaSearchItemView> {
    match r {
        Some(x) => Some(x@),
        None => None,
    }
}

pub fn normalize_catalog_item(value: &JsonValue, media_type: MediaType) -> (r: Option<MediaSearchItem>)
    ensures
        item_view_opt(r) == catalog_item_of(*value, media_type),
{
    let id = scalar_of(value.get("id"))?;
    let title_value = match value.get("title") {
        Some(t) => Some(t),
        None => value.get("name"),
    };
    let title = text_of(title_value)?;
    let date_value = match value.get("releaseDate") {
        Some(d) => Some(d),
        None => value.get("firstAirDate"),
    };
    let year = match text_of(date_value) {
        Some(d) => parse_year(d.as_str()),
        None => None,
    };
    let status = scalar_of(get_opt(value.get("mediaInfo"), "status"));
    Some(MediaSearchItem { id, media_type, title, year, status })
}

/// A search hit: a catalog item whose media type is named.
pub open spec fn search_item_of(v: JsonValue) -> Option<MediaSearchItemView> {
    match str_of_opt(field(v, "mediaType"@)) {
        Some(t) => match media_type_named(t) {
            Some(mt) => catalog_item_of(v, mt),
            None => None,
        },
        None => None,
    }
}

pub fn normalize_search_result(value: &JsonValue) -> (r: Option<MediaSearchItem>)
    ensures
        item_view_opt(r) == search_item_of(*value),
{
    let text = text_of(value.get("mediaType"))?;
    let media_type = parse_media_type(text.as_str())?;
    normalize_catalog_item(value, media_type)
}

/// A media request: its id, what it asks for, and where it stands.
pub open spec fn request_of(v: JsonValue) -> Option<MediaRequestView> {
    let media = field(v, "media"@);
    let media_id = match scalar_text_of(field(v, "mediaId"@)) {
        Some(m) => Some(m),
        None => scalar_text_of(field_of(media, "tmdbId"@)),
    };
    let type_text = match str_of_opt(field(v, "mediaType"@)) {
        Some(t) => Some(t),
        None => str_of_opt(field_of(media, "mediaType"@)),
    };
    let media_type = match type_text {
        Some(t) => media_type_named(t),
        None => None,
    };
    match (media_id, media_type, scalar_text_of(field(v, "id"@))) {
        (Some(mid), Some(mt), Some(id)) => Some(
            MediaRequestView {
                id,
                media_id: mid,
                media_type: mt,
                status: match scalar_text_of(field(v, "status"@)) {
                    Some(s) => s,
                    None => Seq::empty(),
                },
                title: match str_of_opt(field(v, "title"@)) {
                    Some(t) => Some(t),
                    None => str_of_opt(field_of(media, "title"@)),
                },
            },
        ),
        _ => None,
    }
}

pub open spec fn request_view_opt(r: Option<MediaRequest>) -> Option<MediaRequestView> {
    match r {
        Some(x) => Some(x@),
        None => None,
    }
}

pub fn normalize_request(value: &JsonValue) -> (r: Option<MediaRequest>)
    ensures
        request_view_opt(r) == request_of(*value),
{
    let media = value.get("media");
    let media_id = match scalar_of(value.get("mediaId")) {
        Some(m) => m,
        None => scalar_of(get_opt(media, "tmdbId"))?,
    };
    let type_text = match text_of(value.get("mediaType")) {
        Some(t) => t,
        None => text_of(get_opt(media, "mediaType"))?,
    };
    let media_type = parse_media_type(type_text.as_str())?;
    let id = scalar_of(value.get("id"))?;
    let status = match scalar_of(value.get("status")) {
        Some(s) => s,
        None => String::new(),
    };
    let title = match text_of(value.get("title")) {
        Some(t) => Some(t),
        None => text_of(get_opt(media, "title")),
    };
    Some(MediaRequest { id, media_id, media_type, status, title })
}


// ---------------------------------------------------------------------------
// Paths and lists
// ---------------------------------------------------------------------------

/// Percent-encodes a query value.
pub fn percent_encode_query(query: &str) -> (r: String)
    ensures
        r@ == percent_encoded(vstd::utf8::encode_utf8(query@)),
{
    percent_encode(query)
}

/// The search path for a query; a blank query is refused.
pub fn search_path(query: &str) -> (r: Result<String, MediaError>)
    ensures
        all_whitespace(query@) ==> (r matches Err(MediaError::Validation(m)) && m@
            == "query is required"@),
        !all_whitespace(query@) ==> (r matches Ok(p) && p@ == "/api/v1/search?query="@
            + percent_encoded(vstd::utf8::encode_utf8(query@))),
{
    if is_blank(query) {
        return Err(MediaError::Validation(string_of("query is required")));
    }
    let encoded = percent_encode_query(query);
    Ok(concat("/api/v1/search?query=", encoded.as_str()))
}

/// The request-list path, filtered by a status unless it is blank.
pub fn list_requests_path(status: Option<&str>) -> (r: String)
    ensures
        match status {
            Some(s) => if all_whitespace(s@) {
                r@ == "/api/v1/request"@
            } else {
                r@ == "/api/v1/request?filter="@ + percent_encoded(vstd::utf8::encode_utf8(s@))
            },
            None => r@ == "/api/v1/request"@,
        },
{
    match status {
        Some(s) => {
            if is_blank(s) {
                string_of("/api/v1/request")
            } else {
                let encoded = percent_encode_query(s);
                concat("/api/v1/request?filter=", encoded.as_str())
            }
        },
        None => string_of("/api/v1/request"),
    }
}

pub open spec fn items_of_opt(v: Option<JsonValue>) -> Option<Seq<JsonValue>> {
    match v {
        Some(x) => items_of(x),
        None => None,
    }
}

/// The search hits among `items`, in order.
pub open spec fn search_items(items: Seq<JsonValue>) -> Seq<MediaSearchItemView>
    decreases items.len(),
{
    if items.len() == 0 {
        Seq::empty()
    } else {
        let rest = search_items(items.drop_last());
        match search_item_of(items.last()) {
            Some(x) => rest.push(x),
            None => rest,
        }
    }
}

/// Every result that reads as a hit is kept, in the order of the results,
/// and no other: the hits are what `filter_map` keeps of the results; the hits
/// of two runs of results put together are the hits of the first followed by
/// those of the second; and there are never more hits than results.
pub proof fn law_search_items_keep_every_hit(items: Seq<JsonValue>, more: Seq<JsonValue>)
    ensures
        search_items(items) == items.filter_map(|v: JsonValue| search_item_of(v)),
        search_items(items + more) == search_items(items) + search_items(more),
        search_items(items).len() <= items.len(),
    decreases items.len() + more.len(),
{
    if items.len() > 0 {
        law_search_items_keep_every_hit(items.drop_last(), Seq::empty());
        match search_item_of(items.last()) {
            Some(x) => {
                assert(search_items(items.drop_last()).push(x) =~= search_items(items.drop_last()) + seq![x]);
            },
            None => {},
        }
    }
    if more.len() > 0 {
        law_search_items_keep_every_hit(items, more.drop_last());
        assert((items + more).drop_last() =~= items + more.drop_last());
        assert((items + more).last() == more.last());
        match search_item_of(more.last()) {
            Some(x) => {
                assert((search_items(items) + search_items(more.drop_last())).push(x) =~= search_items(items)
                    + search_items(more.drop_last()).push(x));
            },
            None => {},
        }
    } else {
        assert(items + more =~= items);
        assert(search_items(items) + search_items(more) =~= search_items(items));
    }
}

/// The hits of a search answer: the entries of `results` that read as hits.
pub fn search_results(value: &JsonValue) -> (r: Vec<MediaSearchItem>)
    ensures
        r.deep_view() == match items_of_opt(field(*value, "results"@)) {
            Some(items) => search_items(items),
            None => Seq::empty(),
        },
{
    let mut out: Vec<MediaSearchItem> = Vec::new();
    let results = match value.get("results") {
        Some(r) => r.as_array(),
        None => None,
    };
    match results {
        None => {
            assert(out.deep_view() =~= Seq::<MediaSearchItemView>::empty());
            out
        },
        Some(items) => {
            let mut i: usize = 0;
            assert(items@.subrange(0, 0) =~= Seq::<JsonValue>::empty());
            assert(out.deep_view() =~= search_items(items@.subrange(0, 0)));
            while i < items.len()
                invariant
                    i <= items@.len(),
                    out.deep_view() == search_items(items@.subrange(0, i as int)),
                decreases items@.len() - i,
            {
                let ghost prev = out.deep_view();
                proof {
                    let next = items@.subrange(0, i + 1);
                    assert(next.drop_last() =~= items@.subrange(0, i as int));
                    assert(next.last() == items@[i as int]);
                }
                match normalize_search_result(&items[i]) {
                    Some(item) => {
                        out.push(item);
                        assert(out.deep_view() =~= prev.push(item@));
                    },
                    None => {},
                }
                i = i + 1;
            }
            assert(items@.subrange(0, items@.len() as int) =~= items@);
            out
        },
    }
}

/// The requests among `items`, in order.
pub open spec fn request_items(items: Seq<JsonValue>) -> Seq<MediaRequestView>
    decreases items.len(),
{
    if items.len() == 0 {
        Seq::empty()
    } else {
        let rest = request_items(items.drop_last());
        match request_of(items.last()) {
            Some(x) => rest.push(x),
            None => rest,
        }
    }
}

/// Every entry that reads as a request is kept, in order, and no other: the
/// requests are what `filter_map` keeps of the entries, the requests of two
/// runs of entries put together are those of the first followed by those of
/// the second, and there are never more requests than entries.
pub proof fn law_request_items_keep_every_request(items: Seq<JsonValue>, more: Seq<JsonValue>)
    ensures
        request_items(items) == items.filter_map(|v: JsonValue| request_of(v)),
        request_items(items + more) == request_items(items) + request_items(more),
        request_items(items).len() <= items.len(),
    decreases items.len() + more.len(),
{
    if items.len() > 0 {
        law_request_items_keep_every_request(items.drop_last(), Seq::empty());
        match request_of(items.last()) {
            Some(x) => {
                assert(request_items(items.drop_last()).push(x) =~= request_items(items.drop_last()) + seq![x]);
            },
            None => {},
        }
    }
    if more.len() > 0 {
        law_request_items_keep_every_request(items, more.drop_last());
        assert((items + more).drop_last() =~= items + more.drop_last());
        assert((items + more).last() == more.last());
        match request_of(more.last()) {
            Some(x) => {
                assert((request_items(items) + request_items(more.drop_last())).push(x) =~= request_items(items)
                    + request_items(more.drop_last()).push(x));
            },
            None => {},
        }
    } else {
        assert(items + more =~= items);
        assert(request_items(items) + request_items(more) =~= request_items(items));
    }
}

/// The list a request answer carries: its `results`, or the answer itself
/// when that is a list.
pub open spec fn request_entries(v: JsonValue) -> Option<Seq<JsonValue>> {
    match items_of_opt(field(v, "results"@)) {
        Some(items) => Some(items),
        None => items_of(v),
    }
}

/// The requests of a request-list answer.
pub fn request_list(value: &JsonValue) -> (r: Vec<MediaRequest>)
    ensures
        r.deep_view() == match request_entries(*value) {
            Some(items) => request_items(items),
            None => Seq::empty(),
        },
{
    let mut out: Vec<MediaRequest> = Vec::new();
    let entries = match value.get("results") {
        Some(r) => match r.as_array() {
            Some(a) => Some(a),
            None => value.as_array(),
        },
        None => value.as_array(),
    };
    match entries {
        None => {
            assert(out.deep_view() =~= Seq::<MediaRequestView>::empty());
            out
        },
        Some(items) => {
            let mut i: usize = 0;
            assert(items@.subrange(0, 0) =~= Seq::<JsonValue>::empty());
            assert(out.deep_view() =~= request_items(items@.subrange(0, 0)));
            while i < items.len()
                invariant
                    i <= items@.len(),
                    out.deep_view() == request_items(items@.subrange(0, i as int)),
                decreases items@.len() - i,
            {
                let ghost prev = out.deep_view();
                proof {
                    let next = items@.subrange(0, i + 1);
                    assert(next.drop_last() =~= items@.subrange(0, i as int));
                    assert(next.last() == items@[i as int]);
                }
                match normalize_request(&items[i]) {
                    Some(item) => {
                        out.push(item);
                        assert(out.deep_view() =~= prev.push(item@));
                    },
                    None => {},
                }
                i = i + 1;
            }
            assert(items@.subrange(0, items@.len() as int) =~= items@);
            out
        },
    }
}

/// The season numbers among `items` that can be requested: those above zero.
pub open spec fn requestable(items: Seq<JsonValue>) -> Seq<i64>
    decreases items.len(),
{
    if items.len() == 0 {
        Seq::empty()
    } else {
        let rest = requestable(items.drop_last());
        match field(items.last(), "seasonNumber"@) {
            Some(n) => match i64_of(n) {
                Some(k) => if k > 0 {
                    rest.push(k)
                } else {
                    rest
                },
                None => rest,
            },
            None => rest,
        }
    }
}

/// Every entry with a season number above zero gives that number, in order,
/// and no other entry gives one; the numbers of two runs of entries put
/// together are those of the first followed by those of the second.
pub proof fn law_requestable_keeps_every_positive_season(items: Seq<JsonValue>, more: Seq<JsonValue>)
    ensures
        requestable(items) == items.filter_map(|v: JsonValue| (match field(v, "seasonNumber"@) { Some(n) => match i64_of(n) { Some(k) => if k > 0 { Some(k) } else { None }, None => None }, None => None })),
        requestable(items + more) == requestable(items) + requestable(more),
        requestable(items).len() <= items.len(),
    decreases items.len() + more.len(),
{
    if items.len() > 0 {
        law_requestable_keeps_every_positive_season(items.drop_last(), Seq::empty());
        let v = items.last();
        match (match field(v, "seasonNumber"@) { Some(n) => match i64_of(n) { Some(k) => if k > 0 { Some(k) } else { None }, None => None }, None => None }) {
            Some(x) => {
                assert(requestable(items.drop_last()).push(x) =~= requestable(items.drop_last()) + seq![x]);
            },
            None => {},
        }
    }
    if more.len() > 0 {
        law_requestable_keeps_every_positive_season(items, more.drop_last());
        assert((items + more).drop_last() =~= items + more.drop_last());
        assert((items + more).last() == more.last());
        let v = more.last();
        match (match field(v, "seasonNumber"@) { Some(n) => match i64_of(n) { Some(k) => if k > 0 { Some(k) } else { None }, None => None }, None => None }) {
            Some(x) => {
                assert((requestable(items) + requestable(more.drop_last())).push(x) =~= requestable(items)
                    + requestable(more.drop_last()).push(x));
            },
            None => {},
        }
    } else {
        assert(items + more =~= items);
        assert(requestable(items) + requestable(more) =~= requestable(items));
    }
}

/// The seasons of a series that a request may ask for; none is a
/// validation error.
pub fn requestable_seasons(media_id: i64, value: &JsonValue) -> (r: Result<Vec<i64>, MediaError>)
    ensures
        ({
            let seasons = match items_of_opt(field(*value, "seasons"@)) {
                Some(items) => requestable(items),
                None => Seq::empty(),
            };
            &&& seasons.len() > 0 ==> (r matches Ok(v) && v@ == seasons)
            &&& seasons.len() == 0 ==> (r matches Err(MediaError::Validation(m)) && m@
                == "no requestable seasons found for tv media id "@ + int_decimal(media_id as int))
        }),
{
    let mut out: Vec<i64> = Vec::new();
    let listed = match value.get("seasons") {
        Some(s) => s.as_array(),
        None => None,
    };
    if let Some(items) = listed {
        let mut i: usize = 0;
        assert(items@.subrange(0, 0) =~= Seq::<JsonValue>::empty());
        while i < items.len()
            invariant
                i <= items@.len(),
                out@ == requestable(items@.subrange(0, i as int)),
            decreases items@.len() - i,
        {
            proof {
                let next = items@.subrange(0, i + 1);
                assert(next.drop_last() =~= items@.subrange(0, i as int));
                assert(next.last() == items@[i as int]);
            }
            match items[i].get("seasonNumber") {
                Some(n) => match n.as_i64() {
                    Some(k) => if k > 0 {
                        out.push(k);
                    },
                    None => {},
                },
                None => {},
            }
            i = i + 1;
        }
        assert(items@.subrange(0, items@.len() as int) =~= items@);
    }
    if out.len() == 0 {
        let id = i64_to_decimal(media_id);
        return Err(MediaError::Validation(concat("no requestable seasons found for tv media id ", id.as_str())));
    }
    Ok(out)
}

// ---------------------------------------------------------------------------
// Seasons and their episodes
// ---------------------------------------------------------------------------

/// The day that `chrono` reads from a `%Y-%m-%d` text, if it reads one.
pub uninterp spec fn ymd_date(text: Seq<char>) -> Option<CalendarDate>;

/// Calls `chrono::NaiveDate::parse_from_str` with the format `%Y-%m-%d` and
/// hands back the year, month and day of the date it reads. What it accepts
/// is named by `ymd_date`; nothing else is claimed of it.
#[verifier::external_body]
fn parse_ymd_date(text: &str) -> (r: Option<CalendarDate>)
    ensures
        r == ymd_date(text@),
{
    match NaiveDate::parse_from_str(text, "%Y-%m-%d") {
        Ok(d) => Some(CalendarDate { year: d.year(), month: d.month(), day: d.day() }),
        Err(_) => None,
    }
}

/// An integer in the range of `u32`.
pub open spec fn u32_of_opt(v: Option<JsonValue>) -> Option<u32> {
    match v {
        Some(x) => match i64_of(x) {
            Some(n) => if 0 <= n <= u32::MAX {
                Some(n as u32)
            } else {
                None
            },
            None => None,
        },
        None => None,
    }
}

/// An announced episode: a non-empty provider id, a number, a non-blank
/// title, and the air day when its text reads as one.
pub open spec fn expected_episode_of(ep: JsonValue) -> Option<ExpectedEpisodeView> {
    match (scalar_text_of(field(ep, "id"@)), u32_of_opt(field(ep, "episodeNumber"@)), nonblank_text(
        field(ep, "name"@),
    )) {
        (Some(id), Some(number), Some(title)) => if id.len() > 0 {
            Some(
                ExpectedEpisodeView {
                    tmdb_id: id,
                    episode_number: number,
                    title,
                    air_date: match str_of_opt(field(ep, "airDate"@)) {
                        Some(d) => ymd_date(d),
                        None => None,
                    },
                },
            )
        } else {
            None
        },
        _ => None,
    }
}

/// No two episodes share a provider id or a number.
pub open spec fn distinct_identities(eps: Seq<ExpectedEpisodeView>) -> bool {
    forall|i: int, j: int|
        0 <= i < j < eps.len() ==> (#[trigger] eps[i]).tmdb_id != (#[trigger] eps[j]).tmdb_id
            && eps[i].episode_number != eps[j].episode_number
}

/// The episodes of the requested season, when the season answer names that
/// season, lists its episodes, and every one of them reads, once.
pub open spec fn season_episodes_from(season_value: JsonValue, requested: u32) -> Option<
    Seq<ExpectedEpisodeView>,
> {
    if u32_of_opt(field(season_value, "seasonNumber"@)) != Some(requested) {
        None
    } else {
        match items_of_opt(field(season_value, "episodes"@)) {
            Some(items) => if forall|i: int| 0 <= i < items.len() ==> #[trigger] expected_episode_of(items[i]) is Some {
                let eps = Seq::new(items.len(), |i: int| expected_episode_of(items[i]).unwrap());
                if distinct_identities(eps) {
                    Some(eps)
                } else {
                    None
                }
            } else {
                None
            },
            None => None,
        }
    }
}

/// A serialization error of `service` in `operation`.
pub open spec fn is_serialization_error(r: Result<ExpectedSeason, MediaError>, service: Seq<char>, operation: Seq<char>) -> bool {
    r matches Err(MediaError::Serialization(e)) && e.service@ == service && e.operation@ == operation
}

fn u32_field(value: Option<&JsonValue>) -> (r: Option<u32>)
    ensures
        r == u32_of_opt(crate::json::deref_opt(value)),
{
    match value {
        Some(v) => match v.as_i64() {
            Some(n) => if 0 <= n && n <= 4294967295i64 {
                Some(n as u32)
            } else {
                None
            },
            None => None,
        },
        None => None,
    }
}

pub open spec fn expected_view_opt(r: Option<ExpectedEpisode>) -> Option<ExpectedEpisodeView> {
    match r {
        Some(x) => Some(x@),
        None => None,
    }
}

/// Reads one announced episode.
pub fn normalize_expected_episode(ep: &JsonValue) -> (r: Option<ExpectedEpisode>)
    ensures
        expected_view_opt(r) == expected_episode_of(*ep),
{
    let tmdb_id = scalar_of(ep.get("id"))?;
    let episode_number = u32_field(ep.get("episodeNumber"))?;
    let title = nonblank_string(ep.get("name"))?;
    if tmdb_id.unicode_len() == 0 {
        return None;
    }
    let air_date = match text_of(ep.get("airDate")) {
        Some(d) => parse_ymd_date(d.as_str()),
        None => None,
    };
    Some(ExpectedEpisode { tmdb_id, episode_number, title, air_date })
}

/// Reads a season as the request manager announces it, from the series
/// details and the season answer.
pub fn normalize_expected_season(
    media_id: i64,
    requested_season: u32,
    details: &JsonValue,
    season_value: &JsonValue,
) -> (r: Result<ExpectedSeason, MediaError>)
    ensures
        match nonblank_text(field(*details, "name"@)) {
            None => is_serialization_error(r, "jellyseerr"@, "get_tv_details"@),
            Some(title) => match season_episodes_from(*season_value, requested_season) {
                None => is_serialization_error(r, "jellyseerr"@, "get_tv_season"@),
                Some(eps) => r matches Ok(s) && s@ == (ExpectedSeasonView {
                    media_id: int_decimal(media_id as int),
                    title,
                    season: requested_season,
                    episodes: eps,
                }),
            },
        },
{
    let title = match nonblank_string(details.get("name")) {
        Some(t) => t,
        None => {
            return Err(MediaError::serialization("jellyseerr", "get_tv_details"));
        },
    };
    let season = u32_field(season_value.get("seasonNumber"));
    if season != Some(requested_season) {
        return Err(MediaError::serialization("jellyseerr", "get_tv_season"));
    }
    let items = match season_value.get("episodes") {
        Some(e) => match e.as_array() {
            Some(a) => a,
            None => {
                return Err(MediaError::serialization("jellyseerr", "get_tv_season"));
            },
        },
        None => {
            return Err(MediaError::serialization("jellyseerr", "get_tv_season"));
        },
    };
    let ghost src = items@;
    let mut episodes: Vec<ExpectedEpisode> = Vec::new();
    let mut i: usize = 0;
    while i < items.len()
        invariant
            i <= src.len(),
            src == items@,
            nonblank_text(field(*details, "name"@)) == Some(title@),
            u32_of_opt(field(*season_value, "seasonNumber"@)) == Some(requested_season),
            items_of_opt(field(*season_value, "episodes"@)) == Some(src),
            episodes@.len() == i,
            forall|k: int| 0 <= k < i ==> #[trigger] expected_episode_of(src[k]) is Some,
            forall|k: int| 0 <= k < i ==> (#[trigger] episodes@[k])@ == expected_episode_of(src[k]).unwrap(),
            forall|a: int, b: int|
                0 <= a < b < i ==> (#[trigger] episodes@[a]).tmdb_id@ != (#[trigger] episodes@[b]).tmdb_id@
                    && episodes@[a].episode_number != episodes@[b].episode_number,
        decreases src.len() - i,
    {
        let ep = match normalize_expected_episode(&items[i]) {
            Some(e) => e,
            None => {
                return Err(MediaError::serialization("jellyseerr", "get_tv_season"));
            },
        };
        let mut j: usize = 0;
        while j < episodes.len()
            invariant
                j <= episodes@.len(),
                i < src.len(),
                src == items@,
                nonblank_text(field(*details, "name"@)) == Some(title@),
                u32_of_opt(field(*season_value, "seasonNumber"@)) == Some(requested_season),
                items_of_opt(field(*season_value, "episodes"@)) == Some(src),
                episodes@.len() == i,
                expected_episode_of(src[i as int]) == Some(ep@),
                forall|k: int| 0 <= k < i ==> #[trigger] expected_episode_of(src[k]) is Some,
                forall|k: int| 0 <= k < i ==> (#[trigger] episodes@[k])@ == expected_episode_of(src[k]).unwrap(),
                forall|k: int| 0 <= k < j ==> (#[trigger] episodes@[k]).tmdb_id@ != ep.tmdb_id@
                    && episodes@[k].episode_number != ep.episode_number,
            decreases episodes@.len() - j,
        {
            if str_eq(episodes[j].tmdb_id.as_str(), ep.tmdb_id.as_str())
                || episodes[j].episode_number == ep.episode_number {
                proof {
                    let eps = Seq::new(src.len(), |k: int| expected_episode_of(src[k]).unwrap());
                    if forall|k: int| 0 <= k < src.len() ==> #[trigger] expected_episode_of(src[k]) is Some {
                        assert(eps[j as int] == episodes@[j as int]@);
                        assert(eps[i as int] == ep@);
                        assert(!distinct_identities(eps));
                    }
                }
                return Err(MediaError::serialization("jellyseerr", "get_tv_season"));
            }
            j = j + 1;
        }
        episodes.push(ep);
        i = i + 1;
    }
    let media_text = i64_to_decimal(media_id);
    let result = ExpectedSeason {
        media_id: media_text,
        title,
        season: requested_season,
        episodes,
    };
    proof {
        let eps = Seq::new(src.len(), |k: int| expected_episode_of(src[k]).unwrap());
        assert(result.episodes.deep_view() =~= eps);
    }
    Ok(result)
}


// ---------------------------------------------------------------------------
// The body of a media request
// ---------------------------------------------------------------------------

/// What a media request sends: its type and catalog ID and, for a series,
/// the seasons it asks for.
pub open spec fn request_body_doc(media_type: MediaType, media_id: i64, seasons: Option<Seq<i64>>) -> JsonView {
    let base = seq![("mediaType"@, JsonView::Str(media_type_name(media_type))), ("mediaId"@, JsonView::Int(media_id))];
    match seasons {
        Some(s) => JsonView::Object(base.push(("seasons"@, JsonView::Array(s.map_values(|n: i64| JsonView::Int(n)))))),
        None => JsonView::Object(base),
    }
}

/// Builds the body of a media request.
pub fn request_body(media_type: MediaType, media_id: i64, seasons: Option<&Vec<i64>>) -> (r: JsonValue)
    ensures
        r@ == request_body_doc(
            media_type,
            media_id,
            match seasons {
                Some(s) => Some(s@),
                None => None,
            },
        ),
{
    let mut members = vec![
        text_member("mediaType", media_type_text(media_type)),
        (string_of("mediaId"), JsonValue::Int(media_id)),
    ];
    let ghost base = seq![("mediaType"@, JsonView::Str(media_type_name(media_type))), ("mediaId"@, JsonView::Int(media_id))];
    assert(members@.map_values(|m: (String, JsonValue)| (m.0@, json_view(m.1))) =~= base);
    match seasons {
        Some(list) => {
            let mut items: Vec<JsonValue> = Vec::new();
            let mut i: usize = 0;
            while i < list.len()
                invariant
                    i <= list@.len(),
                    items@.len() == i,
                    forall|j: int| 0 <= j < i ==> json_view(#[trigger] items@[j]) == JsonView::Int(list@[j]),
                decreases list.len() - i,
            {
                items.push(JsonValue::Int(list[i]));
                i += 1;
            }
            assert(items@.map_values(|v: JsonValue| json_view(v)) =~= list@.map_values(|n: i64| JsonView::Int(n)));
            let ghost before = members@;
            members.push((string_of("seasons"), array_of(items)));
            assert(members@.map_values(|m: (String, JsonValue)| (m.0@, json_view(m.1))) =~= base.push(
                ("seasons"@, JsonView::Array(list@.map_values(|n: i64| JsonView::Int(n)))),
            ));
        },
        None => {},
    }
    object_of(members)
}

} // verus!
