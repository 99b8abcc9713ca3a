//! What the library reads from the media server's answers: library counts,
//! playing sessions, the series that matches a catalog id, its episodes, and
//! the paging of long listings.
use crate::api_model::{ActiveSession, ActiveSessionView, LibraryStatus, MediaOperation};
use crate::json::{
    deref_opt, field, field_of, get_opt, items_of, nonblank_string, nonblank_text, str_of, str_of_opt,
    text_of, u64_of, JsonValue,
};
use crate::media::availability::{LibraryEpisode, LibraryEpisodeView};
use crate::media::error::MediaError;
use crate::text::{concat, decimal, percent_encode, percent_encoded, str_eq, string_of, u64_to_decimal};
use vstd::prelude::*;

verus! {

/// Listings are read in pages of this many records.
pub const PAGE_SIZE: usize = 200;

/// No listing may hold more records than this.
pub const MAX_RECORDS: usize = 10000;

// ---------------------------------------------------------------------------
// Library counts and sessions
// ---------------------------------------------------------------------------

pub open spec fn u64_member(v: JsonValue, key: Seq<char>) -> Option<u64> {
    match field(v, key) {
        Some(x) => u64_of(x),
        None => None,
    }
}

fn u64_at(value: &JsonValue, key: &str) -> (r: Option<u64>)
    ensures
        r == u64_member(*value, key@),
{
    match value.get(key) {
        Some(v) => v.as_u64(),
        None => None,
    }
}

/// The item, movie and series counts of the library.
pub fn library_status(value: &JsonValue) -> (r: LibraryStatus)
    ensures
        r.item_count == u64_member(*value, "ItemCount"@),
        r.movie_count == u64_member(*value, "MovieCount"@),
        r.series_count == u64_member(*value, "SeriesCount"@),
{
    LibraryStatus {
        item_count: u64_at(value, "ItemCount"),
        movie_count: u64_at(value, "MovieCount"),
        series_count: u64_at(value, "SeriesCount"),
    }
}

/// The library refresh that was started.
pub fn refresh_operation() -> (r: MediaOperation)
    ensures
        r@.service == "jellyfin"@,
        r@.operation == "refresh_library"@,
        r@.affected_id is None,
{
    MediaOperation {
        service: string_of("jellyfin"),
        operation: string_of("refresh_library"),
        affected_id: None,
    }
}

/// A playing session: its id, and the user and item when they are named.
pub open spec fn session_of(v: JsonValue) -> Option<ActiveSessionView> {
    match str_of_opt(field(v, "Id"@)) {
        Some(id) => Some(
            ActiveSessionView {
                id,
                user_name: str_of_opt(field(v, "UserName"@)),
                item_name: str_of_opt(field_of(field(v, "NowPlayingItem"@), "Name"@)),
            },
        ),
        None => None,
    }
}

/// The sessions among `items`, in order.
pub open spec fn sessions_of(items: Seq<JsonValue>) -> Seq<ActiveSessionView>
    decreases items.len(),
{
    if items.len() == 0 {
        Seq::empty()
    } else {
        let rest = sessions_of(items.drop_last());
        match session_of(items.last()) {
            Some(x) => rest.push(x),
            None => rest,
        }
    }
}

/// Every entry that reads as a session is kept, in order, and no other: the
/// sessions are what `filter_map` keeps of the entries, the sessions of two
/// runs of entries put together are those of the first followed by those of
/// the second, and there are never more sessions than entries.
pub proof fn law_sessions_keep_every_session(items: Seq<JsonValue>, more: Seq<JsonValue>)
    ensures
        sessions_of(items) == items.filter_map(|v: JsonValue| session_of(v)),
        sessions_of(items + more) == sessions_of(items) + sessions_of(more),
        sessions_of(items).len() <= items.len(),
    decreases items.len() + more.len(),
{
    if items.len() > 0 {
        law_sessions_keep_every_session(items.drop_last(), Seq::empty());
        match session_of(items.last()) {
            Some(x) => {
                assert(sessions_of(items.drop_last()).push(x) =~= sessions_of(items.drop_last()) + seq![x]);
            },
            None => {},
        }
    }
    if more.len() > 0 {
        law_sessions_keep_every_session(items, more.drop_last());
        assert((items + more).drop_last() =~= items + more.drop_last());
        assert((items + more).last() == more.last());
        match session_of(more.last()) {
            Some(x) => {
                assert((sessions_of(items) + sessions_of(more.drop_last())).push(x) =~= sessions_of(items)
                    + sessions_of(more.drop_last()).push(x));
            },
            None => {},
        }
    } else {
        assert(items + more =~= items);
        assert(sessions_of(items) + sessions_of(more) =~= sessions_of(items));
    }
}

/// The playing sessions of a session listing, which must be a list.
pub fn active_sessions(value: &JsonValue) -> (r: Result<Vec<ActiveSession>, MediaError>)
    ensures
        match items_of(*value) {
            Some(items) => r matches Ok(v) && v.deep_view() == sessions_of(items),
            None => r matches Err(MediaError::Serialization(e)) && e.service@ == "jellyfin"@
                && e.operation@ == "get_active_sessions"@,
        },
{
    let items = match value.as_array() {
        Some(a) => a,
        None => {
            return Err(MediaError::serialization("jellyfin", "get_active_sessions"));
        },
    };
    let mut out: Vec<ActiveSession> = Vec::new();
    let mut i: usize = 0;
    assert(out.deep_view() =~= sessions_of(items@.subrange(0, 0)));
    while i < items.len()
        invariant
            i <= items@.len(),
            out.deep_view() == sessions_of(items@.subrange(0, i as int)),
        decreases items@.len() - i,
    {
        let ghost prev = out.deep_view();
        proof {
            let next = items@.subrange(0, i + 1);
            assert(next.drop_last() =~= items@.subrange(0, i as int));
            assert(next.last() == items@[i as int]);
        }
        let item = &items[i];
        match text_of(item.get("Id")) {
            Some(id) => {
                let session = ActiveSession {
                    id,
                    user_name: text_of(item.get("UserName")),
                    item_name: text_of(get_opt(item.get("NowPlayingItem"), "Name")),
                };
                out.push(session);
                assert(out.deep_view() =~= prev.push(session@));
            },
            None => {},
        }
        i = i + 1;
    }
    assert(items@.subrange(0, items@.len() as int) =~= items@);
    Ok(out)
}

// ---------------------------------------------------------------------------
// Series and episodes
// ---------------------------------------------------------------------------

/// The catalog id that the media server records for an item.
pub open spec fn provider_tmdb(v: JsonValue) -> Option<Seq<char>> {
    str_of_opt(field_of(field(v, "ProviderIds"@), "Tmdb"@))
}

/// How many of the first `n` series carry the catalog id.
pub open spec fn series_matches(items: Seq<JsonValue>, media_id: Seq<char>, n: int) -> nat
    decreases n,
{
    if n <= 0 {
        0
    } else {
        series_matches(items, media_id, n - 1) + if provider_tmdb(items[n - 1]) == Some(media_id) {
            1nat
        } else {
            0nat
        }
    }
}

/// The first of the first `n` series that carries the catalog id.
pub open spec fn first_series(items: Seq<JsonValue>, media_id: Seq<char>, n: int) -> Option<int>
    decreases n,
{
    if n <= 0 {
        None
    } else {
        match first_series(items, media_id, n - 1) {
            Some(k) => Some(k),
            None => if provider_tmdb(items[n - 1]) == Some(media_id) {
                Some(n - 1)
            } else {
                None
            },
        }
    }
}

proof fn lemma_first_series_bounds(items: Seq<JsonValue>, media_id: Seq<char>, n: int)
    ensures
        first_series(items, media_id, n) matches Some(k) ==> 0 <= k < n && provider_tmdb(items[k]) == Some(
            media_id,
        ),
        (first_series(items, media_id, n) is None) == (series_matches(items, media_id, n) == 0),
    decreases n,
{
    if n > 0 {
        lemma_first_series_bounds(items, media_id, n - 1);
    }
}

fn provider_tmdb_is(item: &JsonValue, media_id: &str) -> (r: bool)
    ensures
        r == (provider_tmdb(*item) == Some(media_id@)),
{
    match get_opt(item.get("ProviderIds"), "Tmdb") {
        Some(t) => match t.as_str() {
            Some(s) => str_eq(s, media_id),
            None => false,
        },
        None => false,
    }
}

/// The media server's id of the one series that carries the catalog id:
/// none when no series does, a conflict when several do, and invalid data when
/// the one that does has a blank id.
pub fn match_series(series: &Vec<JsonValue>, media_id: &str) -> (r: Result<Option<String>, MediaError>)
    ensures
        ({
            let items = series@;
            let n = items.len() as int;
            &&& series_matches(items, media_id@, n) == 0 ==> (r matches Ok(None))
            &&& series_matches(items, media_id@, n) >= 2 ==> (r matches Err(MediaError::Conflict))
            &&& series_matches(items, media_id@, n) == 1 ==> match nonblank_text(
                field(items[first_series(items, media_id@, n).unwrap()], "Id"@),
            ) {
                Some(id) => r matches Ok(Some(s)) && s@ == id,
                None => r matches Err(MediaError::Internal),
            }
        }),
{
    let ghost items = series@;
    let mut count: usize = 0;
    let mut first: Option<usize> = None;
    let mut i: usize = 0;
    while i < series.len()
        invariant
            items == series@,
            i <= items.len(),
            count == series_matches(items, media_id@, i as int),
            count <= i,
            match first {
                Some(k) => first_series(items, media_id@, i as int) == Some(k as int),
                None => first_series(items, media_id@, i as int) is None,
            },
        decreases items.len() - i,
    {
        if provider_tmdb_is(&series[i], media_id) {
            count = count + 1;
            if first.is_none() {
                first = Some(i);
            }
        }
        i = i + 1;
    }
    proof {
        lemma_first_series_bounds(items, media_id@, items.len() as int);
    }
    if count >= 2 {
        return Err(MediaError::Conflict);
    }
    match first {
        None => Ok(None),
        Some(k) => match nonblank_string(series[k].get("Id")) {
            Some(id) => Ok(Some(id)),
            None => Err(MediaError::Internal),
        },
    }
}

/// An integer in the range of `u32` read as an unsigned number.
pub open spec fn u32_member(v: JsonValue, key: Seq<char>) -> Option<u32> {
    match u64_member(v, key) {
        Some(n) => if n <= u32::MAX {
            Some(n as u32)
        } else {
            None
        },
        None => None,
    }
}

/// An episode of the requested season: its season and episode numbers, with
/// the media server's id when it is not blank and the catalog id it records.
pub open spec fn library_episode_of(item: JsonValue, requested_season: u32) -> Option<LibraryEpisodeView> {
    match u32_member(item, "ParentIndexNumber"@) {
        Some(season) => if season != requested_season {
            None
        } else {
            match u32_member(item, "IndexNumber"@) {
                Some(number) => Some(
                    LibraryEpisodeView {
                        jellyfin_id: nonblank_text(field(item, "Id"@)),
                        tmdb_id: provider_tmdb(item),
                        season_number: season,
                        episode_number: number,
                    },
                ),
                None => None,
            }
        },
        None => None,
    }
}

pub open spec fn library_view_opt(r: Option<LibraryEpisode>) -> Option<LibraryEpisodeView> {
    match r {
        Some(x) => Some(x@),
        None => None,
    }
}

fn u32_at(value: &JsonValue, key: &str) -> (r: Option<u32>)
    ensures
        r == u32_member(*value, key@),
{
    match u64_at(value, key) {
        Some(n) => if n <= 4294967295u64 {
            Some(n as u32)
        } else {
            None
        },
        None => None,
    }
}

pub fn normalize_library_episode(item: &JsonValue, requested_season: u32) -> (r: Option<LibraryEpisode>)
    ensures
        library_view_opt(r) == library_episode_of(*item, requested_season),
{
    let season_number = u32_at(item, "ParentIndexNumber")?;
    if season_number != requested_season {
        return None;
    }
    let episode_number = u32_at(item, "IndexNumber")?;
    let jellyfin_id = nonblank_string(item.get("Id"));
    let tmdb_id = text_of(get_opt(item.get("ProviderIds"), "Tmdb"));
    Some(LibraryEpisode { jellyfin_id, tmdb_id, season_number, episode_number })
}

/// The episodes of the requested season among `items`, in order.
pub open spec fn library_episodes_of(items: Seq<JsonValue>, season: u32) -> Seq<LibraryEpisodeView>
    decreases items.len(),
{
    if items.len() == 0 {
        Seq::empty()
    } else {
        let rest = library_episodes_of(items.drop_last(), season);
        match library_episode_of(items.last(), season) {
            Some(x) => rest.push(x),
            None => rest,
        }
    }
}

/// Every entry that reads as an episode of the season is kept, in order, and
/// no other: the episodes are what `filter_map` keeps of the entries, the
/// episodes of two runs of entries put together are those of the first
/// followed by those of the second, and there are never more episodes than
/// entries.
pub proof fn law_library_episodes_keep_every_episode(items: Seq<JsonValue>, more: Seq<JsonValue>, season: u32)
    ensures
        library_episodes_of(items, season) == items.filter_map(|v: JsonValue| library_episode_of(v, season)),
        library_episodes_of(items + more, season) == library_episodes_of(items, season) + library_episodes_of(more, season),
        library_episodes_of(items, season).len() <= items.len(),
    decreases items.len() + more.len(),
{
    if items.len() > 0 {
        law_library_episodes_keep_every_episode(items.drop_last(), Seq::empty(), season);
        match library_episode_of(items.last(), season) {
            Some(x) => {
                assert(library_episodes_of(items.drop_last(), season).push(x) =~= library_episodes_of(items.drop_last(), season) + seq![x]);
            },
            None => {},
        }
    }
    if more.len() > 0 {
        law_library_episodes_keep_every_episode(items, more.drop_last(), season);
        assert((items + more).drop_last() =~= items + more.drop_last());
        assert((items + more).last() == more.last());
        match library_episode_of(more.last(), season) {
            Some(x) => {
                assert((library_episodes_of(items, season) + library_episodes_of(more.drop_last(), season)).push(x) =~= library_episodes_of(items, season)
                    + library_episodes_of(more.drop_last(), season).push(x));
            },
            None => {},
        }
    } else {
        assert(items + more =~= items);
        assert(library_episodes_of(items, season) + library_episodes_of(more, season) =~= library_episodes_of(items, season));
    }
}

/// The episodes of the requested season in an episode listing.
pub fn library_episodes(items: &Vec<JsonValue>, season: u32) -> (r: Vec<LibraryEpisode>)
    ensures
        r.deep_view() == library_episodes_of(items@, season),
{
    let mut out: Vec<LibraryEpisode> = Vec::new();
    let mut i: usize = 0;
    assert(out.deep_view() =~= library_episodes_of(items@.subrange(0, 0), season));
    while i < items.len()
        invariant
            i <= items@.len(),
            out.deep_view() == library_episodes_of(items@.subrange(0, i as int), season),
        decreases items@.len() - i,
    {
        let ghost prev = out.deep_view();
        proof {
            let next = items@.subrange(0, i + 1);
            assert(next.drop_last() =~= items@.subrange(0, i as int));
            assert(next.last() == items@[i as int]);
        }
        match normalize_library_episode(&items[i], season) {
            Some(ep) => {
                out.push(ep);
                assert(out.deep_view() =~= prev.push(ep@));
            },
            None => {},
        }
        i = i + 1;
    }
    assert(items@.subrange(0, items@.len() as int) =~= items@);
    out
}

/// Percent-encodes an opaque path segment.
pub fn percent_encode_path_segment(value: &str) -> (r: String)
    ensures
        r@ == percent_encoded(vstd::utf8::encode_utf8(value@)),
{
    percent_encode(value)
}

/// The path of one page of the series listing.
pub fn series_page_path(start_index: usize) -> (r: String)
    ensures
        r@ == "/Items?Recursive=true&IncludeItemTypes=Series&Fields=ProviderIds&StartIndex="@
            + decimal(start_index as nat) + "&Limit=200"@,
{
    let start = u64_to_decimal(start_index as u64);
    let head = concat("/Items?Recursive=true&IncludeItemTypes=Series&Fields=ProviderIds&StartIndex=", start.as_str());
    concat(head.as_str(), "&Limit=200")
}

/// The path of one page of a season's episode listing.
pub fn episode_page_path(series_id: &str, season: u32, start_index: usize) -> (r: String)
    ensures
        r@ == "/Shows/"@ + percent_encoded(vstd::utf8::encode_utf8(series_id@)) + "/Episodes?Season="@
            + decimal(season as nat) + "&IsMissing=false&Fields=ProviderIds&StartIndex="@ + decimal(
            start_index as nat,
        ) + "&Limit=200"@,
{
    let encoded = percent_encode_path_segment(series_id);
    let season_text = u64_to_decimal(season as u64);
    let start = u64_to_decimal(start_index as u64);
    let a = concat("/Shows/", encoded.as_str());
    let b = concat(a.as_str(), "/Episodes?Season=");
    let c = concat(b.as_str(), season_text.as_str());
    let d = concat(c.as_str(), "&IsMissing=false&Fields=ProviderIds&StartIndex=");
    let e = concat(d.as_str(), start.as_str());
    let r = concat(e.as_str(), "&Limit=200");
    proof {
        assert(r@ =~= "/Shows/"@ + percent_encoded(vstd::utf8::encode_utf8(series_id@)) + "/Episodes?Season="@
            + decimal(season as nat) + "&IsMissing=false&Fields=ProviderIds&StartIndex="@ + decimal(
            start_index as nat,
        ) + "&Limit=200"@);
    }
    r
}

// ---------------------------------------------------------------------------
// Paging
// ---------------------------------------------------------------------------

/// What to do after a page: ask for the next one, or stop; each carries the
/// page's records.
#[derive(Debug)]
pub enum PageStep {
    Next { items: Vec<JsonValue>, start_index: usize },
    Done { items: Vec<JsonValue> },
}

/// The record count a page announces, if it announces one; `Err` when the
/// count is not a number the listing can hold.
pub open spec fn announced_total(page: JsonValue) -> Result<Option<nat>, ()> {
    match field(page, "TotalRecordCount"@) {
        None => Ok(None),
        Some(t) => match u64_of(t) {
            Some(n) => if n <= usize::MAX && n <= MAX_RECORDS {
                Ok(Some(n as nat))
            } else {
                Err(())
            },
            None => Err(()),
        },
    }
}

/// Decides on one page of a listing, `collected` records into it and asked
/// from `start_index`: a page with a bad count, or that would take the listing
/// past the cap, is invalid data; one without a list of records cannot be
/// read; a short page, or one that reaches the announced count, ends the
/// listing; otherwise the next page starts `PAGE_SIZE` further on.
pub fn page_step(collected: usize, start_index: usize, page: JsonValue, operation: &str) -> (r: Result<
    PageStep,
    MediaError,
>)
    ensures
        match (announced_total(page), field(page, "Items"@)) {
            (Err(_), _) => r matches Err(MediaError::Internal),
            (Ok(total), Some(JsonValue::Array(items))) => {
                let got = collected + items@.len();
                let finished = items@.len() < PAGE_SIZE || (total matches Some(t) && got >= t);
                if got > MAX_RECORDS {
                    r matches Err(MediaError::Internal)
                } else if finished {
                    r matches Ok(PageStep::Done { items: out }) && out@ == items@
                } else if start_index + PAGE_SIZE > usize::MAX {
                    r matches Err(MediaError::Internal)
                } else {
                    r matches Ok(PageStep::Next { items: out, start_index: next }) && out@ == items@
                        && next == start_index + PAGE_SIZE
                }
            },
            (Ok(_), _) => r matches Err(MediaError::Serialization(e)) && e.service@ == "jellyfin"@
                && e.operation@ == operation@,
        },
{
    let total: Option<usize> = match page.get("TotalRecordCount") {
        None => None,
        Some(t) => match t.as_u64() {
            Some(n) => {
                if n > 10000u64 {
                    return Err(MediaError::Internal);
                }
                Some(n as usize)
            },
            None => {
                return Err(MediaError::Internal);
            },
        },
    };
    let items = match page.take_member("Items") {
        Some(JsonValue::Array(items)) => items,
        _ => {
            return Err(MediaError::serialization("jellyfin", operation));
        },
    };
    let page_len = items.len();
    if page_len > MAX_RECORDS || collected > MAX_RECORDS - page_len {
        return Err(MediaError::Internal);
    }
    let got = collected + page_len;
    let finished = page_len < PAGE_SIZE || match total {
        Some(t) => got >= t,
        None => false,
    };
    if finished {
        return Ok(PageStep::Done { items });
    }
    if start_index > usize::MAX - PAGE_SIZE {
        return Err(MediaError::Internal);
    }
    Ok(PageStep::Next { items, start_index: start_index + PAGE_SIZE })
}

} // verus!
