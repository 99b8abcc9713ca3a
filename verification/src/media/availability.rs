//! Season availability: what a season promises, what the library holds, and
//! the comparison of the two as of a given day.
use crate::api_model::{
    date_le, AvailabilityEpisode, AvailabilityEpisodeView, AvailabilitySeries, CalendarDate,
    CompletenessStatus, CompletenessSummary, EpisodePresence, EpisodeReleaseStatus,
    SeasonAvailability,
};
use crate::api_model::{date_le_exec, date_lt};
use crate::media::error::MediaError;
use crate::text::{all_whitespace, is_blank, str_eq};
use vstd::set_lib::set_int_range;
use vstd::prelude::*;

verus! {

/// One episode that the catalog announces for a season.
#[derive(Clone, Debug, PartialEq, Eq)]
pub struct ExpectedEpisode {
    pub tmdb_id: String,
    pub episode_number: u32,
    pub title: String,
    pub air_date: Option<CalendarDate>,
}

pub struct ExpectedEpisodeView {
    pub tmdb_id: Seq<char>,
    pub episode_number: u32,
    pub title: Seq<char>,
    pub air_date: Option<CalendarDate>,
}

impl View for ExpectedEpisode {
    type V = ExpectedEpisodeView;

    open spec fn view(&self) -> ExpectedEpisodeView {
        ExpectedEpisodeView {
            tmdb_id: self.tmdb_id@,
            episode_number: self.episode_number,
            title: self.title@,
            air_date: self.air_date,
        }
    }
}

impl DeepView for ExpectedEpisode {
    type V = ExpectedEpisodeView;

    open spec fn deep_view(&self) -> ExpectedEpisodeView {
        self@
    }
}

/// The season as the catalog announces it.
#[derive(Clone, Debug, PartialEq, Eq)]
pub struct ExpectedSeason {
    pub media_id: String,
    pub title: String,
    pub season: u32,
    pub episodes: Vec<ExpectedEpisode>,
}

/// One episode file that the library holds.
#[derive(Clone, Debug, PartialEq, Eq)]
pub struct LibraryEpisode {
    pub jellyfin_id: Option<String>,
    pub tmdb_id: Option<String>,
    pub season_number: u32,
    pub episode_number: u32,
}

pub struct LibraryEpisodeView {
    pub jellyfin_id: Option<Seq<char>>,
    pub tmdb_id: Option<Seq<char>>,
    pub season_number: u32,
    pub episode_number: u32,
}

impl View for LibraryEpisode {
    type V = LibraryEpisodeView;

    open spec fn view(&self) -> LibraryEpisodeView {
        LibraryEpisodeView {
            jellyfin_id: match self.jellyfin_id {
                Some(j) => Some(j@),
                None => None,
            },
            tmdb_id: match self.tmdb_id {
                Some(t) => Some(t@),
                None => None,
            },
            season_number: self.season_number,
            episode_number: self.episode_number,
        }
    }
}

impl DeepView for LibraryEpisode {
    type V = LibraryEpisodeView;

    open spec fn deep_view(&self) -> LibraryEpisodeView {
        self@
    }
}

/// The library's copy of a series: its id there and the episodes it holds.
#[derive(Clone, Debug, PartialEq, Eq)]
pub struct LibrarySeason {
    pub series_id: String,
    pub episodes: Vec<LibraryEpisode>,
}

// ---------------------------------------------------------------------------
// Provider ids
// ---------------------------------------------------------------------------

/// A provider id counts only when it holds something besides whitespace.
pub open spec fn provider_id(value: Seq<char>) -> Option<Seq<char>> {
    if all_whitespace(value) {
        None
    } else {
        Some(value)
    }
}

pub open spec fn expected_key(e: ExpectedEpisodeView) -> Option<Seq<char>> {
    provider_id(e.tmdb_id)
}

pub open spec fn library_key(a: LibraryEpisodeView) -> Option<Seq<char>> {
    match a.tmdb_id {
        Some(t) => provider_id(t),
        None => None,
    }
}

/// The provider id, when it is not blank.
pub fn nonempty_tmdb_id(value: &str) -> (r: Option<&str>)
    ensures
        match r {
            Some(v) => v@ == value@ && provider_id(value@) == Some(value@),
            None => provider_id(value@) is None,
        },
{
    if is_blank(value) {
        None
    } else {
        Some(value)
    }
}

// ---------------------------------------------------------------------------
// Counts and summaries
// ---------------------------------------------------------------------------

/// A count as the API carries it; one that does not fit is an internal error.
pub fn checked_count(count: usize) -> (r: Result<u32, MediaError>)
    ensures
        count <= u32::MAX ==> r == Ok::<u32, MediaError>(count as u32),
        count > u32::MAX ==> r == Err::<u32, MediaError>(MediaError::Internal),
{
    if count <= 4294967295usize {
        Ok(count as u32)
    } else {
        Err(MediaError::Internal)
    }
}

/// A completeness summary of `expected_count` episodes of which
/// `available_count` are present.
pub fn summary(status: CompletenessStatus, expected_count: usize, available_count: usize) -> (r:
    Result<CompletenessSummary, MediaError>)
    ensures
        available_count <= expected_count <= u32::MAX ==> r == Ok::<
            CompletenessSummary,
            MediaError,
        >(
            CompletenessSummary {
                status,
                expected_count: expected_count as u32,
                available_count: available_count as u32,
                missing_count: (expected_count - available_count) as u32,
            },
        ),
        !(available_count <= expected_count <= u32::MAX) ==> r == Err::<
            CompletenessSummary,
            MediaError,
        >(MediaError::Internal),
{
    if available_count > expected_count {
        return Err(MediaError::Internal);
    }
    let missing_count = expected_count - available_count;
    let expected = checked_count(expected_count)?;
    let available = checked_count(available_count)?;
    let missing = checked_count(missing_count)?;
    Ok(CompletenessSummary {
        status,
        expected_count: expected,
        available_count: available,
        missing_count: missing,
    })
}

// ---------------------------------------------------------------------------
// Matching one expected episode against the library
// ---------------------------------------------------------------------------

/// Two library episodes that carry the same provider id.
pub open spec fn library_clash(a: LibraryEpisodeView, b: LibraryEpisodeView) -> bool {
    library_key(a) is Some && library_key(a) == library_key(b)
}

/// Some two library episodes clash.
pub open spec fn library_conflict(acts: Seq<LibraryEpisodeView>) -> bool {
    exists|i: int, j: int|
        0 <= i < j < acts.len() && #[trigger] library_clash(acts[i], acts[j])
}

/// The library episode that carries provider id `k`, if one does.
pub open spec fn key_index(k: Seq<char>, acts: Seq<LibraryEpisodeView>) -> Option<int> {
    if exists|j: int| 0 <= j < acts.len() && library_key(#[trigger] acts[j]) == Some(k) {
        Some(choose|j: int| 0 <= j < acts.len() && library_key(#[trigger] acts[j]) == Some(k))
    } else {
        None
    }
}

/// The library episode that an expected episode's provider id names.
pub open spec fn provider_pick(e: ExpectedEpisodeView, acts: Seq<LibraryEpisodeView>) -> Option<
    int,
> {
    match expected_key(e) {
        Some(k) => key_index(k, acts),
        None => None,
    }
}

/// A library episode may stand in for `e` by number when it has `e`'s number in
/// `season` and the two do not both carry a provider id.
pub open spec fn number_candidate(
    e: ExpectedEpisodeView,
    season: u32,
    a: LibraryEpisodeView,
) -> bool {
    &&& a.season_number == season
    &&& a.episode_number == e.episode_number
    &&& (expected_key(e) is None || library_key(a) is None)
}

/// How many of the first `n` library episodes may stand in for `e` by number.
pub open spec fn candidate_count(
    e: ExpectedEpisodeView,
    season: u32,
    acts: Seq<LibraryEpisodeView>,
    n: int,
) -> nat
    decreases n,
{
    if n <= 0 {
        0
    } else {
        candidate_count(e, season, acts, n - 1) + if number_candidate(e, season, acts[n - 1]) {
            1nat
        } else {
            0nat
        }
    }
}

/// The first of the first `n` library episodes that may stand in for `e` by number.
pub open spec fn first_candidate(
    e: ExpectedEpisodeView,
    season: u32,
    acts: Seq<LibraryEpisodeView>,
    n: int,
) -> Option<int>
    decreases n,
{
    if n <= 0 {
        None
    } else {
        match first_candidate(e, season, acts, n - 1) {
            Some(j) => Some(j),
            None => if number_candidate(e, season, acts[n - 1]) {
                Some(n - 1)
            } else {
                None
            },
        }
    }
}

proof fn lemma_first_candidate_bounds(
    e: ExpectedEpisodeView,
    season: u32,
    acts: Seq<LibraryEpisodeView>,
    n: int,
)
    ensures
        first_candidate(e, season, acts, n) matches Some(f) ==> 0 <= f < n && number_candidate(
            e,
            season,
            acts[f],
        ),
    decreases n,
{
    if n > 0 {
        lemma_first_candidate_bounds(e, season, acts, n - 1);
    }
}

/// The library episode picked for `e`: the one its provider id names, else the
/// single number candidate.
pub open spec fn pick(e: ExpectedEpisodeView, season: u32, acts: Seq<LibraryEpisodeView>) -> Option<
    int,
> {
    match provider_pick(e, acts) {
        Some(j) => Some(j),
        None => first_candidate(e, season, acts, acts.len() as int),
    }
}

/// More than one number candidate, and no provider match to settle it.
pub open spec fn ambiguous(e: ExpectedEpisodeView, season: u32, acts: Seq<LibraryEpisodeView>) -> bool {
    provider_pick(e, acts) is None && candidate_count(e, season, acts, acts.len() as int) >= 2
}

/// One matching step: whether `e` is present, and the library episodes used up
/// so far; `None` when the step conflicts.
pub open spec fn match_step(
    e: ExpectedEpisodeView,
    season: u32,
    acts: Seq<LibraryEpisodeView>,
    consumed: Set<int>,
) -> Option<(bool, Set<int>)> {
    if ambiguous(e, season, acts) {
        None
    } else {
        match pick(e, season, acts) {
            Some(j) => if consumed.contains(j) {
                None
            } else {
                Some((true, consumed.insert(j)))
            },
            None => Some((false, consumed)),
        }
    }
}

/// The library episodes marked in `flags`.
pub open spec fn marked(flags: Seq<bool>) -> Set<int> {
    Set::new(|j: int| 0 <= j < flags.len() && flags[j])
}

/// Matches `expected` against the library, using up the library episode it
/// takes; a provider id that names a used-up episode, or a number that several
/// library episodes could stand for, is a conflict.
fn match_actual_episode(
    expected: &ExpectedEpisode,
    season: u32,
    actual: &Vec<LibraryEpisode>,
    consumed: &mut Vec<bool>,
) -> (r: Result<bool, MediaError>)
    requires
        old(consumed)@.len() == actual@.len(),
        !library_conflict(actual.deep_view()),
    ensures
        final(consumed)@.len() == old(consumed)@.len(),
        match match_step(expected@, season, actual.deep_view(), marked(old(consumed)@)) {
            None => r == Err::<bool, MediaError>(MediaError::Conflict),
            Some((m, c)) => r == Ok::<bool, MediaError>(m) && marked(final(consumed)@) == c,
        },
{
    let ghost acts = actual.deep_view();
    let ghost before = consumed@;
    let key = nonempty_tmdb_id(expected.tmdb_id.as_str());
    let mut by_provider: Option<usize> = None;
    if let Some(k) = key {
        let mut j: usize = 0;
        while j < actual.len() && by_provider.is_none()
            invariant
                j <= actual.len(),
                acts == actual.deep_view(),
                expected_key(expected@) == Some(k@),
                match by_provider {
                    Some(i) => i < actual.len() && library_key(acts[i as int]) == Some(k@),
                    None => forall|i: int| 0 <= i < j ==> library_key(#[trigger] acts[i]) != Some(k@),
                },
            decreases actual.len() - j,
        {
            assert(acts[j as int] == actual@[j as int]@);
            let found = match &actual[j].tmdb_id {
                Some(t) => str_eq(t.as_str(), k),
                None => false,
            };
            if found {
                by_provider = Some(j);
            }
            j = j + 1;
        }
        proof {
            match by_provider {
                Some(i) => {
                    assert(library_key(acts[i as int]) == Some(k@));
                    let c = choose|c: int| 0 <= c < acts.len() && library_key(#[trigger] acts[c]) == Some(k@);
                    if c != i as int {
                        if c < i {
                            assert(library_clash(acts[c], acts[i as int]));
                        } else {
                            assert(library_clash(acts[i as int], acts[c]));
                        }
                    }
                    assert(provider_pick(expected@, acts) == Some(i as int));
                },
                None => {
                    assert(provider_pick(expected@, acts) is None);
                },
            }
        }
    }
    let index: usize;
    if let Some(i) = by_provider {
        index = i;
    } else {
        let mut count: usize = 0;
        let mut first: Option<usize> = None;
        let mut j: usize = 0;
        while j < actual.len()
            invariant
                j <= actual.len(),
                acts == actual.deep_view(),
                key is Some ==> expected_key(expected@) == Some(key.unwrap()@),
                key is None ==> expected_key(expected@) is None,
                count == candidate_count(expected@, season, acts, j as int),
                count <= j,
                match first {
                    Some(f) => first_candidate(expected@, season, acts, j as int) == Some(f as int),
                    None => first_candidate(expected@, season, acts, j as int) is None,
                },
            decreases actual.len() - j,
        {
            let a = &actual[j];
            assert(acts[j as int] == a@);
            let keyless = match &a.tmdb_id {
                Some(t) => nonempty_tmdb_id(t.as_str()).is_none(),
                None => true,
            };
            let candidate = a.season_number == season && a.episode_number == expected.episode_number
                && (key.is_none() || keyless);
            if candidate {
                count = count + 1;
                if first.is_none() {
                    first = Some(j);
                }
            }
            j = j + 1;
        }
        if count >= 2 {
            return Err(MediaError::Conflict);
        }
        proof {
            if let Some(f) = first {
                lemma_first_candidate_bounds(expected@, season, acts, actual.len() as int);
            }
        }
        match first {
            None => {
                return Ok(false);
            },
            Some(f) => {
                index = f;
            },
        }
    }
    proof {
        assert(pick(expected@, season, acts) == Some(index as int));
        assert(!ambiguous(expected@, season, acts));
    }
    if consumed[index] {
        assert(marked(before).contains(index as int));
        return Err(MediaError::Conflict);
    }
    consumed.set(index, true);
    proof {
        assert(marked(consumed@) =~= marked(before).insert(index as int));
    }
    Ok(true)
}

// ---------------------------------------------------------------------------
// Conflicts and the matching of a whole season
// ---------------------------------------------------------------------------

/// Two expected episodes that share a number, or a provider id.
pub open spec fn expected_clash(a: ExpectedEpisodeView, b: ExpectedEpisodeView) -> bool {
    a.episode_number == b.episode_number || (expected_key(a) is Some && expected_key(a)
        == expected_key(b))
}

/// Some two expected episodes clash.
pub open spec fn expected_conflict(eps: Seq<ExpectedEpisodeView>) -> bool {
    exists|i: int, j: int| 0 <= i < j < eps.len() && #[trigger] expected_clash(eps[i], eps[j])
}

fn expected_clash_exec(a: &ExpectedEpisode, b: &ExpectedEpisode) -> (r: bool)
    ensures
        r == expected_clash(a@, b@),
{
    if a.episode_number == b.episode_number {
        return true;
    }
    match nonempty_tmdb_id(a.tmdb_id.as_str()) {
        Some(k) => {
            let same = str_eq(k, b.tmdb_id.as_str());
            proof {
                if !same && expected_key(b@) is Some {
                    assert(expected_key(b@) == Some(b.tmdb_id@));
                }
            }
            same
        },
        None => false,
    }
}

fn library_clash_exec(a: &LibraryEpisode, b: &LibraryEpisode) -> (r: bool)
    ensures
        r == library_clash(a@, b@),
{
    match (&a.tmdb_id, &b.tmdb_id) {
        (Some(x), Some(y)) => {
            if nonempty_tmdb_id(x.as_str()).is_none() {
                return false;
            }
            let same = str_eq(x.as_str(), y.as_str());
            proof {
                if same {
                    assert(library_key(b@) == provider_id(y@));
                }
            }
            same
        },
        _ => false,
    }
}

/// Whether two expected episodes clash.
pub fn has_expected_conflict(eps: &Vec<ExpectedEpisode>) -> (r: bool)
    ensures
        r == expected_conflict(eps.deep_view()),
{
    let ghost v = eps.deep_view();
    let mut i: usize = 0;
    while i < eps.len()
        invariant
            i <= eps.len(),
            v == eps.deep_view(),
            forall|a: int, b: int| 0 <= a < i && a < b < v.len() ==> !#[trigger] expected_clash(v[a], v[b]),
        decreases eps.len() - i,
    {
        let mut j: usize = i + 1;
        while j < eps.len()
            invariant
                i < j <= eps.len(),
                i < eps.len(),
                v == eps.deep_view(),
                forall|a: int, b: int| 0 <= a < i && a < b < v.len() ==> !#[trigger] expected_clash(v[a], v[b]),
                forall|b: int| i < b < j ==> !#[trigger] expected_clash(v[i as int], v[b]),
            decreases eps.len() - j,
        {
            assert(v[i as int] == eps@[i as int]@ && v[j as int] == eps@[j as int]@);
            if expected_clash_exec(&eps[i], &eps[j]) {
                assert(expected_clash(v[i as int], v[j as int]));
                return true;
            }
            j = j + 1;
        }
        i = i + 1;
    }
    false
}

/// Whether two library episodes clash.
pub fn has_library_conflict(acts: &Vec<LibraryEpisode>) -> (r: bool)
    ensures
        r == library_conflict(acts.deep_view()),
{
    let ghost v = acts.deep_view();
    let mut i: usize = 0;
    while i < acts.len()
        invariant
            i <= acts.len(),
            v == acts.deep_view(),
            forall|a: int, b: int| 0 <= a < i && a < b < v.len() ==> !#[trigger] library_clash(v[a], v[b]),
        decreases acts.len() - i,
    {
        let mut j: usize = i + 1;
        while j < acts.len()
            invariant
                i < j <= acts.len(),
                i < acts.len(),
                v == acts.deep_view(),
                forall|a: int, b: int| 0 <= a < i && a < b < v.len() ==> !#[trigger] library_clash(v[a], v[b]),
                forall|b: int| i < b < j ==> !#[trigger] library_clash(v[i as int], v[b]),
            decreases acts.len() - j,
        {
            assert(v[i as int] == acts@[i as int]@ && v[j as int] == acts@[j as int]@);
            if library_clash_exec(&acts[i], &acts[j]) {
                assert(library_clash(v[i as int], v[j as int]));
                return true;
            }
            j = j + 1;
        }
        i = i + 1;
    }
    false
}

/// Matches the first `n` expected episodes in order: whether each is present,
/// and the library episodes used up; `None` when a step conflicts.
pub open spec fn match_run(
    eps: Seq<ExpectedEpisodeView>,
    season: u32,
    acts: Seq<LibraryEpisodeView>,
    n: int,
) -> Option<(Seq<bool>, Set<int>)>
    decreases n,
{
    if n <= 0 {
        Some((Seq::empty(), Set::empty()))
    } else {
        match match_run(eps, season, acts, n - 1) {
            None => None,
            Some((flags, consumed)) => match match_step(eps[n - 1], season, acts, consumed) {
                None => None,
                Some((present, after)) => Some((flags.push(present), after)),
            },
        }
    }
}

proof fn lemma_match_run_stays_failed(
    eps: Seq<ExpectedEpisodeView>,
    season: u32,
    acts: Seq<LibraryEpisodeView>,
    n: int,
    m: int,
)
    requires
        n <= m,
        match_run(eps, season, acts, n) is None,
    ensures
        match_run(eps, season, acts, m) is None,
    decreases m - n,
{
    if n < m {
        lemma_match_run_stays_failed(eps, season, acts, n, m - 1);
    }
}

proof fn lemma_match_run_len(
    eps: Seq<ExpectedEpisodeView>,
    season: u32,
    acts: Seq<LibraryEpisodeView>,
    n: int,
)
    requires
        n >= 0,
    ensures
        match_run(eps, season, acts, n) matches Some((flags, _)) ==> flags.len() == n,
    decreases n,
{
    if n > 0 {
        lemma_match_run_len(eps, season, acts, n - 1);
    }
}

/// Matches every expected episode against the library in order.
fn match_all(eps: &Vec<ExpectedEpisode>, season: u32, acts: &Vec<LibraryEpisode>) -> (r: Result<
    Vec<bool>,
    MediaError,
>)
    requires
        !library_conflict(acts.deep_view()),
    ensures
        match match_run(eps.deep_view(), season, acts.deep_view(), eps.len() as int) {
            None => r == Err::<Vec<bool>, MediaError>(MediaError::Conflict),
            Some((flags, _)) => r matches Ok(v) && v@ == flags && flags.len() == eps@.len(),
        },
{
    proof {
        lemma_match_run_len(eps.deep_view(), season, acts.deep_view(), eps@.len() as int);
    }
    let ghost ev = eps.deep_view();
    let ghost av = acts.deep_view();
    let mut consumed: Vec<bool> = Vec::new();
    let mut k: usize = 0;
    while k < acts.len()
        invariant
            k <= acts.len(),
            consumed@.len() == k,
            forall|j: int| 0 <= j < k ==> !#[trigger] consumed@[j],
        decreases acts.len() - k,
    {
        consumed.push(false);
        k = k + 1;
    }
    assert(marked(consumed@) =~= Set::<int>::empty());
    let mut flags: Vec<bool> = Vec::new();
    let mut i: usize = 0;
    while i < eps.len()
        invariant
            i <= eps.len(),
            ev == eps.deep_view(),
            av == acts.deep_view(),
            !library_conflict(av),
            consumed@.len() == acts@.len(),
            match_run(ev, season, av, i as int) matches Some((f, c)) && flags@ == f && marked(consumed@) == c,
        decreases eps.len() - i,
    {
        assert(ev[i as int] == eps@[i as int]@);
        let present = match match_actual_episode(&eps[i], season, acts, &mut consumed) {
            Ok(p) => p,
            Err(e) => {
                proof {
                    lemma_match_run_stays_failed(ev, season, av, i + 1, eps.len() as int);
                }
                return Err(e);
            },
        };
        flags.push(present);
        i = i + 1;
    }
    Ok(flags)
}

// ---------------------------------------------------------------------------
// The episode list and its counts
// ---------------------------------------------------------------------------

/// Aired on or before `as_of`, airing after it, or without a known date.
pub open spec fn release_status_of(air_date: Option<CalendarDate>, as_of: CalendarDate) -> EpisodeReleaseStatus {
    match air_date {
        Some(d) => if date_le(d, as_of) {
            EpisodeReleaseStatus::Aired
        } else {
            EpisodeReleaseStatus::Future
        },
        None => EpisodeReleaseStatus::Unknown,
    }
}

/// The reported form of an expected episode.
pub open spec fn episode_report(e: ExpectedEpisodeView, present: bool, as_of: CalendarDate) -> AvailabilityEpisodeView {
    AvailabilityEpisodeView {
        episode_id: e.tmdb_id,
        episode_number: e.episode_number,
        title: e.title,
        air_date: e.air_date,
        release_status: release_status_of(e.air_date, as_of),
        presence: if present {
            EpisodePresence::Available
        } else {
            EpisodePresence::Missing
        },
    }
}

/// The reported form of every expected episode, in the catalog's order.
pub open spec fn listed(eps: Seq<ExpectedEpisodeView>, flags: Seq<bool>, as_of: CalendarDate) -> Seq<
    AvailabilityEpisodeView,
> {
    Seq::new(eps.len(), |i: int| episode_report(eps[i], flags[i], as_of))
}

/// An episode with the given release status (any, when `None`) and presence
/// (any, when `None`).
pub open spec fn fits(
    e: AvailabilityEpisodeView,
    status: Option<EpisodeReleaseStatus>,
    presence: Option<EpisodePresence>,
) -> bool {
    (status matches Some(st) ==> e.release_status == st) && (presence matches Some(p)
        ==> e.presence == p)
}

/// How many episodes of `s` fit.
pub open spec fn tally(
    s: Seq<AvailabilityEpisodeView>,
    status: Option<EpisodeReleaseStatus>,
    presence: Option<EpisodePresence>,
) -> nat
    decreases s.len(),
{
    if s.len() == 0 {
        0
    } else {
        tally(s.drop_last(), status, presence) + if fits(s.last(), status, presence) {
            1nat
        } else {
            0nat
        }
    }
}

proof fn lemma_tally_take(
    s: Seq<AvailabilityEpisodeView>,
    i: int,
    status: Option<EpisodeReleaseStatus>,
    presence: Option<EpisodePresence>,
)
    requires
        0 <= i < s.len(),
    ensures
        tally(s.take(i + 1), status, presence) == tally(s.take(i), status, presence) + if fits(
            s[i],
            status,
            presence,
        ) {
            1nat
        } else {
            0nat
        },
{
    assert(s.take(i + 1).drop_last() =~= s.take(i));
}

proof fn lemma_tally_narrower(
    s: Seq<AvailabilityEpisodeView>,
    status: Option<EpisodeReleaseStatus>,
    presence: EpisodePresence,
)
    ensures
        tally(s, status, Some(presence)) <= tally(s, status, None) <= s.len(),
    decreases s.len(),
{
    if s.len() > 0 {
        lemma_tally_narrower(s.drop_last(), status, presence);
    }
}

/// The aired summary: aired episodes against those present; an aired episode
/// missing makes it incomplete, else a missing episode of unknown date makes it
/// unknown.
pub open spec fn aired_summary(s: Seq<AvailabilityEpisodeView>) -> CompletenessSummary {
    let expected = tally(s, Some(EpisodeReleaseStatus::Aired), None);
    let available = tally(s, Some(EpisodeReleaseStatus::Aired), Some(EpisodePresence::Available));
    let unknown_missing = tally(s, Some(EpisodeReleaseStatus::Unknown), Some(EpisodePresence::Missing));
    CompletenessSummary {
        status: if expected - available > 0 {
            CompletenessStatus::Incomplete
        } else if unknown_missing > 0 {
            CompletenessStatus::Unknown
        } else {
            CompletenessStatus::Complete
        },
        expected_count: expected as u32,
        available_count: available as u32,
        missing_count: (expected - available) as u32,
    }
}

/// The announced summary: every expected episode against those present.
pub open spec fn announced_summary(s: Seq<AvailabilityEpisodeView>) -> CompletenessSummary {
    let available = tally(s, None, Some(EpisodePresence::Available));
    CompletenessSummary {
        status: if s.len() - available > 0 {
            CompletenessStatus::Incomplete
        } else {
            CompletenessStatus::Complete
        },
        expected_count: s.len() as u32,
        available_count: available as u32,
        missing_count: (s.len() - available) as u32,
    }
}

/// `a` airs before `b`: by air date, an unknown date first, then by number.
pub open spec fn airs_before(a: AvailabilityEpisodeView, b: AvailabilityEpisodeView) -> bool {
    match (a.air_date, b.air_date) {
        (Some(x), Some(y)) => date_lt(x, y) || (x == y && a.episode_number < b.episode_number),
        (None, Some(_)) => true,
        (Some(_), None) => false,
        (None, None) => a.episode_number < b.episode_number,
    }
}

/// `next` is the future episode of `s` that airs first, or `None` when `s` has
/// no future episode.
pub open spec fn next_airing_of(s: Seq<AvailabilityEpisodeView>, next: Option<AvailabilityEpisodeView>) -> bool {
    match next {
        None => forall|i: int| 0 <= i < s.len() ==> (#[trigger] s[i]).release_status != EpisodeReleaseStatus::Future,
        Some(n) => exists|i: int|
            0 <= i < s.len() && #[trigger] s[i] == n && n.release_status == EpisodeReleaseStatus::Future
                && forall|j: int|
                0 <= j < s.len() && (#[trigger] s[j]).release_status == EpisodeReleaseStatus::Future
                    ==> !airs_before(s[j], n),
    }
}

/// `x` is one of the episodes of `s`.
pub open spec fn occurs_in(x: AvailabilityEpisodeView, s: Seq<AvailabilityEpisodeView>) -> bool {
    exists|m: int| 0 <= m < s.len() && s[m] == x
}

/// `out` holds the episodes of `s`, each once, in increasing number.
pub open spec fn number_order(s: Seq<AvailabilityEpisodeView>, out: Seq<AvailabilityEpisodeView>) -> bool {
    &&& out.len() == s.len()
    &&& forall|a: int, b: int| 0 <= a < b < out.len() ==> (#[trigger] out[a]).episode_number < (#[trigger] out[b]).episode_number
    &&& forall|k: int| 0 <= k < s.len() ==> #[trigger] occurs_in(s[k], out)
    &&& forall|m: int| 0 <= m < out.len() ==> #[trigger] occurs_in(out[m], s)
}

/// The release status of an episode as of a day.
pub fn release_status(air_date: Option<CalendarDate>, as_of: CalendarDate) -> (r: EpisodeReleaseStatus)
    ensures
        r == release_status_of(air_date, as_of),
{
    match air_date {
        Some(d) => if date_le_exec(d, as_of) {
            EpisodeReleaseStatus::Aired
        } else {
            EpisodeReleaseStatus::Future
        },
        None => EpisodeReleaseStatus::Unknown,
    }
}

/// The reported form of every expected episode.
fn list_episodes(eps: &Vec<ExpectedEpisode>, flags: &Vec<bool>, as_of: CalendarDate) -> (r: Vec<
    AvailabilityEpisode,
>)
    requires
        flags@.len() == eps@.len(),
    ensures
        r.deep_view() == listed(eps.deep_view(), flags@, as_of),
{
    let ghost target = listed(eps.deep_view(), flags@, as_of);
    let mut out: Vec<AvailabilityEpisode> = Vec::new();
    let mut i: usize = 0;
    while i < eps.len()
        invariant
            i <= eps.len(),
            flags@.len() == eps@.len(),
            target == listed(eps.deep_view(), flags@, as_of),
            out@.len() == i,
            forall|k: int| 0 <= k < i ==> #[trigger] out@[k]@ == target[k],
        decreases eps.len() - i,
    {
        let e = &eps[i];
        assert(eps.deep_view()[i as int] == e@);
        out.push(
            AvailabilityEpisode {
                episode_id: e.tmdb_id.clone(),
                episode_number: e.episode_number,
                title: e.title.clone(),
                air_date: e.air_date,
                release_status: release_status(e.air_date, as_of),
                presence: if flags[i] {
                    EpisodePresence::Available
                } else {
                    EpisodePresence::Missing
                },
            },
        );
        i = i + 1;
    }
    assert(out.deep_view() =~= target);
    out
}

fn airs_before_exec(a: &AvailabilityEpisode, b: &AvailabilityEpisode) -> (r: bool)
    ensures
        r == airs_before(a@, b@),
{
    match (a.air_date, b.air_date) {
        (Some(x), Some(y)) => {
            let same = x.year == y.year && x.month == y.month && x.day == y.day;
            (date_le_exec(x, y) && !same) || (same && a.episode_number < b.episode_number)
        },
        (None, Some(_)) => true,
        (Some(_), None) => false,
        (None, None) => a.episode_number < b.episode_number,
    }
}

proof fn lemma_airs_before_transitive(
    a: AvailabilityEpisodeView,
    b: AvailabilityEpisodeView,
    c: AvailabilityEpisodeView,
)
    requires
        airs_before(a, b),
        airs_before(b, c),
    ensures
        airs_before(a, c),
{
}

/// The future episode that airs first.
pub fn next_airing(list: &Vec<AvailabilityEpisode>) -> (r: Option<AvailabilityEpisode>)
    ensures
        next_airing_of(
            list.deep_view(),
            match r {
                Some(e) => Some(e@),
                None => None,
            },
        ),
{
    let ghost s = list.deep_view();
    let mut best: Option<usize> = None;
    let mut i: usize = 0;
    while i < list.len()
        invariant
            i <= list.len(),
            s == list.deep_view(),
            match best {
                None => forall|k: int| 0 <= k < i ==> (#[trigger] s[k]).release_status != EpisodeReleaseStatus::Future,
                Some(b) => b < i && s[b as int].release_status == EpisodeReleaseStatus::Future
                    && forall|k: int|
                    0 <= k < i && (#[trigger] s[k]).release_status == EpisodeReleaseStatus::Future
                        ==> !airs_before(s[k], s[b as int]),
            },
        decreases list.len() - i,
    {
        assert(s[i as int] == list@[i as int]@);
        if list[i].release_status == EpisodeReleaseStatus::Future {
            match best {
                None => {
                    best = Some(i);
                },
                Some(b) => {
                    assert(s[b as int] == list@[b as int]@);
                    if airs_before_exec(&list[i], &list[b]) {
                        proof {
                            assert forall|k: int|
                                0 <= k < i + 1 && (#[trigger] s[k]).release_status
                                    == EpisodeReleaseStatus::Future implies !airs_before(
                                s[k],
                                s[i as int],
                            ) by {
                                if k < i && airs_before(s[k], s[i as int]) {
                                    lemma_airs_before_transitive(s[k], s[i as int], s[b as int]);
                                }
                            }
                        }
                        best = Some(i);
                    }
                },
            }
        }
        i = i + 1;
    }
    match best {
        None => None,
        Some(b) => {
            let e = list[b].duplicate();
            assert(s[b as int] == e@);
            Some(e)
        },
    }
}

#[verifier::opaque]
spec fn increasing(o: Seq<AvailabilityEpisode>) -> bool {
    forall|a: int, b: int|
        0 <= a < b < o.len() ==> (#[trigger] o[a]).episode_number < (#[trigger] o[b]).episode_number
}

/// `o` holds exactly the first `n` episodes of `s`: episode `k` sits at
/// `pos[k]`, and the episode at `m` is episode `src[m]`.
spec fn placed(
    o: Seq<AvailabilityEpisode>,
    s: Seq<AvailabilityEpisodeView>,
    pos: Seq<int>,
    src: Seq<int>,
    n: int,
) -> bool {
    &&& pos.len() == n
    &&& src.len() == o.len()
    &&& forall|k: int| 0 <= k < n ==> 0 <= #[trigger] pos[k] < o.len() && o[pos[k]]@ == s[k]
    &&& forall|m: int| 0 <= m < o.len() ==> 0 <= #[trigger] src[m] < n && o[m]@ == s[src[m]]
}

spec fn shifted(pos: Seq<int>, p: int) -> Seq<int> {
    Seq::new(pos.len() + 1, |k: int| if k == pos.len() { p } else if pos[k] >= p { pos[k] + 1 } else { pos[k] })
}

proof fn lemma_insert_keeps_increasing(o: Seq<AvailabilityEpisode>, p: int, x: AvailabilityEpisode)
    requires
        0 <= p <= o.len(),
        increasing(o),
        forall|q: int| 0 <= q < p ==> (#[trigger] o[q]).episode_number < x.episode_number,
        p < o.len() ==> o[p].episode_number > x.episode_number,
    ensures
        increasing(o.insert(p, x)),
{
    reveal(increasing);
    o.insert_ensures(p, x);
    let n = o.insert(p, x);
    assert forall|a: int, b: int|
        0 <= a < b < n.len() implies (#[trigger] n[a]).episode_number < (#[trigger] n[b]).episode_number by {
        if b > p {
            assert(n[b] == o[b - 1]);
            if b - 1 > p {
                assert(o[p].episode_number < o[b - 1].episode_number);
            }
            if a > p {
                assert(n[a] == o[a - 1]);
            }
        }
    }
}

proof fn lemma_insert_keeps_placed(
    o: Seq<AvailabilityEpisode>,
    p: int,
    x: AvailabilityEpisode,
    s: Seq<AvailabilityEpisodeView>,
    pos: Seq<int>,
    src: Seq<int>,
    i: int,
)
    requires
        0 <= p <= o.len(),
        0 <= i < s.len(),
        x@ == s[i],
        placed(o, s, pos, src, i),
    ensures
        placed(o.insert(p, x), s, shifted(pos, p), src.insert(p, i), i + 1),
{
    o.insert_ensures(p, x);
    src.insert_ensures(p, i);
    let n = o.insert(p, x);
    let np = shifted(pos, p);
    let ns = src.insert(p, i);
    assert forall|k: int| 0 <= k < i + 1 implies 0 <= #[trigger] np[k] < n.len() && n[np[k]]@ == s[k] by {
        if k < i {
            if pos[k] >= p {
                assert(n[pos[k] + 1] == o[pos[k]]);
            }
        }
    }
    assert forall|m: int| 0 <= m < n.len() implies 0 <= #[trigger] ns[m] < i + 1 && n[m]@ == s[ns[m]] by {
        if m > p {
            assert(n[m] == o[m - 1]);
            assert(ns[m] == src[m - 1]);
        }
    }
}

proof fn lemma_number_order_of(
    o: Seq<AvailabilityEpisode>,
    out: Seq<AvailabilityEpisodeView>,
    s: Seq<AvailabilityEpisodeView>,
    pos: Seq<int>,
    src: Seq<int>,
)
    requires
        increasing(o),
        placed(o, s, pos, src, s.len() as int),
        o.len() == s.len(),
        out.len() == o.len(),
        forall|m: int| 0 <= m < o.len() ==> #[trigger] out[m] == o[m]@,
    ensures
        number_order(s, out),
{
    reveal(increasing);
    assert forall|a: int, b: int| 0 <= a < b < out.len() implies (#[trigger] out[a]).episode_number < (#[trigger] out[b]).episode_number by {
        assert(out[a] == o[a]@ && out[b] == o[b]@);
    }
    assert forall|k: int| 0 <= k < s.len() implies #[trigger] occurs_in(s[k], out) by {
        assert(out[pos[k]] == s[k]);
    }
    assert forall|m: int| 0 <= m < out.len() implies #[trigger] occurs_in(out[m], s) by {
        assert(out[m] == s[src[m]]);
    }
}

/// The episodes ordered by number; no two share a number.
fn sort_by_number(list: &Vec<AvailabilityEpisode>) -> (r: Vec<AvailabilityEpisode>)
    requires
        forall|a: int, b: int|
            0 <= a < b < list@.len() ==> (#[trigger] list@[a]).episode_number != (#[trigger] list@[b]).episode_number,
    ensures
        number_order(list.deep_view(), r.deep_view()),
{
    let ghost s = list.deep_view();
    let ghost mut pos: Seq<int> = Seq::empty();
    let ghost mut src: Seq<int> = Seq::empty();
    let mut out: Vec<AvailabilityEpisode> = Vec::new();
    proof {
        reveal(increasing);
    }
    let mut i: usize = 0;
    while i < list.len()
        invariant
            i <= list.len(),
            s == list.deep_view(),
            forall|a: int, b: int|
                0 <= a < b < list@.len() ==> (#[trigger] list@[a]).episode_number != (#[trigger] list@[b]).episode_number,
            out@.len() == i,
            increasing(out@),
            placed(out@, s, pos, src, i as int),
        decreases list.len() - i,
    {
        let x = list[i].duplicate();
        assert(s[i as int] == x@);
        let mut p: usize = 0;
        while p < out.len() && out[p].episode_number < x.episode_number
            invariant
                p <= out@.len(),
                forall|q: int| 0 <= q < p ==> (#[trigger] out@[q]).episode_number < x.episode_number,
            decreases out@.len() - p,
        {
            p = p + 1;
        }
        proof {
            if p < out@.len() {
                let k = src[p as int];
                assert(s[k] == list@[k]@);
                assert(list@[k].episode_number != list@[i as int].episode_number);
            }
            lemma_insert_keeps_increasing(out@, p as int, x);
            lemma_insert_keeps_placed(out@, p as int, x, s, pos, src, i as int);
            pos = shifted(pos, p as int);
            src = src.insert(p as int, i as int);
        }
        out.insert(p, x);
        i = i + 1;
    }
    proof {
        lemma_number_order_of(out@, out.deep_view(), s, pos, src);
    }
    out
}

// ---------------------------------------------------------------------------
// The season comparison
// ---------------------------------------------------------------------------

pub struct ExpectedSeasonView {
    pub media_id: Seq<char>,
    pub title: Seq<char>,
    pub season: u32,
    pub episodes: Seq<ExpectedEpisodeView>,
}

impl View for ExpectedSeason {
    type V = ExpectedSeasonView;

    open spec fn view(&self) -> ExpectedSeasonView {
        ExpectedSeasonView {
            media_id: self.media_id@,
            title: self.title@,
            season: self.season,
            episodes: self.episodes.deep_view(),
        }
    }
}

pub struct LibrarySeasonView {
    pub series_id: Seq<char>,
    pub episodes: Seq<LibraryEpisodeView>,
}

impl View for LibrarySeason {
    type V = LibrarySeasonView;

    open spec fn view(&self) -> LibrarySeasonView {
        LibrarySeasonView { series_id: self.series_id@, episodes: self.episodes.deep_view() }
    }
}

pub open spec fn library_view(actual: Option<LibrarySeason>) -> Option<LibrarySeasonView> {
    match actual {
        Some(lib) => Some(lib@),
        None => None,
    }
}

/// Whether each expected episode is present; `None` when the library
/// conflicts or the matching does. A series absent from the library has
/// nothing present.
pub open spec fn presence_flags(exp: ExpectedSeasonView, act: Option<LibrarySeasonView>) -> Option<
    Seq<bool>,
> {
    match act {
        None => Some(Seq::new(exp.episodes.len(), |i: int| false)),
        Some(lib) => if library_conflict(lib.episodes) {
            None
        } else {
            match match_run(exp.episodes, exp.season, lib.episodes, exp.episodes.len() as int) {
                Some((flags, _)) => Some(flags),
                None => None,
            }
        },
    }
}

/// The catalog or the library contradicts itself, or the two cannot be matched
/// one to one.
pub open spec fn season_conflict(exp: ExpectedSeasonView, act: Option<LibrarySeasonView>) -> bool {
    expected_conflict(exp.episodes) || presence_flags(exp, act) is None
}

/// The episodes of the season as reported.
pub open spec fn season_episodes(
    exp: ExpectedSeasonView,
    act: Option<LibrarySeasonView>,
    as_of: CalendarDate,
) -> Seq<AvailabilityEpisodeView> {
    listed(exp.episodes, presence_flags(exp, act).unwrap(), as_of)
}

/// `sa` reports the season `exp` against the library's copy `act` as of `as_of`.
pub open spec fn season_report(
    sa: SeasonAvailability,
    exp: ExpectedSeasonView,
    act: Option<LibrarySeasonView>,
    as_of: CalendarDate,
) -> bool {
    let s = season_episodes(exp, act, as_of);
    &&& sa.series.media_id@ == exp.media_id
    &&& sa.series.title@ == exp.title
    &&& match act {
        None => sa.series.jellyfin_id is None && sa.episodes is None,
        Some(lib) => {
            &&& sa.series.jellyfin_id matches Some(id) && id@ == lib.series_id
            &&& sa.episodes matches Some(v) && number_order(s, v.deep_view())
        },
    }
    &&& sa.season == exp.season
    &&& sa.as_of == as_of
    &&& sa.in_library == act is Some
    &&& sa.aired == aired_summary(s)
    &&& sa.announced == announced_summary(s)
    &&& sa.unknown_air_date_count == tally(s, Some(EpisodeReleaseStatus::Unknown), None) as u32
    &&& next_airing_of(
        s,
        match sa.next_airing {
            Some(e) => Some(e@),
            None => None,
        },
    )
}

fn none_present(n: usize) -> (r: Vec<bool>)
    ensures
        r@ == Seq::new(n as nat, |i: int| false),
{
    let mut v: Vec<bool> = Vec::new();
    let mut i: usize = 0;
    while i < n
        invariant
            i <= n,
            v@.len() == i,
            forall|k: int| 0 <= k < i ==> !#[trigger] v@[k],
        decreases n - i,
    {
        v.push(false);
        i = i + 1;
    }
    assert(v@ =~= Seq::new(n as nat, |i: int| false));
    v
}

/// Compares a season as the catalog announces it with the library's copy of
/// the series (`None` when the library does not hold it), as of a day.
pub fn compare_season_availability(
    expected: ExpectedSeason,
    actual: Option<LibrarySeason>,
    as_of: CalendarDate,
) -> (r: Result<SeasonAvailability, MediaError>)
    ensures
        season_conflict(expected@, library_view(actual)) ==> r == Err::<
            SeasonAvailability,
            MediaError,
        >(MediaError::Conflict),
        !season_conflict(expected@, library_view(actual)) && expected@.episodes.len() > u32::MAX
            ==> r == Err::<SeasonAvailability, MediaError>(MediaError::Internal),
        !season_conflict(expected@, library_view(actual)) && expected@.episodes.len() <= u32::MAX
            ==> (r matches Ok(sa) && season_report(sa, expected@, library_view(actual), as_of)),
{
    let ghost exp = expected@;
    let ghost act = library_view(actual);
    if has_expected_conflict(&expected.episodes) {
        return Err(MediaError::Conflict);
    }
    let flags = match &actual {
        Some(lib) => {
            if has_library_conflict(&lib.episodes) {
                return Err(MediaError::Conflict);
            }
            match match_all(&expected.episodes, expected.season, &lib.episodes) {
                Ok(f) => f,
                Err(e) => {
                    return Err(e);
                },
            }
        },
        None => none_present(expected.episodes.len()),
    };
    assert(presence_flags(exp, act) == Some(flags@));
    let list = list_episodes(&expected.episodes, &flags, as_of);
    let ghost s = list.deep_view();
    assert(s == season_episodes(exp, act, as_of));

    let mut aired_expected: usize = 0;
    let mut aired_available: usize = 0;
    let mut unknown_count: usize = 0;
    let mut unknown_missing: usize = 0;
    let mut announced_available: usize = 0;
    let mut i: usize = 0;
    while i < list.len()
        invariant
            i <= list.len(),
            s == list.deep_view(),
            aired_expected == tally(s.take(i as int), Some(EpisodeReleaseStatus::Aired), None),
            aired_available == tally(
                s.take(i as int),
                Some(EpisodeReleaseStatus::Aired),
                Some(EpisodePresence::Available),
            ),
            unknown_count == tally(s.take(i as int), Some(EpisodeReleaseStatus::Unknown), None),
            unknown_missing == tally(
                s.take(i as int),
                Some(EpisodeReleaseStatus::Unknown),
                Some(EpisodePresence::Missing),
            ),
            announced_available == tally(s.take(i as int), None, Some(EpisodePresence::Available)),
            aired_expected <= i,
            aired_available <= i,
            unknown_count <= i,
            unknown_missing <= i,
            announced_available <= i,
        decreases list.len() - i,
    {
        let e = &list[i];
        assert(s[i as int] == e@);
        proof {
            lemma_tally_take(s, i as int, Some(EpisodeReleaseStatus::Aired), None);
            lemma_tally_take(s, i as int, Some(EpisodeReleaseStatus::Aired), Some(EpisodePresence::Available));
            lemma_tally_take(s, i as int, Some(EpisodeReleaseStatus::Unknown), None);
            lemma_tally_take(s, i as int, Some(EpisodeReleaseStatus::Unknown), Some(EpisodePresence::Missing));
            lemma_tally_take(s, i as int, None, Some(EpisodePresence::Available));
        }
        let present = e.presence == EpisodePresence::Available;
        if present {
            announced_available = announced_available + 1;
        }
        match e.release_status {
            EpisodeReleaseStatus::Aired => {
                aired_expected = aired_expected + 1;
                if present {
                    aired_available = aired_available + 1;
                }
            },
            EpisodeReleaseStatus::Future => {},
            EpisodeReleaseStatus::Unknown => {
                unknown_count = unknown_count + 1;
                if !present {
                    unknown_missing = unknown_missing + 1;
                }
            },
        }
        i = i + 1;
    }
    assert(s.take(list.len() as int) =~= s);
    proof {
        lemma_tally_narrower(s, Some(EpisodeReleaseStatus::Aired), EpisodePresence::Available);
        lemma_tally_narrower(s, None, EpisodePresence::Available);
        lemma_tally_narrower(s, Some(EpisodeReleaseStatus::Unknown), EpisodePresence::Missing);
    }
    let aired_status = if aired_expected - aired_available > 0 {
        CompletenessStatus::Incomplete
    } else if unknown_missing > 0 {
        CompletenessStatus::Unknown
    } else {
        CompletenessStatus::Complete
    };
    let announced_expected = list.len();
    let announced_status = if announced_expected - announced_available > 0 {
        CompletenessStatus::Incomplete
    } else {
        CompletenessStatus::Complete
    };
    let aired = summary(aired_status, aired_expected, aired_available)?;
    let announced = summary(announced_status, announced_expected, announced_available)?;
    let unknown_air_date_count = checked_count(unknown_count)?;
    let next = next_airing(&list);
    let (jellyfin_id, episodes) = match &actual {
        Some(lib) => {
            proof {
                assert forall|a: int, b: int| 0 <= a < b < list@.len() implies (#[trigger] list@[a]).episode_number
                    != (#[trigger] list@[b]).episode_number by {
                    assert(s[a] == list@[a]@ && s[b] == list@[b]@);
                    assert(!expected_clash(exp.episodes[a], exp.episodes[b]));
                }
            }
            (Some(lib.series_id.clone()), Some(sort_by_number(&list)))
        },
        None => (None, None),
    };
    Ok(SeasonAvailability {
        series: AvailabilitySeries { media_id: expected.media_id, jellyfin_id, title: expected.title },
        season: expected.season,
        as_of,
        in_library: actual.is_some(),
        aired,
        announced,
        unknown_air_date_count,
        next_airing: next,
        episodes,
    })
}

// ---------------------------------------------------------------------------
// Laws of the comparison
// ---------------------------------------------------------------------------

proof fn lemma_tally_zero(
    s: Seq<AvailabilityEpisodeView>,
    status: Option<EpisodeReleaseStatus>,
    presence: Option<EpisodePresence>,
)
    ensures
        (tally(s, status, presence) == 0) <==> (forall|i: int|
            0 <= i < s.len() ==> !fits(#[trigger] s[i], status, presence)),
    decreases s.len(),
{
    if s.len() > 0 {
        let t = s.drop_last();
        lemma_tally_zero(t, status, presence);
        assert forall|i: int| 0 <= i < t.len() implies #[trigger] t[i] == s[i] by {}
        if tally(s, status, presence) == 0 {
            assert forall|i: int| 0 <= i < s.len() implies !fits(#[trigger] s[i], status, presence) by {
                if i < t.len() {
                    assert(t[i] == s[i]);
                }
            }
        } else if forall|i: int| 0 <= i < s.len() ==> !fits(#[trigger] s[i], status, presence) {
            assert forall|i: int| 0 <= i < t.len() implies !fits(#[trigger] t[i], status, presence) by {
                assert(t[i] == s[i]);
            }
            assert(!fits(s[s.len() - 1], status, presence));
        }
    }
}

proof fn lemma_tally_split(s: Seq<AvailabilityEpisodeView>, status: Option<EpisodeReleaseStatus>)
    ensures
        tally(s, status, None) == tally(s, status, Some(EpisodePresence::Available)) + tally(
            s,
            status,
            Some(EpisodePresence::Missing),
        ),
    decreases s.len(),
{
    if s.len() > 0 {
        lemma_tally_split(s.drop_last(), status);
    }
}

/// The counts of a summary balance: what is missing and what is present make
/// up what is expected, and every announced episode is counted.
pub proof fn law_summary_counts_balance(s: Seq<AvailabilityEpisodeView>)
    requires
        s.len() <= u32::MAX,
    ensures
        aired_summary(s).missing_count + aired_summary(s).available_count == aired_summary(s).expected_count,
        announced_summary(s).expected_count == s.len(),
        announced_summary(s).missing_count + announced_summary(s).available_count == announced_summary(s).expected_count,
        aired_summary(s).expected_count + tally(s, Some(EpisodeReleaseStatus::Future), None) + tally(
            s,
            Some(EpisodeReleaseStatus::Unknown),
            None,
        ) == s.len(),
{
    lemma_tally_narrower(s, Some(EpisodeReleaseStatus::Aired), EpisodePresence::Available);
    lemma_tally_narrower(s, None, EpisodePresence::Available);
    lemma_tally_statuses(s);
}

proof fn lemma_tally_statuses(s: Seq<AvailabilityEpisodeView>)
    ensures
        tally(s, Some(EpisodeReleaseStatus::Aired), None) + tally(s, Some(EpisodeReleaseStatus::Future), None)
            + tally(s, Some(EpisodeReleaseStatus::Unknown), None) == s.len(),
    decreases s.len(),
{
    if s.len() > 0 {
        lemma_tally_statuses(s.drop_last());
    }
}

/// The aired summary is complete exactly when every episode that has aired, or
/// whose date is unknown, is present; it is incomplete exactly when an aired
/// episode is missing.
pub proof fn law_aired_status(s: Seq<AvailabilityEpisodeView>)
    ensures
        (aired_summary(s).status == CompletenessStatus::Complete) <==> (forall|i: int|
            0 <= i < s.len() && (#[trigger] s[i]).release_status != EpisodeReleaseStatus::Future
                ==> s[i].presence == EpisodePresence::Available),
        (aired_summary(s).status == CompletenessStatus::Incomplete) <==> (exists|i: int|
            0 <= i < s.len() && (#[trigger] s[i]).release_status == EpisodeReleaseStatus::Aired
                && s[i].presence == EpisodePresence::Missing),
{
    let aired = Some(EpisodeReleaseStatus::Aired);
    let unknown = Some(EpisodeReleaseStatus::Unknown);
    let missing = Some(EpisodePresence::Missing);
    lemma_tally_split(s, aired);
    lemma_tally_zero(s, aired, missing);
    lemma_tally_zero(s, unknown, missing);
    if aired_summary(s).status == CompletenessStatus::Complete {
        assert forall|i: int|
            0 <= i < s.len() && (#[trigger] s[i]).release_status != EpisodeReleaseStatus::Future
                implies s[i].presence == EpisodePresence::Available by {
            assert(!fits(s[i], aired, missing));
            assert(!fits(s[i], unknown, missing));
        }
    }
    if exists|i: int|
        0 <= i < s.len() && (#[trigger] s[i]).release_status == EpisodeReleaseStatus::Aired
            && s[i].presence == EpisodePresence::Missing {
        let i = choose|i: int|
            0 <= i < s.len() && (#[trigger] s[i]).release_status == EpisodeReleaseStatus::Aired
                && s[i].presence == EpisodePresence::Missing;
        assert(fits(s[i], aired, missing));
    }
}

/// The announced summary is complete exactly when every episode is present.
pub proof fn law_announced_status(s: Seq<AvailabilityEpisodeView>)
    ensures
        (announced_summary(s).status == CompletenessStatus::Complete) <==> (forall|i: int|
            0 <= i < s.len() ==> (#[trigger] s[i]).presence == EpisodePresence::Available),
{
    lemma_tally_split(s, None);
    lemma_tally_narrower(s, None, EpisodePresence::Available);
    lemma_tally_zero(s, None, Some(EpisodePresence::Missing));
    lemma_tally_all(s);
    if announced_summary(s).status == CompletenessStatus::Complete {
        assert forall|i: int| 0 <= i < s.len() implies (#[trigger] s[i]).presence == EpisodePresence::Available by {
            assert(!fits(s[i], None, Some(EpisodePresence::Missing)));
        }
    }
    if forall|i: int| 0 <= i < s.len() ==> (#[trigger] s[i]).presence == EpisodePresence::Available {
        assert forall|i: int| 0 <= i < s.len() implies !fits(#[trigger] s[i], None, Some(EpisodePresence::Missing)) by {
            assert(s[i].presence == EpisodePresence::Available);
        }
    }
}

proof fn lemma_tally_all(s: Seq<AvailabilityEpisodeView>)
    ensures
        tally(s, None, None) == s.len(),
    decreases s.len(),
{
    if s.len() > 0 {
        lemma_tally_all(s.drop_last());
    }
}

/// A series that the library does not hold has no episode present, and no
/// conflict but within the catalog's own episodes.
pub proof fn law_absent_series_has_nothing_present(exp: ExpectedSeasonView, as_of: CalendarDate)
    ensures
        season_conflict(exp, None) == expected_conflict(exp.episodes),
        tally(season_episodes(exp, None, as_of), None, Some(EpisodePresence::Available)) == 0,
{
    let s = season_episodes(exp, None, as_of);
    lemma_tally_zero(s, None, Some(EpisodePresence::Available));
    assert forall|i: int| 0 <= i < s.len() implies !fits(#[trigger] s[i], None, Some(EpisodePresence::Available)) by {}
}

/// How many of the first `n` flags are set.
spec fn count_set(flags: Seq<bool>, n: int) -> nat
    decreases n,
{
    if n <= 0 {
        0
    } else {
        count_set(flags, n - 1) + if flags[n - 1] {
            1nat
        } else {
            0nat
        }
    }
}

proof fn lemma_pick_in_range(e: ExpectedEpisodeView, season: u32, acts: Seq<LibraryEpisodeView>)
    ensures
        pick(e, season, acts) matches Some(j) ==> 0 <= j < acts.len(),
{
    lemma_first_candidate_bounds(e, season, acts, acts.len() as int);
}

proof fn lemma_match_run_consumes(
    eps: Seq<ExpectedEpisodeView>,
    season: u32,
    acts: Seq<LibraryEpisodeView>,
    n: int,
)
    requires
        0 <= n <= eps.len(),
    ensures
        match_run(eps, season, acts, n) matches Some((flags, consumed)) ==> {
            &&& consumed.finite()
            &&& consumed.len() == count_set(flags, n)
            &&& flags.len() == n
            &&& consumed.subset_of(set_int_range(0, acts.len() as int))
        },
    decreases n,
{
    if n > 0 {
        lemma_match_run_consumes(eps, season, acts, n - 1);
        lemma_pick_in_range(eps[n - 1], season, acts);
        if let Some((flags, consumed)) = match_run(eps, season, acts, n - 1) {
            if let Some((present, after)) = match_step(eps[n - 1], season, acts, consumed) {
                let f2 = flags.push(present);
                assert(count_set(f2, n - 1) == count_set(flags, n - 1)) by {
                    lemma_count_set_prefix(flags, f2, n - 1);
                }
                if present {
                    vstd::set::axiom_set_insert_finite(consumed, pick(eps[n - 1], season, acts).unwrap());
                    vstd::set::axiom_set_insert_len(consumed, pick(eps[n - 1], season, acts).unwrap());
                }
            }
        }
    }
}

proof fn lemma_count_set_prefix(a: Seq<bool>, b: Seq<bool>, n: int)
    requires
        0 <= n <= a.len(),
        n <= b.len(),
        forall|i: int| 0 <= i < n ==> a[i] == b[i],
    ensures
        count_set(a, n) == count_set(b, n),
    decreases n,
{
    if n > 0 {
        lemma_count_set_prefix(a, b, n - 1);
    }
}

proof fn lemma_present_tally(eps: Seq<ExpectedEpisodeView>, flags: Seq<bool>, as_of: CalendarDate, n: int)
    requires
        0 <= n <= eps.len(),
        flags.len() == eps.len(),
    ensures
        tally(listed(eps, flags, as_of).take(n), None, Some(EpisodePresence::Available)) == count_set(flags, n),
    decreases n,
{
    if n > 0 {
        lemma_present_tally(eps, flags, as_of, n - 1);
        let s = listed(eps, flags, as_of);
        assert(s.take(n).drop_last() =~= s.take(n - 1));
    }
}

/// One library episode never stands for two expected episodes: no more
/// episodes are present than the library holds.
pub proof fn law_library_episode_counts_once(
    exp: ExpectedSeasonView,
    lib: LibrarySeasonView,
    as_of: CalendarDate,
)
    requires
        !season_conflict(exp, Some(lib)),
    ensures
        tally(season_episodes(exp, Some(lib), as_of), None, Some(EpisodePresence::Available))
            <= lib.episodes.len(),
{
    let n = exp.episodes.len() as int;
    lemma_match_run_consumes(exp.episodes, exp.season, lib.episodes, n);
    let (flags, consumed) = match_run(exp.episodes, exp.season, lib.episodes, n).unwrap();
    lemma_present_tally(exp.episodes, flags, as_of, n);
    let s = season_episodes(exp, Some(lib), as_of);
    assert(s.take(n) =~= s);
    vstd::set_lib::lemma_int_range(0, lib.episodes.len() as int);
    vstd::set_lib::lemma_len_subset(consumed, set_int_range(0, lib.episodes.len() as int));
}

/// Every reported episode keeps the catalog's air date, and its release
/// status follows the calendar: with an air date it has aired exactly when
/// that day is on or before `as_of` (an earlier year; the same year and an
/// earlier month; or the same year and month and a day no later), and is
/// otherwise still to air; without one its status is unknown.
pub proof fn law_release_status_follows_the_calendar(
    exp: ExpectedSeasonView,
    act: Option<LibrarySeasonView>,
    as_of: CalendarDate,
)
    ensures
        season_episodes(exp, act, as_of).len() == exp.episodes.len(),
        forall|k: int|
            #![trigger season_episodes(exp, act, as_of)[k]]
            0 <= k < exp.episodes.len() ==> {
                let e = season_episodes(exp, act, as_of)[k];
                &&& e.air_date == exp.episodes[k].air_date
                &&& e.air_date is None ==> e.release_status == EpisodeReleaseStatus::Unknown
                &&& e.air_date matches Some(d) ==> {
                    &&& (e.release_status == EpisodeReleaseStatus::Aired) <==> (d.year < as_of.year
                        || (d.year == as_of.year && d.month < as_of.month) || (d.year == as_of.year
                        && d.month == as_of.month && d.day <= as_of.day))
                    &&& (e.release_status == EpisodeReleaseStatus::Future) <==> !(
                    e.release_status == EpisodeReleaseStatus::Aired)
                }
            },
{
}

/// Episodes air in calendar order: of two dated episodes the one with the
/// earlier day (an earlier year; the same year and an earlier month; or the
/// same year and month and an earlier day) airs first, and on the same day the
/// lower episode number does; an episode of unknown date comes before every
/// dated one; and no episode airs before itself.
pub proof fn law_airing_order_follows_the_calendar(a: AvailabilityEpisodeView, b: AvailabilityEpisodeView)
    ensures
        match (a.air_date, b.air_date) {
            (Some(x), Some(y)) => airs_before(a, b) <==> (x.year < y.year || (x.year == y.year
                && x.month < y.month) || (x.year == y.year && x.month == y.month && x.day < y.day) || (
            x == y && a.episode_number < b.episode_number)),
            _ => true,
        },
        (a.air_date is None && b.air_date is Some) ==> airs_before(a, b) && !airs_before(b, a),
        !airs_before(a, a),
{
}

} // verus!
