//! The versioned media API's request and response types.
use crate::text::{decimal, padded_decimal, u64_to_decimal, u64_to_padded_decimal};
use vstd::prelude::*;

verus! {

pub const API_MAJOR: u16 = 1;

pub const API_MINOR: u16 = 1;

#[derive(Clone, Copy, Debug, PartialEq, Eq, Structural)]
pub struct ApiVersion {
    pub major: u16,
    pub minor: u16,
}

#[derive(Clone, Debug, PartialEq, Eq)]
pub struct Capabilities {
    pub api: ApiVersion,
    pub compatible_cli_major: u16,
    pub operations: Vec<String>,
}

#[derive(Clone, Copy, Debug, PartialEq, Eq, Structural)]
pub enum MediaType {
    Movie,
    Tv,
}

#[derive(Clone, Debug, PartialEq, Eq)]
pub struct SearchMediaQuery {
    pub query: String,
}

#[derive(Clone, Copy, Debug, PartialEq, Eq, Structural)]
pub struct ItemDetailsQuery {
    pub media_type: MediaType,
}

#[derive(Clone, Copy, Debug, PartialEq, Eq, Structural)]
pub struct CreateMediaRequest {
    pub media_id: i64,
    pub media_type: MediaType,
}

#[derive(Clone, Debug, Default, PartialEq, Eq)]
pub struct ListRequestsQuery {
    pub status: Option<String>,
}

#[derive(Clone, Debug, Default, PartialEq, Eq)]
pub struct ListDownloadsQuery {
    pub status: Option<String>,
}

#[derive(Clone, Copy, Debug, Default, PartialEq, Eq, Structural)]
pub struct DeleteDownloadQuery {
    pub delete_files: bool,
}

#[derive(Clone, Debug, PartialEq, Eq)]
pub struct MediaSearchItem {
    pub id: String,
    pub media_type: MediaType,
    pub title: String,
    pub year: Option<i32>,
    pub status: Option<String>,
}

#[derive(Clone, Debug, PartialEq, Eq)]
pub struct MediaRequest {
    pub id: String,
    pub media_id: String,
    pub media_type: MediaType,
    pub status: String,
    pub title: Option<String>,
}

#[derive(Clone, Debug, PartialEq, Eq)]
pub struct DownloadItem {
    pub id: String,
    pub name: String,
    pub status: String,
    pub percentage: Option<String>,
    pub size: Option<String>,
}

#[derive(Clone, Copy, Debug, PartialEq, Eq, Structural)]
pub struct LibraryStatus {
    pub item_count: Option<u64>,
    pub movie_count: Option<u64>,
    pub series_count: Option<u64>,
}

#[derive(Clone, Debug, PartialEq, Eq)]
pub struct ActiveSession {
    pub id: String,
    pub user_name: Option<String>,
    pub item_name: Option<String>,
}

#[derive(Clone, Debug, PartialEq, Eq)]
pub struct MediaOperation {
    pub service: String,
    pub operation: String,
    pub affected_id: Option<String>,
}

#[derive(Clone, Debug, PartialEq, Eq)]
pub struct BackendHealth {
    pub backend: String,
    pub healthy: bool,
    pub message: Option<String>,
}

#[derive(Clone, Copy, Debug, PartialEq, Eq, Structural)]
pub enum HealthStatus {
    Healthy,
    Degraded,
    Unavailable,
}

#[derive(Clone, Debug, PartialEq, Eq)]
pub struct MediaHealth {
    pub status: HealthStatus,
    pub backends: Vec<BackendHealth>,
}

#[derive(Clone, Copy, Debug, PartialEq, Eq, Structural)]
pub struct SeasonAvailabilityQuery {
    pub media_id: i64,
    pub season: u32,
}

#[derive(Clone, Copy, Debug, PartialEq, Eq, Structural)]
pub enum CompletenessStatus {
    Complete,
    Incomplete,
    Unknown,
}

#[derive(Clone, Copy, Debug, PartialEq, Eq, Structural)]
pub enum EpisodeReleaseStatus {
    Aired,
    Future,
    Unknown,
}

#[derive(Clone, Copy, Debug, PartialEq, Eq, Structural)]
pub enum EpisodePresence {
    Available,
    Missing,
}

/// A calendar day of the proleptic Gregorian calendar.
#[derive(Clone, Copy, Debug, PartialEq, Eq, Structural)]
pub struct CalendarDate {
    pub year: i32,
    pub month: u32,
    pub day: u32,
}

/// Days compare by year, then month, then day.
pub open spec fn date_le(a: CalendarDate, b: CalendarDate) -> bool {
    a.year < b.year || (a.year == b.year && (a.month < b.month || (a.month == b.month && a.day <= b.day)))
}

pub open spec fn date_lt(a: CalendarDate, b: CalendarDate) -> bool {
    date_le(a, b) && a != b
}

pub fn date_le_exec(a: CalendarDate, b: CalendarDate) -> (r: bool)
    ensures
        r == date_le(a, b),
{
    a.year < b.year || (a.year == b.year && (a.month < b.month || (a.month == b.month && a.day <= b.day)))
}

pub fn date_lt_exec(a: CalendarDate, b: CalendarDate) -> (r: bool)
    ensures
        r == date_lt(a, b),
{
    date_le_exec(a, b) && !(a.year == b.year && a.month == b.month && a.day == b.day)
}

/// The year as a date shows it: four digits for years 0 to 9999, otherwise
/// signed and at least four digits.
pub open spec fn year_text(y: i32) -> Seq<char> {
    if 0 <= y <= 9999 {
        padded_decimal(y as nat, 4)
    } else if y > 9999 {
        "+"@ + decimal(y as nat)
    } else {
        "-"@ + padded_decimal((-y) as nat, 4)
    }
}

/// A day as `YYYY-MM-DD`, the form `chrono` displays and parses.
pub open spec fn date_text(d: CalendarDate) -> Seq<char> {
    year_text(d.year) + "-"@ + padded_decimal(d.month as nat, 2) + "-"@ + padded_decimal(
        d.day as nat,
        2,
    )
}

impl CalendarDate {
    /// The day as `YYYY-MM-DD`.
    pub fn text(&self) -> (r: String)
        ensures
            r@ == date_text(*self),
    {
        let mut out = if 0 <= self.year && self.year <= 9999 {
            u64_to_padded_decimal(self.year as u64, 4)
        } else if self.year > 9999 {
            let mut s = String::new();
            s.append("+");
            let d = u64_to_decimal(self.year as u64);
            s.append(d.as_str());
            s
        } else {
            let mut s = String::new();
            s.append("-");
            let magnitude: i64 = -(self.year as i64);
            let d = u64_to_padded_decimal(magnitude as u64, 4);
            s.append(d.as_str());
            s
        };
        out.append("-");
        let m = u64_to_padded_decimal(self.month as u64, 2);
        out.append(m.as_str());
        out.append("-");
        let d = u64_to_padded_decimal(self.day as u64, 2);
        out.append(d.as_str());
        out
    }
}

#[derive(Clone, Debug, PartialEq, Eq)]
pub struct AvailabilitySeries {
    pub media_id: String,
    pub jellyfin_id: Option<String>,
    pub title: String,
}

#[derive(Clone, Copy, Debug, PartialEq, Eq, Structural)]
pub struct CompletenessSummary {
    pub status: CompletenessStatus,
    pub expected_count: u32,
    pub available_count: u32,
    pub missing_count: u32,
}

#[derive(Clone, Debug, PartialEq, Eq)]
pub struct AvailabilityEpisode {
    pub episode_id: String,
    pub episode_number: u32,
    pub title: String,
    pub air_date: Option<CalendarDate>,
    pub release_status: EpisodeReleaseStatus,
    pub presence: EpisodePresence,
}

pub struct AvailabilityEpisodeView {
    pub episode_id: Seq<char>,
    pub episode_number: u32,
    pub title: Seq<char>,
    pub air_date: Option<CalendarDate>,
    pub release_status: EpisodeReleaseStatus,
    pub presence: EpisodePresence,
}

impl View for AvailabilityEpisode {
    type V = AvailabilityEpisodeView;

    open spec fn view(&self) -> AvailabilityEpisodeView {
        AvailabilityEpisodeView {
            episode_id: self.episode_id@,
            episode_number: self.episode_number,
            title: self.title@,
            air_date: self.air_date,
            release_status: self.release_status,
            presence: self.presence,
        }
    }
}

impl DeepView for AvailabilityEpisode {
    type V = AvailabilityEpisodeView;

    open spec fn deep_view(&self) -> AvailabilityEpisodeView {
        self@
    }
}

impl AvailabilityEpisode {
    pub fn duplicate(&self) -> (r: Self)
        ensures
            r@ == self@,
    {
        AvailabilityEpisode {
            episode_id: self.episode_id.clone(),
            episode_number: self.episode_number,
            title: self.title.clone(),
            air_date: self.air_date,
            release_status: self.release_status,
            presence: self.presence,
        }
    }
}

#[derive(Clone, Debug, PartialEq, Eq)]
pub struct SeasonAvailability {
    pub series: AvailabilitySeries,
    pub season: u32,
    pub as_of: CalendarDate,
    pub in_library: bool,
    pub aired: CompletenessSummary,
    pub announced: CompletenessSummary,
    pub unknown_air_date_count: u32,
    pub next_airing: Option<AvailabilityEpisode>,
    pub episodes: Option<Vec<AvailabilityEpisode>>,
}


/// The text of an optional string.
pub open spec fn opt_text(o: Option<String>) -> Option<Seq<char>> {
    match o {
        Some(s) => Some(s@),
        None => None,
    }
}

pub struct MediaSearchItemView {
    pub id: Seq<char>,
    pub media_type: MediaType,
    pub title: Seq<char>,
    pub year: Option<i32>,
    pub status: Option<Seq<char>>,
}

impl View for MediaSearchItem {
    type V = MediaSearchItemView;

    open spec fn view(&self) -> MediaSearchItemView {
        MediaSearchItemView {
            id: self.id@,
            media_type: self.media_type,
            title: self.title@,
            year: self.year,
            status: opt_text(self.status),
        }
    }
}

impl DeepView for MediaSearchItem {
    type V = MediaSearchItemView;

    open spec fn deep_view(&self) -> MediaSearchItemView {
        self@
    }
}

pub struct MediaRequestView {
    pub id: Seq<char>,
    pub media_id: Seq<char>,
    pub media_type: MediaType,
    pub status: Seq<char>,
    pub title: Option<Seq<char>>,
}

impl View for MediaRequest {
    type V = MediaRequestView;

    open spec fn view(&self) -> MediaRequestView {
        MediaRequestView {
            id: self.id@,
            media_id: self.media_id@,
            media_type: self.media_type,
            status: self.status@,
            title: opt_text(self.title),
        }
    }
}

impl DeepView for MediaRequest {
    type V = MediaRequestView;

    open spec fn deep_view(&self) -> MediaRequestView {
        self@
    }
}

pub struct DownloadItemView {
    pub id: Seq<char>,
    pub name: Seq<char>,
    pub status: Seq<char>,
    pub percentage: Option<Seq<char>>,
    pub size: Option<Seq<char>>,
}

impl View for DownloadItem {
    type V = DownloadItemView;

    open spec fn view(&self) -> DownloadItemView {
        DownloadItemView {
            id: self.id@,
            name: self.name@,
            status: self.status@,
            percentage: opt_text(self.percentage),
            size: opt_text(self.size),
        }
    }
}

impl DeepView for DownloadItem {
    type V = DownloadItemView;

    open spec fn deep_view(&self) -> DownloadItemView {
        self@
    }
}

pub struct ActiveSessionView {
    pub id: Seq<char>,
    pub user_name: Option<Seq<char>>,
    pub item_name: Option<Seq<char>>,
}

impl View for ActiveSession {
    type V = ActiveSessionView;

    open spec fn view(&self) -> ActiveSessionView {
        ActiveSessionView {
            id: self.id@,
            user_name: opt_text(self.user_name),
            item_name: opt_text(self.item_name),
        }
    }
}

impl DeepView for ActiveSession {
    type V = ActiveSessionView;

    open spec fn deep_view(&self) -> ActiveSessionView {
        self@
    }
}

pub struct MediaOperationView {
    pub service: Seq<char>,
    pub operation: Seq<char>,
    pub affected_id: Option<Seq<char>>,
}

impl View for MediaOperation {
    type V = MediaOperationView;

    open spec fn view(&self) -> MediaOperationView {
        MediaOperationView {
            service: self.service@,
            operation: self.operation@,
            affected_id: opt_text(self.affected_id),
        }
    }
}

pub struct BackendHealthView {
    pub backend: Seq<char>,
    pub healthy: bool,
    pub message: Option<Seq<char>>,
}

impl View for BackendHealth {
    type V = BackendHealthView;

    open spec fn view(&self) -> BackendHealthView {
        BackendHealthView {
            backend: self.backend@,
            healthy: self.healthy,
            message: opt_text(self.message),
        }
    }
}

impl DeepView for BackendHealth {
    type V = BackendHealthView;

    open spec fn deep_view(&self) -> BackendHealthView {
        self@
    }
}

} // verus!
