//! The homelab API as the command line calls it: where its base URL may
//! point, which request each command makes, and when a server is
//! compatible.
use crate::api_model::{Capabilities, CreateMediaRequest, MediaType};
use crate::media::jellyseerr::{media_type_name, media_type_text};
use crate::cli::{
    command_operation_and_risk, media_operation_and_risk, media_type_of_arg, ClientError, Command, DownloadsCommand, IncompatibleApi, ItemCommand,
    LibraryCommand, MediaCommand, RequestCommand, RequestsCommand, SessionsCommand,
    validate_compatible,
};
use crate::text::{
    decimal, ends_with, has_suffix, i64_to_decimal, int_decimal, str_eq, string_of, trim_end_char,
    trim_end_matches_char, u64_to_decimal,
};
use crate::urls::{read_url, url_facts, UrlFacts, UrlFactsView};
use vstd::prelude::*;

verus! {

// ---------------------------------------------------------------------------
// The base URL
// ---------------------------------------------------------------------------

/// Reads the configured base URL: it must be set and be an absolute URL.
pub fn configured_base_url(value: Option<&str>) -> (r: Result<UrlFacts, &'static str>)
    ensures
        match value {
            None => r == Err::<UrlFacts, &'static str>("HOMELAB_API_URL is required"),
            Some(t) => match url_facts(t@) {
                Some(f) => r matches Ok(g) && g@ == f,
                None => r == Err::<UrlFacts, &'static str>(
                    "HOMELAB_API_URL must be an absolute HTTP(S) URL ending in /api/v1",
                ),
            },
        },
{
    let text = match value {
        Some(t) => t,
        None => {
            return Err("HOMELAB_API_URL is required");
        },
    };
    match read_url(text) {
        Some(f) => Ok(f),
        None => Err("HOMELAB_API_URL must be an absolute HTTP(S) URL ending in /api/v1"),
    }
}

/// Why a base URL cannot be used, if it cannot: it must be an HTTP(S) URL
/// that can be a base, with a host, without credentials, query or fragment,
/// whose path ends in `/api/v1` (trailing slashes aside).
pub open spec fn base_url_fault(f: UrlFactsView) -> Option<Seq<char>> {
    if !(f.scheme == "http"@ || f.scheme == "https"@) || f.cannot_be_a_base {
        Some("an absolute HTTP(S) URL is required"@)
    } else if !f.has_host {
        Some("a host is required"@)
    } else if f.username.len() > 0 || f.has_password {
        Some("embedded credentials are not allowed"@)
    } else if f.has_query || f.has_fragment {
        Some("query strings and fragments are not allowed"@)
    } else if !has_suffix(trim_end_char(f.path, '/'), "/api/v1"@) {
        Some("path must end in /api/v1"@)
    } else {
        None
    }
}

/// Checks a base URL and gives the path it is to carry: its own path with
/// exactly one trailing slash.
pub fn base_url_path(facts: &UrlFacts) -> (r: Result<String, ClientError>)
    ensures
        match base_url_fault(facts@) {
            Some(reason) => r matches Err(ClientError::InvalidBaseUrl { reason: m }) && m@ == reason,
            None => r matches Ok(p) && p@ == trim_end_char(facts@.path, '/') + "/"@,
        },
{
    let http = str_eq(facts.scheme.as_str(), "http") || str_eq(facts.scheme.as_str(), "https");
    if !http || facts.cannot_be_a_base {
        return Err(ClientError::InvalidBaseUrl { reason: "an absolute HTTP(S) URL is required" });
    }
    if !facts.has_host {
        return Err(ClientError::InvalidBaseUrl { reason: "a host is required" });
    }
    if facts.username.unicode_len() > 0 || facts.has_password {
        return Err(ClientError::InvalidBaseUrl { reason: "embedded credentials are not allowed" });
    }
    if facts.has_query || facts.has_fragment {
        return Err(
            ClientError::InvalidBaseUrl { reason: "query strings and fragments are not allowed" },
        );
    }
    let mut path = trim_end_matches_char(facts.path.as_str(), '/');
    if !ends_with(path.as_str(), "/api/v1") {
        return Err(ClientError::InvalidBaseUrl { reason: "path must end in /api/v1" });
    }
    path.append("/");
    Ok(path)
}

// ---------------------------------------------------------------------------
// Compatibility
// ---------------------------------------------------------------------------

/// Checks the server's capabilities: they must be present, or the response
/// counts as unreadable under the request ID it carries; and they must
/// name this API major version.
pub fn check_capabilities(data: Option<&Capabilities>, response_request_id: &str) -> (r: Result<
    (),
    ClientError,
>)
    ensures
        match data {
            None => r matches Err(ClientError::Decode { status, request_id: Some(id) }) && status
                == 200 && id@ == response_request_id@,
            Some(c) => (c.api.major != crate::api_model::API_MAJOR ==> r == Err::<(), ClientError>(
                ClientError::IncompatibleApi { expected: crate::api_model::API_MAJOR, actual: c.api.major },
            )) && (c.api.major == crate::api_model::API_MAJOR && c.compatible_cli_major
                != crate::api_model::API_MAJOR ==> r == Err::<(), ClientError>(
                ClientError::IncompatibleApi {
                    expected: crate::api_model::API_MAJOR,
                    actual: c.compatible_cli_major,
                },
            )) && (c.api.major == crate::api_model::API_MAJOR && c.compatible_cli_major
                == crate::api_model::API_MAJOR ==> r is Ok),
        },
{
    match data {
        None => Err(
            ClientError::Decode { status: 200, request_id: Some(string_of(response_request_id)) },
        ),
        Some(c) => match validate_compatible(c) {
            Ok(()) => Ok(()),
            Err(IncompatibleApi { expected, actual }) => Err(
                ClientError::IncompatibleApi { expected, actual },
            ),
        },
    }
}

// ---------------------------------------------------------------------------
// Requests
// ---------------------------------------------------------------------------

#[derive(Clone, Copy, Debug, PartialEq, Eq, Structural)]
pub enum HttpMethod {
    Get,
    Post,
    Delete,
}

/// The kind of data a response carries.
#[derive(Clone, Copy, Debug, PartialEq, Eq, Structural)]
pub enum ResponseKind {
    Capabilities,
    Health,
    SearchResults,
    SearchItem,
    Request,
    Requests,
    Operation,
    Downloads,
    LibraryStatus,
    SeasonAvailability,
    Sessions,
}

/// One call of the API: method, path segments below the base URL, query
/// pairs, JSON body, whether the server's compatibility must be confirmed
/// first, and what the answer holds.
#[derive(Debug)]
pub struct ApiCall {
    pub method: HttpMethod,
    pub segments: Vec<String>,
    pub query: Vec<(String, String)>,
    pub body: Option<CreateMediaRequest>,
    pub checks_compatibility: bool,
    pub response: ResponseKind,
}

pub struct ApiCallView {
    pub method: HttpMethod,
    pub segments: Seq<Seq<char>>,
    pub query: Seq<(Seq<char>, Seq<char>)>,
    pub body: Option<CreateMediaRequest>,
    pub checks_compatibility: bool,
    pub response: ResponseKind,
}

impl View for ApiCall {
    type V = ApiCallView;

    open spec fn view(&self) -> ApiCallView {
        ApiCallView {
            method: self.method,
            segments: self.segments.deep_view(),
            query: self.query@.map_values(|p: (String, String)| (p.0@, p.1@)),
            body: self.body,
            checks_compatibility: self.checks_compatibility,
            response: self.response,
        }
    }
}

pub open spec fn read_call(segments: Seq<Seq<char>>, response: ResponseKind) -> ApiCallView {
    ApiCallView {
        method: HttpMethod::Get,
        segments,
        query: Seq::empty(),
        body: None,
        checks_compatibility: false,
        response,
    }
}

pub open spec fn write_call(segments: Seq<Seq<char>>) -> ApiCallView {
    ApiCallView {
        method: HttpMethod::Post,
        segments,
        query: Seq::empty(),
        body: None,
        checks_compatibility: true,
        response: ResponseKind::Operation,
    }
}

pub open spec fn status_query(status: Option<String>) -> Seq<(Seq<char>, Seq<char>)> {
    match status {
        Some(s) => seq![("status"@, s@)],
        None => Seq::empty(),
    }
}

/// The call a media command makes.
pub open spec fn media_call(c: MediaCommand) -> ApiCallView {
    match c {
        MediaCommand::Health => read_call(seq!["health"@], ResponseKind::Health),
        MediaCommand::Search { query } => ApiCallView {
            query: seq![("query"@, query@)],
            ..read_call(seq!["media"@, "search"@], ResponseKind::SearchResults)
        },
        MediaCommand::Item { command: ItemCommand::Show { item_id, media_type } } => ApiCallView {
            query: seq![("media_type"@, media_type_name(media_type_of_arg(media_type)))],
            ..read_call(seq!["media"@, "items"@, item_id@], ResponseKind::SearchItem)
        },
        MediaCommand::Request { command: RequestCommand::Create { media_id, media_type } } => ApiCallView {
            method: HttpMethod::Post,
            segments: seq!["media"@, "requests"@],
            query: Seq::empty(),
            body: Some(CreateMediaRequest { media_id, media_type: media_type_of_arg(media_type) }),
            checks_compatibility: true,
            response: ResponseKind::Request,
        },
        MediaCommand::Requests { command } => match command {
            RequestsCommand::List { status } => ApiCallView {
                query: status_query(status),
                ..read_call(seq!["media"@, "requests"@], ResponseKind::Requests)
            },
            RequestsCommand::Approve { request_id } => write_call(
                seq!["media"@, "requests"@, request_id@, "approve"@],
            ),
            RequestsCommand::Decline { request_id } => write_call(
                seq!["media"@, "requests"@, request_id@, "decline"@],
            ),
        },
        MediaCommand::Downloads { command } => match command {
            DownloadsCommand::List { status } => ApiCallView {
                query: status_query(status),
                ..read_call(seq!["media"@, "downloads"@], ResponseKind::Downloads)
            },
            DownloadsCommand::Pause { download_id } => write_call(
                seq!["media"@, "downloads"@, download_id@, "pause"@],
            ),
            DownloadsCommand::Resume { download_id } => write_call(
                seq!["media"@, "downloads"@, download_id@, "resume"@],
            ),
            DownloadsCommand::Delete { download_id, delete_files } => ApiCallView {
                method: HttpMethod::Delete,
                query: seq![
                    ("delete_files"@, if delete_files {
                        "true"@
                    } else {
                        "false"@
                    }),
                ],
                ..write_call(seq!["media"@, "downloads"@, download_id@])
            },
            DownloadsCommand::Retry { download_id } => write_call(
                seq!["media"@, "downloads"@, download_id@, "retry"@],
            ),
        },
        MediaCommand::Library { command } => match command {
            LibraryCommand::Status => read_call(
                seq!["media"@, "library"@, "status"@],
                ResponseKind::LibraryStatus,
            ),
            LibraryCommand::Refresh => write_call(seq!["media"@, "library"@, "refresh"@]),
            LibraryCommand::Availability { media_id, season } => ApiCallView {
                query: seq![("media_id"@, int_decimal(media_id as int)), ("season"@, decimal(season as nat))],
                ..read_call(
                    seq!["media"@, "library"@, "availability"@],
                    ResponseKind::SeasonAvailability,
                )
            },
        },
        MediaCommand::Sessions { .. } => read_call(seq!["media"@, "sessions"@], ResponseKind::Sessions),
    }
}

/// The call a command makes.
pub open spec fn command_call(c: Command) -> ApiCallView {
    match c {
        Command::Capabilities => read_call(seq!["capabilities"@], ResponseKind::Capabilities),
        Command::Media { command } => media_call(command),
    }
}

fn segs1(a: &str) -> (r: Vec<String>)
    ensures
        r.deep_view() == seq![a@],
{
    let v = vec![string_of(a)];
    assert(v.deep_view() =~= seq![a@]);
    v
}

fn segs2(a: &str, b: &str) -> (r: Vec<String>)
    ensures
        r.deep_view() == seq![a@, b@],
{
    let v = vec![string_of(a), string_of(b)];
    assert(v.deep_view() =~= seq![a@, b@]);
    v
}

fn segs3(a: &str, b: &str, c: &str) -> (r: Vec<String>)
    ensures
        r.deep_view() == seq![a@, b@, c@],
{
    let v = vec![string_of(a), string_of(b), string_of(c)];
    assert(v.deep_view() =~= seq![a@, b@, c@]);
    v
}

fn segs4(a: &str, b: &str, c: &str, d: &str) -> (r: Vec<String>)
    ensures
        r.deep_view() == seq![a@, b@, c@, d@],
{
    let v = vec![string_of(a), string_of(b), string_of(c), string_of(d)];
    assert(v.deep_view() =~= seq![a@, b@, c@, d@]);
    v
}

fn pairs1(k: &str, v: &str) -> (r: Vec<(String, String)>)
    ensures
        r@.map_values(|p: (String, String)| (p.0@, p.1@)) == seq![(k@, v@)],
{
    let out = vec![(string_of(k), string_of(v))];
    assert(out@.map_values(|p: (String, String)| (p.0@, p.1@)) =~= seq![(k@, v@)]);
    out
}

fn pairs2(k1: &str, v1: &str, k2: &str, v2: &str) -> (r: Vec<(String, String)>)
    ensures
        r@.map_values(|p: (String, String)| (p.0@, p.1@)) == seq![(k1@, v1@), (k2@, v2@)],
{
    let out = vec![(string_of(k1), string_of(v1)), (string_of(k2), string_of(v2))];
    assert(out@.map_values(|p: (String, String)| (p.0@, p.1@)) =~= seq![(k1@, v1@), (k2@, v2@)]);
    out
}

fn no_pairs() -> (r: Vec<(String, String)>)
    ensures
        r@.map_values(|p: (String, String)| (p.0@, p.1@)) == Seq::<(Seq<char>, Seq<char>)>::empty(),
{
    let out: Vec<(String, String)> = Vec::new();
    assert(out@.map_values(|p: (String, String)| (p.0@, p.1@)) =~= Seq::<(Seq<char>, Seq<char>)>::empty());
    out
}

fn status_pairs(status: &Option<String>) -> (r: Vec<(String, String)>)
    ensures
        r@.map_values(|p: (String, String)| (p.0@, p.1@)) == status_query(*status),
{
    match status {
        Some(s) => pairs1("status", s.as_str()),
        None => no_pairs(),
    }
}

fn read(segments: Vec<String>, response: ResponseKind) -> (r: ApiCall)
    ensures
        r@ == read_call(segments.deep_view(), response),
{
    ApiCall {
        method: HttpMethod::Get,
        segments,
        query: no_pairs(),
        body: None,
        checks_compatibility: false,
        response,
    }
}

fn write(segments: Vec<String>) -> (r: ApiCall)
    ensures
        r@ == write_call(segments.deep_view()),
{
    ApiCall {
        method: HttpMethod::Post,
        segments,
        query: no_pairs(),
        body: None,
        checks_compatibility: true,
        response: ResponseKind::Operation,
    }
}

/// The call a media command makes.
pub fn media_api_call(command: &MediaCommand) -> (r: ApiCall)
    ensures
        r@ == media_call(*command),
{
    match command {
        MediaCommand::Health => read(segs1("health"), ResponseKind::Health),
        MediaCommand::Search { query } => {
            let mut call = read(segs2("media", "search"), ResponseKind::SearchResults);
            call.query = pairs1("query", query.as_str());
            call
        },
        MediaCommand::Item { command: ItemCommand::Show { item_id, media_type } } => {
            let mut call = read(segs3("media", "items", item_id.as_str()), ResponseKind::SearchItem);
            let t: MediaType = (*media_type).into();
            call.query = pairs1("media_type", media_type_text(t));
            call
        },
        MediaCommand::Request { command: RequestCommand::Create { media_id, media_type } } => {
            ApiCall {
                method: HttpMethod::Post,
                segments: segs2("media", "requests"),
                query: no_pairs(),
                body: Some(CreateMediaRequest { media_id: *media_id, media_type: (*media_type).into() }),
                checks_compatibility: true,
                response: ResponseKind::Request,
            }
        },
        MediaCommand::Requests { command } => match command {
            RequestsCommand::List { status } => {
                let mut call = read(segs2("media", "requests"), ResponseKind::Requests);
                call.query = status_pairs(status);
                call
            },
            RequestsCommand::Approve { request_id } => write(
                segs4("media", "requests", request_id.as_str(), "approve"),
            ),
            RequestsCommand::Decline { request_id } => write(
                segs4("media", "requests", request_id.as_str(), "decline"),
            ),
        },
        MediaCommand::Downloads { command } => match command {
            DownloadsCommand::List { status } => {
                let mut call = read(segs2("media", "downloads"), ResponseKind::Downloads);
                call.query = status_pairs(status);
                call
            },
            DownloadsCommand::Pause { download_id } => write(
                segs4("media", "downloads", download_id.as_str(), "pause"),
            ),
            DownloadsCommand::Resume { download_id } => write(
                segs4("media", "downloads", download_id.as_str(), "resume"),
            ),
            DownloadsCommand::Delete { download_id, delete_files } => {
                let mut call = write(segs3("media", "downloads", download_id.as_str()));
                call.method = HttpMethod::Delete;
                call.query = pairs1(
                    "delete_files",
                    if *delete_files {
                        "true"
                    } else {
                        "false"
                    },
                );
                call
            },
            DownloadsCommand::Retry { download_id } => write(
                segs4("media", "downloads", download_id.as_str(), "retry"),
            ),
        },
        MediaCommand::Library { command } => match command {
            LibraryCommand::Status => read(
                segs3("media", "library", "status"),
                ResponseKind::LibraryStatus,
            ),
            LibraryCommand::Refresh => write(segs3("media", "library", "refresh")),
            LibraryCommand::Availability { media_id, season } => {
                let mut call = read(
                    segs3("media", "library", "availability"),
                    ResponseKind::SeasonAvailability,
                );
                let id = i64_to_decimal(*media_id);
                let number = u64_to_decimal(*season as u64);
                call.query = pairs2("media_id", id.as_str(), "season", number.as_str());
                call
            },
        },
        MediaCommand::Sessions { .. } => read(segs2("media", "sessions"), ResponseKind::Sessions),
    }
}

/// The call a command makes.
pub fn api_call(command: &Command) -> (r: ApiCall)
    ensures
        r@ == command_call(*command),
{
    match command {
        Command::Capabilities => read(segs1("capabilities"), ResponseKind::Capabilities),
        Command::Media { command } => media_api_call(command),
    }
}

proof fn lemma_media_call_risk(m: MediaCommand)
    ensures
        media_call(m).checks_compatibility == (media_operation_and_risk(m).1 != "read"@),
        (media_call(m).method == HttpMethod::Get) == (media_operation_and_risk(m).1 == "read"@),
{
    reveal_strlit("read");
    reveal_strlit("write");
    reveal_strlit("destructive");
    assert("write"@.len() != "read"@.len());
    assert("destructive"@.len() != "read"@.len());
    let risk = media_operation_and_risk(m).1;
    let call = media_call(m);
    if call.checks_compatibility {
        assert(risk == "write"@ || risk == "destructive"@);
    } else {
        assert(risk == "read"@);
    }
    if call.method == HttpMethod::Get {
        assert(risk == "read"@);
    } else {
        assert(risk == "write"@ || risk == "destructive"@);
    }
}

/// Every command that changes something confirms the server's
/// compatibility first and is not a GET; every read is a GET straight to
/// the server.
pub proof fn law_writes_confirm_compatibility(c: Command)
    ensures
        command_call(c).checks_compatibility == (command_operation_and_risk(c).1 != "read"@),
        (command_call(c).method == HttpMethod::Get) == (command_operation_and_risk(c).1 == "read"@),
{
    reveal_strlit("read");
    match c {
        Command::Capabilities => {},
        Command::Media { command } => lemma_media_call_risk(command),
    }
}

} // verus!
