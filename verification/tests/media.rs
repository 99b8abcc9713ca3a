use homelab_mcp::api_model::{CalendarDate, HealthStatus, MediaType};
use homelab_mcp::json::to_json_text;
use homelab_mcp::media::jellyseerr::request_body;
use homelab_mcp::json::JsonValue;
use homelab_mcp::media::config::{MediaConfig, ServiceConfig};
use homelab_mcp::media::error::{ErrorCode, MediaError, TransportError, UpstreamError};
use homelab_mcp::media::jellyfin::{
    active_sessions, episode_page_path, library_episodes, library_status, match_series,
    normalize_library_episode, page_step, percent_encode_path_segment, refresh_operation,
    series_page_path, PageStep,
};
use homelab_mcp::media::jellyseerr::{
    list_requests_path, media_type_text, normalize_catalog_item, normalize_expected_season,
    normalize_request, parse_media_type, parse_year, percent_encode_query, request_list,
    requestable_seasons, require_catalog_id, require_id, scalar_string, search_path,
    search_results,
};
use homelab_mcp::media::sabnzbd::{
    action_contains_id, after_queue_delete, append_downloads, confirmed_outcome, del_files_flag,
    includes_history, includes_queue, normalize_history_item, normalize_queue_item, operation,
    queue_action_outcome, reports_error, DeleteStep,
};
use homelab_mcp::media::sabnzbd;
use homelab_mcp::media::service::{
    backend_health, describe, health_report, MediaAction, Risk,
};

fn s(text: &str) -> JsonValue {
    JsonValue::Str(text.to_owned())
}

fn num(n: i64) -> JsonValue {
    JsonValue::Int(n)
}

fn arr(items: Vec<JsonValue>) -> JsonValue {
    JsonValue::Array(items)
}

fn obj(members: Vec<(&str, JsonValue)>) -> JsonValue {
    JsonValue::Object(members.into_iter().map(|(k, v)| (k.to_owned(), v)).collect())
}

fn is_serialization(error: &MediaError, service: &str, operation: &str) -> bool {
    matches!(error, MediaError::Serialization(e) if e.service == service && e.operation == operation)
}

// ---------------------------------------------------------------------------
// Request manager
// ---------------------------------------------------------------------------

#[test]
fn identifiers_are_required_and_catalog_ids_are_numeric() {
    assert!(require_id("req-1", "request_id").is_ok());
    match require_id("  ", "request_id") {
        Err(MediaError::Validation(m)) => assert_eq!(m, "request_id is required"),
        other => panic!("unexpected {other:?}"),
    }
    assert!(require_catalog_id("60625").is_ok());
    for bad in ["", "60a25", "-1", "６０"] {
        match require_catalog_id(bad) {
            Err(MediaError::Validation(m)) => {
                assert_eq!(m, "item_id must be a non-empty numeric catalog identifier")
            }
            other => panic!("unexpected {other:?}"),
        }
    }
}

#[test]
fn media_types_read_in_any_case() {
    assert_eq!(parse_media_type("Movie"), Some(MediaType::Movie));
    assert_eq!(parse_media_type("TV"), Some(MediaType::Tv));
    assert_eq!(parse_media_type("series"), Some(MediaType::Tv));
    assert_eq!(parse_media_type("music"), None);
    assert_eq!(media_type_text(MediaType::Movie), "movie");
    assert_eq!(media_type_text(MediaType::Tv), "tv");
}

#[test]
fn scalars_are_strings_or_integers() {
    assert_eq!(scalar_string(&s("x")), Some("x".into()));
    assert_eq!(scalar_string(&num(-42)), Some("-42".into()));
    assert_eq!(scalar_string(&num(i64::MIN)), Some("-9223372036854775808".into()));
    assert_eq!(scalar_string(&JsonValue::UInt(u64::MAX)), Some("18446744073709551615".into()));
    assert_eq!(
        scalar_string(&JsonValue::Float { display: "0.5".into(), json: "0.5".into() }),
        None
    );
    assert_eq!(scalar_string(&JsonValue::Bool(true)), None);
}

#[test]
fn search_normalizes_without_raw_source_and_encodes_query() {
    assert_eq!(search_path("Witch Hat Atelier").unwrap(), "/api/v1/search?query=Witch%20Hat%20Atelier");
    assert!(matches!(search_path(" "), Err(MediaError::Validation(m)) if m == "query is required"));
    let answer = obj(vec![(
        "results",
        arr(vec![
            obj(vec![
                ("id", num(100)),
                ("mediaType", s("movie")),
                ("title", s("Alien")),
                ("releaseDate", s("1979-05-25")),
                ("mediaInfo", obj(vec![("status", num(5))])),
                ("rawSecret", s("must-not-escape")),
            ]),
            obj(vec![("id", num(7)), ("mediaType", s("person")), ("name", s("Someone"))]),
        ]),
    )]);
    let results = search_results(&answer);
    assert_eq!(results.len(), 1);
    assert_eq!(results[0].id, "100");
    assert_eq!(results[0].media_type, MediaType::Movie);
    assert_eq!(results[0].title, "Alien");
    assert_eq!(results[0].year, Some(1979));
    assert_eq!(results[0].status.as_deref(), Some("5"));
}

#[test]
fn catalog_items_read_titles_names_and_years() {
    let tv = obj(vec![("id", s("60625")), ("name", s("Rick and Morty")), ("firstAirDate", s("2013-12-02"))]);
    let item = normalize_catalog_item(&tv, MediaType::Tv).unwrap();
    assert_eq!((item.title.as_str(), item.year), ("Rick and Morty", Some(2013)));
    let no_title = obj(vec![("id", num(1)), ("title", num(5))]);
    assert!(normalize_catalog_item(&no_title, MediaType::Movie).is_none());
    assert_eq!(parse_year("+123-01-01"), Some(123));
    assert_eq!(parse_year("-199"), Some(-199));
    assert_eq!(parse_year("19x9"), None);
    assert_eq!(parse_year("199"), None);
    assert_eq!(parse_year("日本2001"), None);
}

#[test]
fn list_requests_normalizes_status_and_nested_media_type() {
    assert_eq!(list_requests_path(Some("pending review")), "/api/v1/request?filter=pending%20review");
    assert_eq!(list_requests_path(Some("  ")), "/api/v1/request");
    assert_eq!(list_requests_path(None), "/api/v1/request");
    let answer = obj(vec![(
        "results",
        arr(vec![
            obj(vec![
                ("id", num(9)),
                ("status", num(2)),
                ("media", obj(vec![("tmdbId", num(60625)), ("mediaType", s("tv")), ("title", s("Rick"))])),
            ]),
            obj(vec![("id", num(10))]),
        ]),
    )]);
    let requests = request_list(&answer);
    assert_eq!(requests.len(), 1);
    assert_eq!(requests[0].id, "9");
    assert_eq!(requests[0].media_id, "60625");
    assert_eq!(requests[0].media_type, MediaType::Tv);
    assert_eq!(requests[0].status, "2");
    assert_eq!(requests[0].title.as_deref(), Some("Rick"));
    let bare = arr(vec![obj(vec![("id", s("r")), ("mediaId", num(5)), ("mediaType", s("MOVIE"))])]);
    let requests = request_list(&bare);
    assert_eq!(requests[0].status, "");
    assert!(normalize_request(&obj(vec![("id", num(1)), ("mediaId", num(2))])).is_none());
}

#[test]
fn tv_request_excludes_season_zero_and_includes_available_seasons() {
    let details = obj(vec![(
        "seasons",
        arr(vec![
            obj(vec![("seasonNumber", num(0))]),
            obj(vec![("seasonNumber", num(1))]),
            obj(vec![("seasonNumber", num(2))]),
        ]),
    )]);
    assert_eq!(requestable_seasons(196950, &details).unwrap(), vec![1, 2]);
    match requestable_seasons(42, &obj(vec![])) {
        Err(MediaError::Validation(m)) => assert_eq!(m, "no requestable seasons found for tv media id 42"),
        other => panic!("unexpected {other:?}"),
    }
}

fn valid_details() -> JsonValue {
    obj(vec![("id", num(60625)), ("name", s("Rick and Morty"))])
}

fn season(number: i64, episodes: Vec<JsonValue>) -> JsonValue {
    obj(vec![("seasonNumber", num(number)), ("episodes", arr(episodes))])
}

fn episode(id: i64, number: i64, name: &str) -> JsonValue {
    obj(vec![("id", num(id)), ("episodeNumber", num(number)), ("name", s(name))])
}

#[test]
fn expected_season_normalizes_dates() {
    let value = season(
        3,
        vec![
            obj(vec![("id", num(303)), ("episodeNumber", num(3)), ("name", s("C")), ("airDate", JsonValue::Null)]),
            obj(vec![("id", num(301)), ("episodeNumber", num(1)), ("name", s("A")), ("airDate", s("2017-04-01"))]),
            obj(vec![("id", num(302)), ("episodeNumber", num(2)), ("name", s("B")), ("airDate", s("not-a-date"))]),
        ],
    );
    let season = normalize_expected_season(60625, 3, &valid_details(), &value).unwrap();
    assert_eq!(season.media_id, "60625");
    assert_eq!(season.title, "Rick and Morty");
    assert_eq!(season.season, 3);
    assert_eq!(
        season
            .episodes
            .iter()
            .map(|e| (e.tmdb_id.as_str(), e.episode_number, e.title.as_str()))
            .collect::<Vec<_>>(),
        vec![("303", 3, "C"), ("301", 1, "A"), ("302", 2, "B")]
    );
    assert_eq!(season.episodes[0].air_date, None);
    assert_eq!(season.episodes[1].air_date, Some(CalendarDate { year: 2017, month: 4, day: 1 }));
    assert_eq!(season.episodes[2].air_date, None);
}

#[test]
fn expected_season_requires_all_normalized_fields() {
    let error = normalize_expected_season(60625, 3, &obj(vec![("id", num(60625))]), &season(3, vec![episode(301, 1, "A")]))
        .unwrap_err();
    assert!(is_serialization(&error, "jellyseerr", "get_tv_details"));
    assert_eq!(error.error_code(), ErrorCode::Internal);
    for bad in [
        obj(vec![("episodeNumber", num(1)), ("name", s("A"))]),
        obj(vec![("id", num(301)), ("name", s("A"))]),
        obj(vec![("id", num(301)), ("episodeNumber", num(1))]),
        obj(vec![("id", num(301)), ("episodeNumber", num(1)), ("name", s("  "))]),
        obj(vec![("id", s("")), ("episodeNumber", num(1)), ("name", s("A"))]),
        obj(vec![("id", num(301)), ("episodeNumber", num(-1)), ("name", s("A"))]),
        obj(vec![("id", num(301)), ("episodeNumber", num(i64::from(u32::MAX) + 1)), ("name", s("A"))]),
    ] {
        let error = normalize_expected_season(60625, 3, &valid_details(), &season(3, vec![bad])).unwrap_err();
        assert!(is_serialization(&error, "jellyseerr", "get_tv_season"));
        assert_eq!(error.error_code(), ErrorCode::Internal);
    }
}

#[test]
fn expected_season_rejects_bad_lists_numbers_and_duplicates() {
    let cases = [
        obj(vec![("seasonNumber", num(3))]),
        obj(vec![("seasonNumber", num(3)), ("episodes", obj(vec![("raw", s("UPSTREAM_SECRET"))]))]),
        season(4, vec![episode(301, 1, "A")]),
        season(3, vec![episode(301, 1, "A"), episode(301, 2, "B")]),
        season(3, vec![episode(301, 1, "A"), episode(302, 1, "B")]),
    ];
    for value in cases {
        let error = normalize_expected_season(60625, 3, &valid_details(), &value).unwrap_err();
        assert!(is_serialization(&error, "jellyseerr", "get_tv_season"));
        assert!(!error.public_message().contains("UPSTREAM_SECRET"));
    }
    let zero = normalize_expected_season(60625, 0, &valid_details(), &season(0, vec![episode(1, 1, "A")])).unwrap();
    assert_eq!(zero.season, 0);
}

#[test]
fn query_encoding_escapes_every_reserved_byte() {
    assert_eq!(percent_encode_query("a b/c?é~"), "a%20b%2Fc%3F%C3%A9~");
}

// ---------------------------------------------------------------------------
// Media server
// ---------------------------------------------------------------------------

#[test]
fn library_status_returns_normalized_counts() {
    let status = library_status(&obj(vec![("ItemCount", num(10)), ("MovieCount", num(-1)), ("SeriesCount", s("3"))]));
    assert_eq!(status.item_count, Some(10));
    assert_eq!(status.movie_count, None);
    assert_eq!(status.series_count, None);
    let op = refresh_operation();
    assert_eq!((op.service.as_str(), op.operation.as_str(), op.affected_id), ("jellyfin", "refresh_library", None));
}

#[test]
fn active_sessions_are_normalized_without_raw_source() {
    let sessions = active_sessions(&arr(vec![
        obj(vec![
            ("Id", s("s1")),
            ("UserName", s("ana")),
            ("NowPlayingItem", obj(vec![("Name", s("Alien"))])),
            ("DeviceId", s("secret")),
        ]),
        obj(vec![("UserName", s("no-id"))]),
    ]))
    .unwrap();
    assert_eq!(sessions.len(), 1);
    assert_eq!(sessions[0].id, "s1");
    assert_eq!(sessions[0].user_name.as_deref(), Some("ana"));
    assert_eq!(sessions[0].item_name.as_deref(), Some("Alien"));
    let error = active_sessions(&obj(vec![])).unwrap_err();
    assert!(is_serialization(&error, "jellyfin", "get_active_sessions"));
}

fn series(id: &str, tmdb: &str) -> JsonValue {
    obj(vec![("Id", s(id)), ("ProviderIds", obj(vec![("Tmdb", s(tmdb))]))])
}

#[test]
fn series_matching_needs_exactly_one_provider_match() {
    let listing = vec![series("series-1", "60625"), series("title-only", "not-60625")];
    assert_eq!(match_series(&listing, "60625").unwrap(), Some("series-1".into()));
    assert_eq!(match_series(&listing, "999").unwrap(), None);
    let twice = vec![series("opaque-series-secret-a", "60625"), series("opaque-series-secret-b", "60625")];
    let error = match_series(&twice, "60625").unwrap_err();
    assert!(matches!(error, MediaError::Conflict));
    assert_eq!(error.error_code(), ErrorCode::Conflict);
    assert!(!error.retryable());
    assert_eq!(error.display_message(), "media records conflict");
    assert_eq!(error.public_message(), "media records conflict");
    let blank = vec![series("  ", "60625")];
    assert!(matches!(match_series(&blank, "60625"), Err(MediaError::Internal)));
}

#[test]
fn library_episodes_keep_only_the_requested_season() {
    let items = vec![
        obj(vec![
            ("Id", s("episode-1")),
            ("ProviderIds", obj(vec![("Tmdb", s("301"))])),
            ("ParentIndexNumber", num(3)),
            ("IndexNumber", num(1)),
        ]),
        obj(vec![("Id", s("episode-2")), ("ProviderIds", obj(vec![])), ("ParentIndexNumber", num(3)), ("IndexNumber", num(2))]),
        obj(vec![("Id", s("wrong-season")), ("ProviderIds", obj(vec![("Tmdb", s("ignored"))])), ("ParentIndexNumber", num(4)), ("IndexNumber", num(3))]),
        obj(vec![("Id", s("missing-number")), ("ProviderIds", obj(vec![("Tmdb", s("ignored"))])), ("ParentIndexNumber", num(3))]),
        obj(vec![("Id", s("negative-number")), ("ProviderIds", obj(vec![("Tmdb", s("ignored"))])), ("ParentIndexNumber", num(3)), ("IndexNumber", num(-1))]),
        obj(vec![("ProviderIds", obj(vec![("Tmdb", s("303"))])), ("ParentIndexNumber", num(3)), ("IndexNumber", num(3))]),
        obj(vec![("Id", s("   ")), ("ProviderIds", obj(vec![])), ("ParentIndexNumber", num(3)), ("IndexNumber", num(4))]),
        obj(vec![("Id", s("malformed-season")), ("ProviderIds", obj(vec![("Tmdb", s("ignored"))])), ("ParentIndexNumber", s("3")), ("IndexNumber", num(5))]),
    ];
    let episodes = library_episodes(&items, 3);
    let summary: Vec<(Option<&str>, Option<&str>, u32, u32)> = episodes
        .iter()
        .map(|e| (e.jellyfin_id.as_deref(), e.tmdb_id.as_deref(), e.season_number, e.episode_number))
        .collect();
    assert_eq!(
        summary,
        vec![
            (Some("episode-1"), Some("301"), 3, 1),
            (Some("episode-2"), None, 3, 2),
            (None, Some("303"), 3, 3),
            (None, None, 3, 4),
        ]
    );
    assert!(normalize_library_episode(&items[2], 3).is_none());
}

#[test]
fn listing_paths_are_exact_and_series_ids_are_encoded() {
    assert_eq!(
        series_page_path(200),
        "/Items?Recursive=true&IncludeItemTypes=Series&Fields=ProviderIds&StartIndex=200&Limit=200"
    );
    assert_eq!(percent_encode_path_segment("series /?#%"), "series%20%2F%3F%23%25");
    assert_eq!(
        episode_page_path("series /?#%", 3, 0),
        "/Shows/series%20%2F%3F%23%25/Episodes?Season=3&IsMissing=false&Fields=ProviderIds&StartIndex=0&Limit=200"
    );
}

fn page(count: usize, total: Option<JsonValue>) -> JsonValue {
    let mut members = vec![(
        "Items".to_owned(),
        JsonValue::Array((0..count).map(|_| obj(vec![])).collect()),
    )];
    if let Some(t) = total {
        members.push(("TotalRecordCount".to_owned(), t));
    }
    JsonValue::Object(members)
}

#[test]
fn paging_stops_at_short_pages_or_the_announced_total() {
    match page_step(0, 0, page(200, Some(num(201))), "list_series").unwrap() {
        PageStep::Next { items, start_index } => assert_eq!((items.len(), start_index), (200, 200)),
        PageStep::Done { .. } => panic!("expected another page"),
    }
    match page_step(200, 200, page(1, Some(num(201))), "list_series").unwrap() {
        PageStep::Done { items } => assert_eq!(items.len(), 1),
        PageStep::Next { .. } => panic!("expected the end"),
    }
    match page_step(0, 0, page(200, Some(num(200))), "list_series").unwrap() {
        PageStep::Done { items } => assert_eq!(items.len(), 200),
        PageStep::Next { .. } => panic!("expected the end"),
    }
}

#[test]
fn paging_rejects_repeated_full_pages_instead_of_truncating_at_the_cap() {
    let mut collected = 0usize;
    let mut start = 0usize;
    let mut requests = 0;
    let error = loop {
        requests += 1;
        match page_step(collected, start, page(200, None), "list_series") {
            Ok(PageStep::Next { items, start_index }) => {
                collected += items.len();
                start = start_index;
            }
            Ok(PageStep::Done { .. }) => panic!("full pages never end the listing"),
            Err(error) => break error,
        }
    };
    assert!(matches!(error, MediaError::Internal));
    assert_eq!(requests, 51);
    assert_eq!(start, 10000);
    assert_eq!(error.public_message(), "media backend returned invalid normalized data");
}

#[test]
fn paging_rejects_malformed_pages_without_exposing_upstream_data() {
    let bad_count = obj(vec![("Items", obj(vec![("raw", s("UPSTREAM_SECRET"))])), ("TotalRecordCount", s("MALFORMED_COUNT_SECRET"))]);
    let error = page_step(0, 0, bad_count, "list_series").unwrap_err();
    assert_eq!(error.error_code(), ErrorCode::Internal);
    assert!(!error.public_message().contains("SECRET"));
    let bad_items = obj(vec![("Items", obj(vec![("raw", s("UPSTREAM_SECRET"))]))]);
    let error = page_step(0, 0, bad_items, "list_series").unwrap_err();
    assert!(is_serialization(&error, "jellyfin", "list_series"));
    assert!(matches!(page_step(0, 0, page(1, Some(num(10001))), "x"), Err(MediaError::Internal)));
}

#[test]
fn normalized_data_errors_have_fixed_codes_and_redacted_messages() {
    let internal = MediaError::Internal;
    assert_eq!(internal.error_code(), ErrorCode::Internal);
    assert!(!internal.retryable());
    assert_eq!(internal.display_message(), "media normalized data is invalid");
    assert_eq!(internal.public_message(), "media backend returned invalid normalized data");
}

// ---------------------------------------------------------------------------
// Download manager
// ---------------------------------------------------------------------------

#[test]
fn download_ids_must_name_one_download() {
    assert!(sabnzbd::require_id("q1").is_ok());
    for bad in ["  ", "", "\t", "\n", " ALL ", "all"] {
        match sabnzbd::require_id(bad) {
            Err(MediaError::Validation(m)) => assert_eq!(m, "a specific nzo_id is required"),
            other => panic!("unexpected {other:?}"),
        }
    }
}

#[test]
fn list_downloads_normalizes_queue_and_failed_history_without_raw_source() {
    let queue = obj(vec![(
        "queue",
        obj(vec![(
            "slots",
            arr(vec![obj(vec![
                ("nzo_id", s("q1")),
                ("filename", s("Movie")),
                ("status", s("Downloading")),
                ("percentage", s("50")),
                ("size", s("1 GB")),
                ("secret", s("raw")),
            ])]),
        )]),
    )]);
    let history = obj(vec![(
        "history",
        obj(vec![(
            "slots",
            arr(vec![obj(vec![("nzo_id", s("h1")), ("name", s("Failed")), ("status", s("Failed")), ("size", s("2 GB"))])]),
        )]),
    )]);
    assert!(includes_queue(None) && includes_history(None));
    assert!(!includes_queue(Some("history")) && includes_history(Some("history")));
    assert!(includes_queue(Some("queue")) && !includes_history(Some("queue")));
    let mut downloads = Vec::new();
    append_downloads(&mut downloads, &queue, false);
    append_downloads(&mut downloads, &history, true);
    assert_eq!(downloads.len(), 2);
    assert_eq!(downloads[0].id, "q1");
    assert_eq!(downloads[0].name, "Movie");
    assert_eq!(downloads[0].percentage.as_deref(), Some("50"));
    assert_eq!(downloads[1].id, "h1");
    assert_eq!(downloads[1].status, "Failed");
    assert_eq!(downloads[1].size.as_deref(), Some("2 GB"));
}

#[test]
fn queue_and_history_slots_read_their_own_fallbacks() {
    let slot = obj(vec![
        ("nzo_id", num(7)),
        ("name", s("by-name")),
        ("filename", s("by-file")),
        ("mb", JsonValue::Float { display: "1.5".into(), json: "1.5".into() }),
        ("bytes", num(2048)),
    ]);
    let queued = normalize_queue_item(&slot).unwrap();
    assert_eq!((queued.id.as_str(), queued.name.as_str(), queued.size.as_deref()), ("7", "by-file", Some("1.5")));
    let past = normalize_history_item(&slot).unwrap();
    assert_eq!((past.name.as_str(), past.size.as_deref(), past.status.as_str()), ("by-name", Some("2048"), ""));
    assert!(normalize_queue_item(&obj(vec![("name", s("x"))])).is_none());
    assert_eq!(
        sabnzbd::scalar_string(&JsonValue::Float { display: "100000000000000000000".into(), json: "1e20".into() }),
        Some("100000000000000000000".into())
    );
}

#[test]
fn pause_resume_delete_and_retry_validate_action_responses() {
    let named = |id: &str| obj(vec![("status", JsonValue::Bool(true)), ("nzo_ids", arr(vec![s(id)]))]);
    let op = queue_action_outcome("pause_download", &named("q1"), "q1").unwrap();
    assert_eq!((op.service.as_str(), op.operation.as_str(), op.affected_id.as_deref()), ("sabnzbd", "pause_download", Some("q1")));
    assert!(action_contains_id(&named("q2"), "q2"));
    match after_queue_delete(&named("q3"), "q3") {
        DeleteStep::Deleted(op) => assert_eq!(op.affected_id.as_deref(), Some("q3")),
        _ => panic!("expected a deletion"),
    }
    let ok = obj(vec![("status", JsonValue::Bool(true))]);
    assert_eq!(confirmed_outcome("retry_failed_download", &ok, "h1").unwrap().affected_id.as_deref(), Some("h1"));
    assert_eq!(del_files_flag(true), "1");
    assert_eq!(del_files_flag(false), "0");
    assert_eq!(operation("delete_download", "q3").operation, "delete_download");
}

#[test]
fn false_or_malformed_action_response_is_an_upstream_error() {
    let refused = obj(vec![("status", JsonValue::Bool(false)), ("nzo_ids", arr(vec![]))]);
    let error = queue_action_outcome("pause_download", &refused, "q1").unwrap_err();
    assert!(matches!(&error, MediaError::Upstream(u) if u.operation == "pause_download" && u.status.is_none() && !u.retryable));
    assert!(matches!(after_queue_delete(&refused, "q1"), DeleteStep::Failed(MediaError::Upstream(_))));
    let elsewhere = obj(vec![("status", JsonValue::Bool(true)), ("nzo_ids", arr(vec![s("other")]))]);
    assert!(matches!(after_queue_delete(&elsewhere, "q1"), DeleteStep::TryHistory));
    let malformed = obj(vec![("status", JsonValue::Bool(true))]);
    assert!(matches!(after_queue_delete(&malformed, "q1"), DeleteStep::Failed(_)));
    assert!(confirmed_outcome("retry_failed_download", &refused, "h1").is_err());
    assert!(reports_error(&obj(vec![("error", s("API Key Incorrect"))])));
    assert!(!reports_error(&obj(vec![("error", JsonValue::Null)])));
    assert!(!reports_error(&obj(vec![])));
}

// ---------------------------------------------------------------------------
// Service
// ---------------------------------------------------------------------------

#[test]
fn service_uses_exact_operation_names_and_risk_levels() {
    let info = describe(MediaAction::DeleteDownload { delete_files: true });
    assert_eq!((info.operation, info.risk, info.summary), ("media.downloads.delete", Risk::Destructive, "media download deleted"));
    assert_eq!(describe(MediaAction::DeleteDownload { delete_files: false }).risk, Risk::Write);
    assert_eq!(describe(MediaAction::Search).risk, Risk::Read);
    assert_eq!(describe(MediaAction::ActiveSessions).operation, "media.sessions.list");
    assert_eq!(describe(MediaAction::RefreshLibrary).summary, "media library refresh started");
}

#[test]
fn health_reports_degraded_and_unavailable_data() {
    let down = || Err(MediaError::upstream("sabnzbd", "health", Some(503), false));
    let report = health_report(Ok(()), down(), Ok(()));
    assert_eq!(report.health.status, HealthStatus::Degraded);
    assert_eq!(report.summary, "one or more media backends are degraded");
    assert_eq!(report.issues.len(), 1);
    assert_eq!(report.issues[0].field, "sabnzbd");
    assert_eq!(report.issues[0].message, "sabnzbd is unavailable");
    let all_down = health_report(
        Err(MediaError::Internal),
        down(),
        Err(MediaError::transport("jellyfin", "health", true, false, false)),
    );
    assert_eq!(all_down.health.status, HealthStatus::Unavailable);
    assert_eq!(all_down.issues.len(), 3);
    assert_eq!(all_down.summary, "all media backends are unavailable");
    let healthy = health_report(Ok(()), Ok(()), Ok(()));
    assert_eq!(healthy.health.status, HealthStatus::Healthy);
    assert!(healthy.issues.is_empty());
    let backend = backend_health("jellyfin", Ok(()));
    assert!(backend.healthy && backend.message.is_none());
}

// ---------------------------------------------------------------------------
// Configuration
// ---------------------------------------------------------------------------

fn config_error(result: Result<ServiceConfig, MediaError>) -> String {
    match result {
        Err(MediaError::Config(m)) => m,
        Err(other) => panic!("unexpected {other:?}"),
        Ok(_) => panic!("expected a refusal"),
    }
}

#[test]
fn service_configs_are_checked_and_normalized() {
    let config = ServiceConfig::new("jellyseerr", "  http://jellyseerr:5055// ", "key").unwrap();
    assert_eq!(config.base_url(), "http://jellyseerr:5055");
    assert_eq!(config.api_key(), "key");
    assert_eq!(config.name(), "jellyseerr");
    assert_eq!(config_error(ServiceConfig::new("jellyseerr", " / ", "key")), "JELLYSEERR_BASE_URL is required");
    assert_eq!(config_error(ServiceConfig::new("sabnzbd", "not a url", "key")), "SABNZBD_BASE_URL is invalid");
    assert_eq!(config_error(ServiceConfig::new("jellyfin", "ftp://host", "key")), "JELLYFIN_BASE_URL must be an HTTP URL");
    assert_eq!(config_error(ServiceConfig::new("jellyfin", "http://host", " ")), "JELLYFIN_API_KEY is required");
}

#[test]
fn media_config_uses_in_cluster_defaults_and_requires_keys() {
    let config = MediaConfig::from_settings(None, Some("a".into()), None, Some("b".into()), None, Some("c".into())).unwrap();
    assert_eq!(config.jellyseerr.base_url(), "http://jellyseerr.jellyseerr.svc.cluster.local:5055");
    assert_eq!(config.sabnzbd.base_url(), "http://sabnzbd.sabnzbd.svc.cluster.local:8080");
    assert_eq!(config.jellyfin.base_url(), "http://jellyfin.jellyfin.svc.cluster.local:8096");
    match MediaConfig::from_settings(None, Some("a".into()), None, None, None, None) {
        Err(MediaError::Config(m)) => assert_eq!(m, "SABNZBD_API_KEY is required"),
        _ => panic!("expected the download manager's key to be required"),
    }
}

#[test]
fn request_body_names_type_id_and_series_seasons() {
    assert_eq!(
        to_json_text(&request_body(MediaType::Movie, 603, None)),
        "{\"mediaType\":\"movie\",\"mediaId\":603}"
    );
    assert_eq!(
        to_json_text(&request_body(MediaType::Tv, 60625, Some(&vec![1, 2, 3]))),
        "{\"mediaType\":\"tv\",\"mediaId\":60625,\"seasons\":[1,2,3]}"
    );
}

fn upstream(operation: &str, status: Option<u16>, retryable: bool) -> MediaError {
    MediaError::Upstream(UpstreamError {
        service: "jellyseerr".into(),
        operation: operation.into(),
        status,
        retryable,
    })
}

#[test]
fn public_message_tells_only_kind_service_and_status_class() {
    assert_eq!(upstream("search", Some(401), false).public_message(), "jellyseerr rejected the request");
    assert_eq!(
        upstream("search", Some(401), false).public_message(),
        upstream("request.create", Some(403), true).public_message()
    );
    assert_eq!(upstream("items", Some(404), true).public_message(), "jellyseerr resource was not found");
    assert_eq!(
        upstream("search", Some(500), true).public_message(),
        upstream("approve", None, false).public_message()
    );
    assert_eq!(upstream("search", Some(429), true).public_message(), "jellyseerr is unavailable");
    assert_eq!(
        MediaError::Config("SECRET=abc".into()).public_message(),
        MediaError::Config("other".into()).public_message()
    );
    let timeout = |operation: &str, retryable: bool| {
        MediaError::Transport(TransportError {
            service: "sabnzbd".into(),
            operation: operation.into(),
            timeout: true,
            retryable,
            unknown_outcome: false,
        })
    };
    assert_eq!(timeout("queue", true).public_message(), timeout("pause", false).public_message());
    assert_eq!(timeout("queue", true).public_message(), "sabnzbd did not respond in time");
}
