use homelab_mcp::api_model::{
    AvailabilityEpisode, AvailabilitySeries, CalendarDate, Capabilities, ApiVersion,
    CompletenessStatus, CompletenessSummary, CreateMediaRequest, EpisodePresence,
    EpisodeReleaseStatus, HealthStatus, MediaType, SeasonAvailability,
};
use homelab_mcp::cli::table::{availability_table, cell, safe_field, status, table};
use homelab_mcp::cli::{
    error_code_exit, error_report, exit_after_output, health_exit, local_error, local_error_at,
    parse_correlation_id, success_exit, ClientError, Command, DownloadsCommand, ErrorReport,
    ItemCommand, LibraryCommand, MediaCommand, MediaTypeArg, RequestCommand, RequestsCommand,
    SessionsCommand,
};
use homelab_mcp::client::{
    api_call, base_url_path, check_capabilities, configured_base_url, HttpMethod, ResponseKind,
};
use homelab_mcp::json::{to_json_text, JsonValue};
use homelab_mcp::urls::UrlFacts;

fn text(t: &str) -> JsonValue {
    JsonValue::Str(t.to_owned())
}

fn object(members: Vec<(&str, JsonValue)>) -> JsonValue {
    JsonValue::Object(members.into_iter().map(|(k, v)| (k.to_owned(), v)).collect())
}

fn envelope(ok: bool, data: Option<JsonValue>) -> JsonValue {
    let mut members = vec![
        ("ok", JsonValue::Bool(ok)),
        ("operation", text("media.search")),
        ("request_id", text("req-1")),
        ("summary", object(vec![("text", text("media search completed"))])),
    ];
    if let Some(d) = data {
        members.push(("data", d));
    }
    if !ok {
        members.push(("error", object(vec![("code", text("not_found"))])));
    }
    object(members)
}

#[test]
fn json_text_is_compact_and_quotes_strings() {
    let value = object(vec![
        ("a", JsonValue::Array(vec![JsonValue::Int(-3), JsonValue::UInt(u64::MAX), JsonValue::Null])),
        ("b", text("say \"hi\"\n")),
        ("c", JsonValue::Float { display: "0.5".into(), json: "0.5".into() }),
        ("d", JsonValue::Bool(true)),
        ("e", JsonValue::Object(Vec::new())),
    ]);
    assert_eq!(
        to_json_text(&value),
        "{\"a\":[-3,18446744073709551615,null],\"b\":\"say \\\"hi\\\"\\n\",\"c\":0.5,\"d\":true,\"e\":{}}"
    );
}

#[test]
fn cells_are_single_lines_cut_at_forty_characters() {
    assert_eq!(cell(&JsonValue::Null), "-");
    assert_eq!(cell(&text("a\tb\nc\rd")), "a b c d");
    assert_eq!(cell(&JsonValue::Int(42)), "42");
    assert_eq!(cell(&JsonValue::Array(vec![text("x")])), "[\"x\"]");
    let long = "x".repeat(41);
    assert_eq!(cell(&text(&long)), format!("{}...", "x".repeat(40)));
    assert_eq!(cell(&text(&"y".repeat(40))), "y".repeat(40));
    assert_eq!(cell(&text(&"é".repeat(45))), format!("{}...", "é".repeat(40)));
}

#[test]
fn secret_looking_field_names_are_not_safe() {
    assert!(safe_field("title"));
    assert!(!safe_field("Api_Key"));
    assert!(!safe_field("X-AUTHORIZATION"));
    assert!(!safe_field("refreshToken"));
    assert!(!safe_field("db_password"));
    assert!(!safe_field("clientSecret"));
    assert!(!safe_field("credentials"));
}

#[test]
fn status_reports_partial_and_unavailable_health() {
    assert_eq!(status(&envelope(false, None)), "error");
    assert_eq!(status(&envelope(true, None)), "ok");
    assert_eq!(status(&envelope(true, Some(object(vec![("status", text("degraded"))])))), "partial");
    assert_eq!(
        status(&envelope(true, Some(object(vec![("status", text("unavailable"))])))),
        "unavailable"
    );
    assert_eq!(status(&envelope(true, Some(object(vec![("status", text("healthy"))])))), "ok");
    assert_eq!(status(&object(vec![("ok", text("true"))])), "error");
}

#[test]
fn failed_operation_table_shows_the_error_code() {
    assert_eq!(
        table(&envelope(false, None)),
        "OPERATION: media.search\nREQUEST ID: req-1\nSTATUS: error\nSUMMARY: media search completed\nERROR: not_found\n"
    );
    assert_eq!(
        table(&object(Vec::new())),
        "OPERATION: -\nREQUEST ID: -\nSTATUS: error\nSUMMARY: -\nERROR: -\n"
    );
}

#[test]
fn object_data_lists_safe_fields_only() {
    let data = object(vec![
        ("api_key", text("do-not-print")),
        ("status", text("healthy")),
        ("count", JsonValue::Int(3)),
    ]);
    assert_eq!(
        table(&envelope(true, Some(data))),
        "OPERATION: media.search\nREQUEST ID: req-1\nSTATUS: ok\nSUMMARY: media search completed\n\nFIELD | VALUE\n------|------\nstatus | healthy\ncount | 3\n"
    );
}

#[test]
fn object_data_shows_at_most_twenty_fields() {
    let members: Vec<(String, JsonValue)> =
        (0..25).map(|i| (format!("f{i}"), JsonValue::Int(i))).collect();
    let out = table(&envelope(true, Some(JsonValue::Object(members))));
    assert!(out.contains("f19 | 19\n"));
    assert!(!out.contains("f20"));
}

#[test]
fn array_data_is_a_bounded_table_without_credentials() {
    let rows: Vec<JsonValue> = (0..30)
        .map(|i| {
            object(vec![
                ("id", text(&format!("{i}"))),
                ("title", text(&format!("Title {i}"))),
                ("api_key", text("do-not-print")),
            ])
        })
        .collect();
    let out = table(&envelope(true, Some(JsonValue::Array(rows))));
    assert!(out.contains("\nid | title\n------|------\n0 | Title 0\n"));
    assert!(out.contains("Title 19"));
    assert!(!out.contains("Title 20"));
    assert!(!out.contains("api_key"));
    assert!(!out.contains("do-not-print"));
    assert!(out.lines().count() <= 28);
}

#[test]
fn array_columns_are_capped_and_missing_cells_are_dashes() {
    let first = object((0..8).map(|i| (["a", "b", "c", "d", "e", "f", "g", "h"][i], JsonValue::Int(i as i64))).collect());
    let second = object(vec![("b", text("two"))]);
    let out = table(&envelope(true, Some(JsonValue::Array(vec![first, text("skipped"), second]))));
    assert!(out.ends_with("\na | b | c | d | e | f\n------|------|------|------|------|------\n0 | 1 | 2 | 3 | 4 | 5\n- | two | - | - | - | -\n"));
}

#[test]
fn array_of_plain_values_lists_one_cell_per_line() {
    let out = table(&envelope(true, Some(JsonValue::Array(vec![text("a"), JsonValue::Null, JsonValue::Int(2)]))));
    assert!(out.ends_with("SUMMARY: media search completed\na\n-\n2\n"));
}

#[test]
fn scalar_data_is_one_cell() {
    let out = table(&envelope(true, Some(JsonValue::Bool(true))));
    assert!(out.ends_with("SUMMARY: media search completed\n\ntrue\n"));
}

fn season() -> SeasonAvailability {
    SeasonAvailability {
        series: AvailabilitySeries {
            media_id: "60625".into(),
            jellyfin_id: Some("jf".into()),
            title: "Rick and Morty".into(),
        },
        season: 3,
        as_of: CalendarDate { year: 2024, month: 5, day: 1 },
        in_library: true,
        aired: CompletenessSummary {
            status: CompletenessStatus::Complete,
            expected_count: 10,
            available_count: 10,
            missing_count: 0,
        },
        announced: CompletenessSummary {
            status: CompletenessStatus::Incomplete,
            expected_count: 11,
            available_count: 10,
            missing_count: 1,
        },
        unknown_air_date_count: 0,
        next_airing: Some(AvailabilityEpisode {
            episode_id: "e11".into(),
            episode_number: 11,
            title: "Next".into(),
            air_date: Some(CalendarDate { year: 2024, month: 6, day: 9 }),
            release_status: EpisodeReleaseStatus::Future,
            presence: EpisodePresence::Missing,
        }),
        episodes: None,
    }
}

#[test]
fn availability_table_has_one_row_for_the_season() {
    let data = season();
    let out = availability_table("media.library.availability", "req-2", true, "season checked", None, Some(&data));
    assert_eq!(
        out,
        "OPERATION: media.library.availability\nREQUEST ID: req-2\nSTATUS: ok\nSUMMARY: season checked\n\nTITLE | SEASON | IN_LIBRARY | AIRED | ANNOUNCED | AVAILABLE | EXPECTED | NEXT_AIRING\n------|------|------|------|------|------|------|------\nRick and Morty | 3 | true | complete | incomplete | 10 | 11 | E11 2024-06-09\n"
    );
}

#[test]
fn availability_table_of_a_failure_shows_its_code() {
    let out = availability_table("op", "rid", false, "failed", Some("not_found"), None);
    assert_eq!(out, "OPERATION: op\nREQUEST ID: rid\nSTATUS: error\nSUMMARY: failed\nERROR: not_found\n");
    let out = availability_table("op", "rid", false, "failed", None, None);
    assert!(out.ends_with("ERROR: -\n"));
}

#[test]
fn availability_table_without_air_date_shows_dash() {
    let mut data = season();
    data.next_airing = None;
    let out = availability_table("op", "rid", true, "ok", None, Some(&data));
    assert!(out.ends_with("| 10 | 11 | -\n"));
}

#[test]
fn dates_show_as_chrono_displays_them() {
    assert_eq!(CalendarDate { year: 2024, month: 3, day: 5 }.text(), "2024-03-05");
    assert_eq!(CalendarDate { year: 7, month: 12, day: 31 }.text(), "0007-12-31");
    assert_eq!(CalendarDate { year: 12345, month: 6, day: 7 }.text(), "+12345-06-07");
    assert_eq!(CalendarDate { year: -1, month: 1, day: 1 }.text(), "-0001-01-01");
    let chrono_text = chrono::NaiveDate::from_ymd_opt(-44, 3, 15).unwrap().to_string();
    assert_eq!(CalendarDate { year: -44, month: 3, day: 15 }.text(), chrono_text);
}

#[test]
fn exit_classes_follow_error_codes_and_health() {
    assert_eq!(success_exit(true, false, None), 0);
    assert_eq!(success_exit(true, true, None), 6);
    assert_eq!(success_exit(false, false, Some("forbidden")), 3);
    assert_eq!(success_exit(false, false, None), 1);
    assert_eq!(error_code_exit(Some("unknown_outcome")), 5);
    assert_eq!(health_exit(true, true, None, Some(HealthStatus::Degraded)), 6);
    assert_eq!(health_exit(true, true, None, Some(HealthStatus::Unavailable)), 5);
    assert_eq!(health_exit(true, false, None, Some(HealthStatus::Healthy)), 0);
    assert_eq!(health_exit(true, false, None, None), 0);
    assert_eq!(health_exit(false, false, Some("validation"), Some(HealthStatus::Unavailable)), 2);
    assert_eq!(exit_after_output(4, true), 4);
    assert_eq!(exit_after_output(0, false), 1);
}

#[test]
fn client_failures_become_local_reports() {
    match error_report(&ClientError::Transport { timed_out: true }, "rid") {
        ErrorReport::Local { request_id, code, message, retryable, exit } => {
            assert_eq!(request_id, "rid");
            assert_eq!(code, "timeout");
            assert_eq!(message, "homelab API request timed out");
            assert!(retryable);
            assert_eq!(exit, 5);
        }
        other => panic!("unexpected {other:?}"),
    }
    match error_report(&ClientError::Transport { timed_out: false }, "rid") {
        ErrorReport::Local { code, exit, .. } => {
            assert_eq!(code, "unavailable");
            assert_eq!(exit, 5);
        }
        other => panic!("unexpected {other:?}"),
    }
    match error_report(&ClientError::IncompatibleApi { expected: 1, actual: 2 }, "rid") {
        ErrorReport::Local { code, retryable, exit, .. } => {
            assert_eq!(code, "conflict");
            assert!(!retryable);
            assert_eq!(exit, 4);
        }
        other => panic!("unexpected {other:?}"),
    }
    match error_report(&ClientError::InvalidBaseUrl { reason: "a host is required" }, "rid") {
        ErrorReport::Local { code, message, exit, .. } => {
            assert_eq!(code, "validation");
            assert_eq!(message, "HOMELAB_API_URL must be an absolute HTTP(S) URL ending in /api/v1");
            assert_eq!(exit, 2);
        }
        other => panic!("unexpected {other:?}"),
    }
    match error_report(&ClientError::Decode { status: 502, request_id: Some("server-id".into()) }, "rid") {
        ErrorReport::Local { request_id, code, exit, .. } => {
            assert_eq!(request_id, "server-id");
            assert_eq!(code, "internal");
            assert_eq!(exit, 1);
        }
        other => panic!("unexpected {other:?}"),
    }
    assert_eq!(
        error_report(&ClientError::Api { status: 404, error_code: Some("not_found".into()) }, "rid"),
        ErrorReport::Envelope { exit: 4 }
    );
}

#[test]
fn local_error_document_has_the_fixed_shape() {
    let doc = local_error_at("media.search", "rid", "read", "validation", "bad input", false, "2024-01-01T00:00:00Z");
    assert_eq!(
        to_json_text(&doc),
        "{\"ok\":false,\"operation\":\"media.search\",\"request_id\":\"rid\",\"risk\":\"read\",\"summary\":{\"text\":\"bad input\"},\"error\":{\"code\":\"validation\",\"message\":\"bad input\",\"retryable\":false},\"provenance\":{\"service\":\"homelab-cli\",\"timestamp\":\"2024-01-01T00:00:00Z\"}}"
    );
    let stamped = local_error("op", "rid", "write", "internal", "oops", true);
    let ts = match &stamped {
        JsonValue::Object(ms) => match &ms[6].1 {
            JsonValue::Object(p) => match &p[1].1 {
                JsonValue::Str(t) => t.clone(),
                other => panic!("unexpected {other:?}"),
            },
            other => panic!("unexpected {other:?}"),
        },
        other => panic!("unexpected {other:?}"),
    };
    assert!(chrono::DateTime::parse_from_rfc3339(&ts).is_ok());
    assert!(ts.ends_with('Z'));
}

#[test]
fn request_ids_must_be_header_values() {
    assert_eq!(parse_correlation_id("abc-123"), Ok("abc-123".to_owned()));
    assert_eq!(parse_correlation_id("tab\tok"), Ok("tab\tok".to_owned()));
    assert_eq!(parse_correlation_id("ünïcode"), Ok("ünïcode".to_owned()));
    let message = "request ID must be a non-empty HTTP header value".to_owned();
    assert_eq!(parse_correlation_id(""), Err(message.clone()));
    assert_eq!(parse_correlation_id("bad\nid"), Err(message.clone()));
    assert_eq!(parse_correlation_id("del\u{7f}"), Err(message));
}

fn segments(command: Command) -> (HttpMethod, Vec<String>, Vec<(String, String)>, bool) {
    let call = api_call(&command);
    (call.method, call.segments, call.query, call.checks_compatibility)
}

fn owned(v: &[&str]) -> Vec<String> {
    v.iter().map(|s| s.to_string()).collect()
}

#[test]
fn every_command_uses_its_fixed_route() {
    assert_eq!(segments(Command::Capabilities), (HttpMethod::Get, owned(&["capabilities"]), vec![], false));
    assert_eq!(
        segments(Command::Media { command: MediaCommand::Health }),
        (HttpMethod::Get, owned(&["health"]), vec![], false)
    );
    assert_eq!(
        segments(Command::Media { command: MediaCommand::Search { query: "Alien".into() } }),
        (HttpMethod::Get, owned(&["media", "search"]), vec![("query".into(), "Alien".into())], false)
    );
    assert_eq!(
        segments(Command::Media {
            command: MediaCommand::Item {
                command: ItemCommand::Show { item_id: "603".into(), media_type: MediaTypeArg::Movie },
            },
        }),
        (HttpMethod::Get, owned(&["media", "items", "603"]), vec![("media_type".into(), "movie".into())], false)
    );
    assert_eq!(
        segments(Command::Media {
            command: MediaCommand::Requests { command: RequestsCommand::Approve { request_id: "7".into() } },
        }),
        (HttpMethod::Post, owned(&["media", "requests", "7", "approve"]), vec![], true)
    );
    assert_eq!(
        segments(Command::Media {
            command: MediaCommand::Requests { command: RequestsCommand::List { status: Some("pending".into()) } },
        }),
        (HttpMethod::Get, owned(&["media", "requests"]), vec![("status".into(), "pending".into())], false)
    );
    assert_eq!(
        segments(Command::Media {
            command: MediaCommand::Downloads {
                command: DownloadsCommand::Delete { download_id: "nzo-1".into(), delete_files: true },
            },
        }),
        (HttpMethod::Delete, owned(&["media", "downloads", "nzo-1"]), vec![("delete_files".into(), "true".into())], true)
    );
    assert_eq!(
        segments(Command::Media {
            command: MediaCommand::Downloads { command: DownloadsCommand::List { status: None } },
        }),
        (HttpMethod::Get, owned(&["media", "downloads"]), vec![], false)
    );
    assert_eq!(
        segments(Command::Media { command: MediaCommand::Library { command: LibraryCommand::Refresh } }),
        (HttpMethod::Post, owned(&["media", "library", "refresh"]), vec![], true)
    );
    assert_eq!(
        segments(Command::Media { command: MediaCommand::Sessions { command: SessionsCommand::List } }),
        (HttpMethod::Get, owned(&["media", "sessions"]), vec![], false)
    );
}

#[test]
fn season_availability_is_a_read_with_its_query() {
    let command = Command::Media {
        command: MediaCommand::Library { command: LibraryCommand::Availability { media_id: 60625, season: 3 } },
    };
    assert_eq!(command.operation_and_risk(), ("media.library.availability", "read"));
    let call = api_call(&command);
    assert_eq!(call.method, HttpMethod::Get);
    assert_eq!(call.segments, owned(&["media", "library", "availability"]));
    assert_eq!(
        call.query,
        vec![("media_id".to_string(), "60625".to_string()), ("season".to_string(), "3".to_string())]
    );
    assert!(!call.checks_compatibility);
    assert_eq!(call.body, None);
    assert_eq!(call.response, ResponseKind::SeasonAvailability);
    let specials = api_call(&Command::Media {
        command: MediaCommand::Library { command: LibraryCommand::Availability { media_id: -4, season: 0 } },
    });
    assert_eq!(
        specials.query,
        vec![("media_id".to_string(), "-4".to_string()), ("season".to_string(), "0".to_string())]
    );
}

#[test]
fn create_request_sends_its_body() {
    let call = api_call(&Command::Media {
        command: MediaCommand::Request {
            command: RequestCommand::Create { media_id: 60625, media_type: MediaTypeArg::Tv },
        },
    });
    assert_eq!(call.method, HttpMethod::Post);
    assert_eq!(call.segments, owned(&["media", "requests"]));
    assert_eq!(call.body, Some(CreateMediaRequest { media_id: 60625, media_type: MediaType::Tv }));
    assert!(call.checks_compatibility);
    assert_eq!(call.response, ResponseKind::Request);
}

fn facts(scheme: &str, path: &str) -> UrlFacts {
    UrlFacts {
        scheme: scheme.into(),
        cannot_be_a_base: false,
        has_host: true,
        username: String::new(),
        has_password: false,
        has_query: false,
        has_fragment: false,
        path: path.into(),
    }
}

#[test]
fn base_url_must_be_a_plain_api_prefix() {
    assert_eq!(base_url_path(&facts("https", "/api/v1")), Ok("/api/v1/".to_owned()));
    assert_eq!(base_url_path(&facts("http", "/homelab/api/v1///")), Ok("/homelab/api/v1/".to_owned()));
    assert_eq!(
        base_url_path(&facts("ftp", "/api/v1")),
        Err(ClientError::InvalidBaseUrl { reason: "an absolute HTTP(S) URL is required" })
    );
    assert_eq!(
        base_url_path(&facts("https", "/api/v2")),
        Err(ClientError::InvalidBaseUrl { reason: "path must end in /api/v1" })
    );
    let mut f = facts("https", "/api/v1");
    f.username = "user".into();
    assert_eq!(base_url_path(&f), Err(ClientError::InvalidBaseUrl { reason: "embedded credentials are not allowed" }));
    let mut f = facts("https", "/api/v1");
    f.has_query = true;
    assert_eq!(
        base_url_path(&f),
        Err(ClientError::InvalidBaseUrl { reason: "query strings and fragments are not allowed" })
    );
    let mut f = facts("https", "/api/v1");
    f.has_host = false;
    assert_eq!(base_url_path(&f), Err(ClientError::InvalidBaseUrl { reason: "a host is required" }));
}

#[test]
fn configured_base_url_is_read_by_the_url_parser() {
    assert_eq!(configured_base_url(None).unwrap_err(), "HOMELAB_API_URL is required");
    assert_eq!(
        configured_base_url(Some("not a url")).unwrap_err(),
        "HOMELAB_API_URL must be an absolute HTTP(S) URL ending in /api/v1"
    );
    let f = configured_base_url(Some("https://user:pw@homelab.example:8443/api/v1?x=1#top")).unwrap();
    assert_eq!(f.scheme, "https");
    assert!(f.has_host);
    assert_eq!(f.username, "user");
    assert!(f.has_password);
    assert!(f.has_query);
    assert!(f.has_fragment);
    assert_eq!(f.path, "/api/v1");
    let f = configured_base_url(Some("mailto:someone@example.com")).unwrap();
    assert!(f.cannot_be_a_base);
    assert_eq!(
        base_url_path(&f),
        Err(ClientError::InvalidBaseUrl { reason: "an absolute HTTP(S) URL is required" })
    );
}

#[test]
fn capabilities_must_be_present_and_compatible() {
    assert_eq!(
        check_capabilities(None, "server-rid"),
        Err(ClientError::Decode { status: 200, request_id: Some("server-rid".into()) })
    );
    let good = Capabilities { api: ApiVersion { major: 1, minor: 1 }, compatible_cli_major: 1, operations: vec![] };
    assert_eq!(check_capabilities(Some(&good), "rid"), Ok(()));
    let newer = Capabilities { api: ApiVersion { major: 2, minor: 0 }, compatible_cli_major: 1, operations: vec![] };
    assert_eq!(
        check_capabilities(Some(&newer), "rid"),
        Err(ClientError::IncompatibleApi { expected: 1, actual: 2 })
    );
    let old_cli = Capabilities { api: ApiVersion { major: 1, minor: 0 }, compatible_cli_major: 3, operations: vec![] };
    assert_eq!(
        check_capabilities(Some(&old_cli), "rid"),
        Err(ClientError::IncompatibleApi { expected: 1, actual: 3 })
    );
}

#[test]
fn json_strings_are_escaped_as_serde_json_writes_them() {
    let value = JsonValue::Str("a\"b\\c\n\t\r\u{8}\u{c}\u{1}\u{1f}\u{7f}é/".into());
    assert_eq!(to_json_text(&value), "\"a\\\"b\\\\c\\n\\t\\r\\b\\f\\u0001\\u001f\u{7f}é/\"");
    assert_eq!(to_json_text(&JsonValue::Str(String::new())), "\"\"");
}
