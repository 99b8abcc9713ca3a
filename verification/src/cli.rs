//! The curated `homelab` command tree, the operation and risk class of each
//! command, argument checks and process exit classes.
pub mod table;

use crate::api_model::{Capabilities, HealthStatus, MediaType, API_MAJOR};
use crate::json::{bool_of, field, str_of, JsonValue};
use crate::text::{char_is_ascii_digit, is_ascii_digit, str_eq, string_of};
use vstd::prelude::*;

verus! {

#[derive(Clone, Copy, Debug, PartialEq, Eq, Structural)]
pub enum OutputFormat {
    Json,
    Table,
}

#[derive(Clone, Copy, Debug, PartialEq, Eq, Structural)]
pub enum MediaTypeArg {
    Movie,
    Tv,
}

pub open spec fn media_type_of_arg(value: MediaTypeArg) -> MediaType {
    match value {
        MediaTypeArg::Movie => MediaType::Movie,
        MediaTypeArg::Tv => MediaType::Tv,
    }
}

impl From<MediaTypeArg> for MediaType {
    fn from(value: MediaTypeArg) -> (r: Self) {
        match value {
            MediaTypeArg::Movie => MediaType::Movie,
            MediaTypeArg::Tv => MediaType::Tv,
        }
    }
}

impl vstd::std_specs::convert::FromSpecImpl<MediaTypeArg> for MediaType {
    open spec fn obeys_from_spec() -> bool {
        true
    }

    open spec fn from_spec(v: MediaTypeArg) -> MediaType {
        media_type_of_arg(v)
    }
}

/// The parsed command line.
#[derive(Debug)]
pub struct Cli {
    pub output: OutputFormat,
    pub request_id: Option<String>,
    pub command: Command,
}

#[derive(Debug)]
pub enum Command {
    Capabilities,
    Media { command: MediaCommand },
}

#[derive(Debug)]
pub enum MediaCommand {
    Health,
    Search { query: String },
    Item { command: ItemCommand },
    Request { command: RequestCommand },
    Requests { command: RequestsCommand },
    Downloads { command: DownloadsCommand },
    Library { command: LibraryCommand },
    Sessions { command: SessionsCommand },
}

#[derive(Debug)]
pub enum ItemCommand {
    Show { item_id: String, media_type: MediaTypeArg },
}

#[derive(Debug)]
pub enum RequestCommand {
    Create { media_id: i64, media_type: MediaTypeArg },
}

#[derive(Debug)]
pub enum RequestsCommand {
    List { status: Option<String> },
    Approve { request_id: String },
    Decline { request_id: String },
}

#[derive(Debug)]
pub enum DownloadsCommand {
    List { status: Option<String> },
    Pause { download_id: String },
    Resume { download_id: String },
    Delete { download_id: String, delete_files: bool },
    Retry { download_id: String },
}

#[derive(Debug)]
pub enum LibraryCommand {
    Status,
    Refresh,
    /// Whether a TV season is complete: the series by its catalog id, and the
    /// season number (`0` for specials).
    Availability { media_id: i64, season: u32 },
}

#[derive(Debug)]
pub enum SessionsCommand {
    List,
}

/// The operation name and risk class of a media command.
pub open spec fn media_operation_and_risk(c: MediaCommand) -> (Seq<char>, Seq<char>) {
    match c {
        MediaCommand::Health => ("media.health"@, "read"@),
        MediaCommand::Search { .. } => ("media.search"@, "read"@),
        MediaCommand::Item { .. } => ("media.items.show"@, "read"@),
        MediaCommand::Request { .. } => ("media.requests.create"@, "write"@),
        MediaCommand::Requests { command } => match command {
            RequestsCommand::List { .. } => ("media.requests.list"@, "read"@),
            RequestsCommand::Approve { .. } => ("media.requests.approve"@, "write"@),
            RequestsCommand::Decline { .. } => ("media.requests.decline"@, "write"@),
        },
        MediaCommand::Downloads { command } => match command {
            DownloadsCommand::List { .. } => ("media.downloads.list"@, "read"@),
            DownloadsCommand::Pause { .. } => ("media.downloads.pause"@, "write"@),
            DownloadsCommand::Resume { .. } => ("media.downloads.resume"@, "write"@),
            DownloadsCommand::Delete { delete_files, .. } => if delete_files {
                ("media.downloads.delete"@, "destructive"@)
            } else {
                ("media.downloads.delete"@, "write"@)
            },
            DownloadsCommand::Retry { .. } => ("media.downloads.retry"@, "write"@),
        },
        MediaCommand::Library { command } => match command {
            LibraryCommand::Status => ("media.library.status"@, "read"@),
            LibraryCommand::Refresh => ("media.library.refresh"@, "write"@),
            LibraryCommand::Availability { .. } => ("media.library.availability"@, "read"@),
        },
        MediaCommand::Sessions { .. } => ("media.sessions.list"@, "read"@),
    }
}

pub open spec fn command_operation_and_risk(c: Command) -> (Seq<char>, Seq<char>) {
    match c {
        Command::Capabilities => ("capabilities.show"@, "read"@),
        Command::Media { command } => media_operation_and_risk(command),
    }
}

impl Command {
    /// The operation a command performs and how much it risks.
    pub fn operation_and_risk(&self) -> (r: (&'static str, &'static str))
        ensures
            (r.0@, r.1@) == command_operation_and_risk(*self),
    {
        match self {
            Command::Capabilities => ("capabilities.show", "read"),
            Command::Media { command } => command.operation_and_risk(),
        }
    }
}

impl MediaCommand {
    pub fn operation_and_risk(&self) -> (r: (&'static str, &'static str))
        ensures
            (r.0@, r.1@) == media_operation_and_risk(*self),
    {
        match self {
            MediaCommand::Health => ("media.health", "read"),
            MediaCommand::Search { .. } => ("media.search", "read"),
            MediaCommand::Item { .. } => ("media.items.show", "read"),
            MediaCommand::Request { .. } => ("media.requests.create", "write"),
            MediaCommand::Requests { command } => match command {
                RequestsCommand::List { .. } => ("media.requests.list", "read"),
                RequestsCommand::Approve { .. } => ("media.requests.approve", "write"),
                RequestsCommand::Decline { .. } => ("media.requests.decline", "write"),
            },
            MediaCommand::Downloads { command } => match command {
                DownloadsCommand::List { .. } => ("media.downloads.list", "read"),
                DownloadsCommand::Pause { .. } => ("media.downloads.pause", "write"),
                DownloadsCommand::Resume { .. } => ("media.downloads.resume", "write"),
                DownloadsCommand::Delete { delete_files, .. } => {
                    if *delete_files {
                        ("media.downloads.delete", "destructive")
                    } else {
                        ("media.downloads.delete", "write")
                    }
                },
                DownloadsCommand::Retry { .. } => ("media.downloads.retry", "write"),
            },
            MediaCommand::Library { command } => match command {
                LibraryCommand::Status => ("media.library.status", "read"),
                LibraryCommand::Refresh => ("media.library.refresh", "write"),
                LibraryCommand::Availability { .. } => ("media.library.availability", "read"),
            },
            MediaCommand::Sessions { .. } => ("media.sessions.list", "read"),
        }
    }
}

/// Only deleting a download together with its files is destructive; every
/// other command is a read or a write.
pub proof fn law_only_file_deletion_is_destructive(c: Command)
    ensures
        command_operation_and_risk(c).1 == "destructive"@ <==> (c matches Command::Media {
            command: MediaCommand::Downloads { command: DownloadsCommand::Delete { delete_files: true, .. } },
        }),
        command_operation_and_risk(c).1 == "read"@ || command_operation_and_risk(c).1 == "write"@
            || command_operation_and_risk(c).1 == "destructive"@,
{
    reveal_strlit("destructive");
    reveal_strlit("read");
    reveal_strlit("write");
}

// ---------------------------------------------------------------------------
// Argument checks
// ---------------------------------------------------------------------------

pub open spec fn all_ascii_digits(s: Seq<char>) -> bool {
    forall|i: int| 0 <= i < s.len() ==> is_ascii_digit(#[trigger] s[i])
}

pub fn is_numeric_catalog_id(value: &str) -> (r: bool)
    ensures
        r == (value@.len() > 0 && all_ascii_digits(value@)),
{
    let n = value.unicode_len();
    if n == 0 {
        return false;
    }
    let mut i: usize = 0;
    while i < n
        invariant
            n == value@.len(),
            i <= n,
            forall|j: int| 0 <= j < i ==> is_ascii_digit(#[trigger] value@[j]),
        decreases n - i,
    {
        if !char_is_ascii_digit(value.get_char(i)) {
            return false;
        }
        i += 1;
    }
    true
}

/// An item ID must be a non-empty run of ASCII digits.
pub fn parse_catalog_id(value: &str) -> (r: Result<String, String>)
    ensures
        (value@.len() > 0 && all_ascii_digits(value@)) ==> (r matches Ok(s) && s@ == value@),
        !(value@.len() > 0 && all_ascii_digits(value@)) ==> (r matches Err(m) && m@
            == "item ID must be a non-empty numeric catalog identifier"@),
{
    if !is_numeric_catalog_id(value) {
        return Err("item ID must be a non-empty numeric catalog identifier".to_owned());
    }
    Ok(value.to_owned())
}

/// A byte an HTTP header value may hold: a tab, or anything from a space up
/// but DEL.
pub open spec fn header_value_byte(b: u8) -> bool {
    (b >= 32 && b != 127) || b == 9
}

pub open spec fn is_header_value(s: Seq<char>) -> bool {
    let bytes = vstd::utf8::encode_utf8(s);
    forall|i: int| 0 <= i < bytes.len() ==> header_value_byte(#[trigger] bytes[i])
}

/// Calls `str::parse::<reqwest::header::HeaderValue>` and tells whether it
/// succeeded. The `http` crate accepts a text exactly when every byte of it
/// is a tab or at least a space and not DEL.
#[verifier::external_body]
fn parses_as_header_value(s: &str) -> (r: bool)
    ensures
        r == is_header_value(s@),
{
    s.parse::<reqwest::header::HeaderValue>().is_ok()
}

/// A request ID must be a non-empty value that an HTTP header can carry.
pub fn parse_correlation_id(value: &str) -> (r: Result<String, String>)
    ensures
        (value@.len() > 0 && is_header_value(value@)) ==> (r matches Ok(s) && s@ == value@),
        !(value@.len() > 0 && is_header_value(value@)) ==> (r matches Err(m) && m@
            == "request ID must be a non-empty HTTP header value"@),
{
    if value.unicode_len() == 0 || !parses_as_header_value(value) {
        return Err("request ID must be a non-empty HTTP header value".to_owned());
    }
    Ok(value.to_owned())
}

pub const EXIT_SUCCESS: i32 = 0;

pub const EXIT_INTERNAL: i32 = 1;

pub const EXIT_INVALID_INPUT: i32 = 2;

pub const EXIT_FORBIDDEN: i32 = 3;

pub const EXIT_CONFLICT: i32 = 4;

pub const EXIT_UNAVAILABLE: i32 = 5;

pub const EXIT_PARTIAL: i32 = 6;

pub open spec fn exit_for_code(code: Option<Seq<char>>) -> i32 {
    match code {
        Some(c) => if c == "validation"@ {
            EXIT_INVALID_INPUT
        } else if c == "forbidden"@ {
            EXIT_FORBIDDEN
        } else if c == "not_found"@ || c == "conflict"@ {
            EXIT_CONFLICT
        } else if c == "unavailable"@ || c == "timeout"@ || c == "unknown_outcome"@ {
            EXIT_UNAVAILABLE
        } else {
            EXIT_INTERNAL
        },
        None => EXIT_INTERNAL,
    }
}

/// The process exit class of an error code.
pub fn error_code_exit(code: Option<&str>) -> (r: i32)
    ensures
        r == exit_for_code(
            match code {
                Some(c) => Some(c@),
                None => None,
            },
        ),
{

    match code {
        Some(c) => {
            if str_eq(c, "validation") {
                EXIT_INVALID_INPUT
            } else if str_eq(c, "forbidden") {
                EXIT_FORBIDDEN
            } else if str_eq(c, "not_found") || str_eq(c, "conflict") {
                EXIT_CONFLICT
            } else if str_eq(c, "unavailable") || str_eq(c, "timeout") || str_eq(c, "unknown_outcome") {
                EXIT_UNAVAILABLE
            } else {
                EXIT_INTERNAL
            }
        },
        None => EXIT_INTERNAL,
    }
}

/// The exit class of a finished operation: its error's class when it
/// failed, partial when it succeeded with issues, success otherwise.
pub open spec fn success_exit_of(ok: bool, has_issues: bool, error_code: Option<Seq<char>>) -> i32 {
    if !ok {
        exit_for_code(error_code)
    } else if has_issues {
        EXIT_PARTIAL
    } else {
        EXIT_SUCCESS
    }
}

pub open spec fn opt_view(o: Option<&str>) -> Option<Seq<char>> {
    match o {
        Some(c) => Some(c@),
        None => None,
    }
}

pub fn success_exit(ok: bool, has_issues: bool, error_code: Option<&str>) -> (r: i32)
    ensures
        r == success_exit_of(ok, has_issues, opt_view(error_code)),
{
    if !ok {
        error_code_exit(error_code)
    } else if has_issues {
        EXIT_PARTIAL
    } else {
        EXIT_SUCCESS
    }
}

/// The exit class of a health check: as any operation when it failed or
/// reports itself healthy (or nothing); partial when degraded; unavailable
/// when unavailable.
pub open spec fn health_exit_of(
    ok: bool,
    has_issues: bool,
    error_code: Option<Seq<char>>,
    status: Option<HealthStatus>,
) -> i32 {
    if !ok {
        exit_for_code(error_code)
    } else {
        match status {
            Some(HealthStatus::Degraded) => EXIT_PARTIAL,
            Some(HealthStatus::Unavailable) => EXIT_UNAVAILABLE,
            _ => success_exit_of(ok, has_issues, error_code),
        }
    }
}

pub fn health_exit(ok: bool, has_issues: bool, error_code: Option<&str>, status: Option<HealthStatus>) -> (r: i32)
    ensures
        r == health_exit_of(ok, has_issues, opt_view(error_code), status),
{
    if !ok {
        return error_code_exit(error_code);
    }
    match status {
        Some(HealthStatus::Degraded) => EXIT_PARTIAL,
        Some(HealthStatus::Unavailable) => EXIT_UNAVAILABLE,
        _ => success_exit(ok, has_issues, error_code),
    }
}

/// The exit code once the outcome has been written: the decided class, or
/// an internal failure when the outcome could not be written.
pub fn exit_after_output(exit: i32, written: bool) -> (r: i32)
    ensures
        r == if written {
            exit
        } else {
            EXIT_INTERNAL
        },
{
    if written {
        exit
    } else {
        EXIT_INTERNAL
    }
}

// ---------------------------------------------------------------------------
// Client failures
// ---------------------------------------------------------------------------

/// Why a call to the homelab API failed, as the command line sees it.
#[derive(Clone, Debug, PartialEq, Eq)]
pub enum ClientError {
    /// The configured base URL cannot be used.
    InvalidBaseUrl { reason: &'static str },
    /// The server speaks another API major version.
    IncompatibleApi { expected: u16, actual: u16 },
    /// No response came back; `timed_out` when the request ran out of time.
    Transport { timed_out: bool },
    /// The API answered with an error document carrying this error code.
    Api { status: u16, error_code: Option<String> },
    /// The response could not be read; the request ID the server sent back.
    Decode { status: u16, request_id: Option<String> },
}

/// What to write for a failed call: the API's own error document, or a
/// local one with these fields; each with its exit class.
#[derive(Clone, Debug, PartialEq, Eq)]
pub enum ErrorReport {
    Envelope { exit: i32 },
    Local { request_id: String, code: &'static str, message: &'static str, retryable: bool, exit: i32 },
}

pub open spec fn local_report_is(
    r: ErrorReport,
    request_id: Seq<char>,
    code: Seq<char>,
    message: Seq<char>,
    retryable: bool,
) -> bool {
    match r {
        ErrorReport::Local { request_id: rid, code: c, message: m, retryable: rt, exit } => rid@
            == request_id && c@ == code && m@ == message && rt == retryable && exit
            == exit_for_code(Some(code)),
        _ => false,
    }
}

/// Decides what a failed call reports: an API error document is shown as it
/// came, with the exit class of its code; a refused base URL is a
/// validation error; an incompatible API a conflict; a lost connection a
/// retryable timeout or unavailability; an unreadable response an internal
/// error under the request ID the server sent back, if it sent one.
pub fn error_report(error: &ClientError, request_id: &str) -> (r: ErrorReport)
    ensures
        match error {
            ClientError::Api { error_code, .. } => r == ErrorReport::Envelope {
                exit: exit_for_code(
                    match error_code {
                        Some(c) => Some(c@),
                        None => None,
                    },
                ),
            },
            ClientError::InvalidBaseUrl { .. } => local_report_is(
                r,
                request_id@,
                "validation"@,
                "HOMELAB_API_URL must be an absolute HTTP(S) URL ending in /api/v1"@,
                false,
            ),
            ClientError::IncompatibleApi { .. } => local_report_is(
                r,
                request_id@,
                "conflict"@,
                "homelab API is incompatible with this CLI"@,
                false,
            ),
            ClientError::Transport { timed_out } => if *timed_out {
                local_report_is(r, request_id@, "timeout"@, "homelab API request timed out"@, true)
            } else {
                local_report_is(r, request_id@, "unavailable"@, "homelab API is unavailable"@, true)
            },
            ClientError::Decode { request_id: sent, .. } => local_report_is(
                r,
                match sent {
                    Some(s) => s@,
                    None => request_id@,
                },
                "internal"@,
                "homelab API returned an invalid response"@,
                false,
            ),
        },
{
    match error {
        ClientError::Api { error_code, .. } => {
            let code = match error_code {
                Some(c) => Some(c.as_str()),
                None => None,
            };
            ErrorReport::Envelope { exit: error_code_exit(code) }
        },
        ClientError::InvalidBaseUrl { .. } => ErrorReport::Local {
            request_id: string_of(request_id),
            code: "validation",
            message: "HOMELAB_API_URL must be an absolute HTTP(S) URL ending in /api/v1",
            retryable: false,
            exit: error_code_exit(Some("validation")),
        },
        ClientError::IncompatibleApi { .. } => ErrorReport::Local {
            request_id: string_of(request_id),
            code: "conflict",
            message: "homelab API is incompatible with this CLI",
            retryable: false,
            exit: error_code_exit(Some("conflict")),
        },
        ClientError::Transport { timed_out } => {
            if *timed_out {
                ErrorReport::Local {
                    request_id: string_of(request_id),
                    code: "timeout",
                    message: "homelab API request timed out",
                    retryable: true,
                    exit: error_code_exit(Some("timeout")),
                }
            } else {
                ErrorReport::Local {
                    request_id: string_of(request_id),
                    code: "unavailable",
                    message: "homelab API is unavailable",
                    retryable: true,
                    exit: error_code_exit(Some("unavailable")),
                }
            }
        },
        ClientError::Decode { request_id: sent, .. } => {
            let rid = match sent {
                Some(s) => s.clone(),
                None => string_of(request_id),
            };
            ErrorReport::Local {
                request_id: rid,
                code: "internal",
                message: "homelab API returned an invalid response",
                retryable: false,
                exit: error_code_exit(Some("internal")),
            }
        },
    }
}

// ---------------------------------------------------------------------------
// Local error documents
// ---------------------------------------------------------------------------

/// The current time as `serde` writes a `chrono::DateTime<Utc>`
/// (`to_rfc3339_opts(SecondsFormat::AutoSi, true)`). Nothing is promised of
/// it: it depends on the clock.
#[verifier::external_body]
fn now_timestamp() -> (r: String) {
    chrono::Utc::now().to_rfc3339_opts(chrono::SecondsFormat::AutoSi, true)
}

pub open spec fn member_is(m: (String, JsonValue), key: Seq<char>, text: Seq<char>) -> bool {
    m.0@ == key && str_of(m.1) == Some(text)
}

/// The error document the command line writes itself: not ok; the
/// operation, request ID and risk; the message as summary; the error's code,
/// message and retry hint; and its own name and the time as provenance.
pub open spec fn is_local_error_doc(
    v: JsonValue,
    operation: Seq<char>,
    request_id: Seq<char>,
    risk: Seq<char>,
    code: Seq<char>,
    message: Seq<char>,
    retryable: bool,
    timestamp: Seq<char>,
) -> bool {
    match v {
        JsonValue::Object(ms) => {
            &&& ms@.len() == 7
            &&& ms@[0].0@ == "ok"@ && bool_of(ms@[0].1) == Some(false)
            &&& member_is(ms@[1], "operation"@, operation)
            &&& member_is(ms@[2], "request_id"@, request_id)
            &&& member_is(ms@[3], "risk"@, risk)
            &&& ms@[4].0@ == "summary"@
            &&& (match ms@[4].1 {
                JsonValue::Object(s) => s@.len() == 1 && member_is(s@[0], "text"@, message),
                _ => false,
            })
            &&& ms@[5].0@ == "error"@
            &&& (match ms@[5].1 {
                JsonValue::Object(e) => e@.len() == 3 && member_is(e@[0], "code"@, code) && member_is(
                    e@[1],
                    "message"@,
                    message,
                ) && e@[2].0@ == "retryable"@ && bool_of(e@[2].1) == Some(retryable),
                _ => false,
            })
            &&& ms@[6].0@ == "provenance"@
            &&& (match ms@[6].1 {
                JsonValue::Object(p) => p@.len() == 2 && member_is(p@[0], "service"@, "homelab-cli"@)
                    && member_is(p@[1], "timestamp"@, timestamp),
                _ => false,
            })
        },
        _ => false,
    }
}

fn string_member(key: &str, text: &str) -> (r: (String, JsonValue))
    ensures
        member_is(r, key@, text@),
{
    (string_of(key), JsonValue::Str(string_of(text)))
}

/// Builds the command line's own error document at the given time.
pub fn local_error_at(
    operation: &str,
    request_id: &str,
    risk: &str,
    code: &str,
    message: &str,
    retryable: bool,
    timestamp: &str,
) -> (r: JsonValue)
    ensures
        is_local_error_doc(r, operation@, request_id@, risk@, code@, message@, retryable, timestamp@),
{
    let summary = vec![string_member("text", message)];
    let error = vec![
        string_member("code", code),
        string_member("message", message),
        (string_of("retryable"), JsonValue::Bool(retryable)),
    ];
    let provenance = vec![string_member("service", "homelab-cli"), string_member("timestamp", timestamp)];
    let members = vec![
        (string_of("ok"), JsonValue::Bool(false)),
        string_member("operation", operation),
        string_member("request_id", request_id),
        string_member("risk", risk),
        (string_of("summary"), JsonValue::Object(summary)),
        (string_of("error"), JsonValue::Object(error)),
        (string_of("provenance"), JsonValue::Object(provenance)),
    ];
    JsonValue::Object(members)
}

/// Builds the command line's own error document, stamped with the current
/// time; the document is the one `local_error_at` builds for some time.
pub fn local_error(
    operation: &str,
    request_id: &str,
    risk: &str,
    code: &str,
    message: &str,
    retryable: bool,
) -> (r: JsonValue)
    ensures
        exists|t: Seq<char>|
            is_local_error_doc(r, operation@, request_id@, risk@, code@, message@, retryable, t),
{
    let now = now_timestamp();
    local_error_at(operation, request_id, risk, code, message, retryable, now.as_str())
}

// ---------------------------------------------------------------------------
// API compatibility
// ---------------------------------------------------------------------------

#[derive(Clone, Copy, Debug, PartialEq, Eq, Structural)]
pub struct IncompatibleApi {
    pub expected: u16,
    pub actual: u16,
}

/// The server must speak this API major version and accept this CLI's major version.
pub fn validate_compatible(capabilities: &Capabilities) -> (r: Result<(), IncompatibleApi>)
    ensures
        capabilities.api.major != API_MAJOR ==> r == Err::<(), IncompatibleApi>(
            IncompatibleApi { expected: API_MAJOR, actual: capabilities.api.major },
        ),
        capabilities.api.major == API_MAJOR && capabilities.compatible_cli_major != API_MAJOR ==> r
            == Err::<(), IncompatibleApi>(
            IncompatibleApi { expected: API_MAJOR, actual: capabilities.compatible_cli_major },
        ),
        capabilities.api.major == API_MAJOR && capabilities.compatible_cli_major == API_MAJOR ==> r
            is Ok,
{
    if capabilities.api.major != API_MAJOR {
        return Err(IncompatibleApi { expected: API_MAJOR, actual: capabilities.api.major });
    }
    if capabilities.compatible_cli_major != API_MAJOR {
        return Err(IncompatibleApi { expected: API_MAJOR, actual: capabilities.compatible_cli_major });
    }
    Ok(())
}

} // verus!
