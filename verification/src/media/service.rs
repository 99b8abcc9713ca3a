//! The media service's decisions: how each operation is named and what it
//! risks, and how the health of the three backends adds up.
use crate::api_model::{BackendHealth, BackendHealthView, HealthStatus, MediaHealth};
use crate::mcp_core::{IssueView, ValidationIssue};
use crate::media::error::{public_message_of, MediaError};
use crate::text::string_of;
use vstd::prelude::*;

verus! {

/// What an operation risks.
#[derive(Clone, Copy, Debug, PartialEq, Eq, Structural)]
pub enum Risk {
    Read,
    Write,
    Destructive,
}

/// The operations of the media service.
#[derive(Clone, Copy, Debug, PartialEq, Eq, Structural)]
pub enum MediaAction {
    Search,
    CreateRequest,
    ListRequests,
    ApproveRequest,
    DeclineRequest,
    ListDownloads,
    PauseDownload,
    ResumeDownload,
    DeleteDownload { delete_files: bool },
    RetryDownload,
    LibraryStatus,
    RefreshLibrary,
    ActiveSessions,
    ItemDetails,
}

/// An operation's stable name, its risk and the summary of its success.
pub struct ActionInfo {
    pub operation: &'static str,
    pub risk: Risk,
    pub summary: &'static str,
}

pub open spec fn action_operation(a: MediaAction) -> Seq<char> {
    match a {
        MediaAction::Search => "media.search"@,
        MediaAction::CreateRequest => "media.requests.create"@,
        MediaAction::ListRequests => "media.requests.list"@,
        MediaAction::ApproveRequest => "media.requests.approve"@,
        MediaAction::DeclineRequest => "media.requests.decline"@,
        MediaAction::ListDownloads => "media.downloads.list"@,
        MediaAction::PauseDownload => "media.downloads.pause"@,
        MediaAction::ResumeDownload => "media.downloads.resume"@,
        MediaAction::DeleteDownload { .. } => "media.downloads.delete"@,
        MediaAction::RetryDownload => "media.downloads.retry"@,
        MediaAction::LibraryStatus => "media.library.status"@,
        MediaAction::RefreshLibrary => "media.library.refresh"@,
        MediaAction::ActiveSessions => "media.sessions.list"@,
        MediaAction::ItemDetails => "media.items.show"@,
    }
}

/// Reads risk nothing; a deletion that takes the files with it is
/// destructive; every other change is a write.
pub open spec fn action_risk(a: MediaAction) -> Risk {
    match a {
        MediaAction::Search | MediaAction::ListRequests | MediaAction::ListDownloads
        | MediaAction::LibraryStatus | MediaAction::ActiveSessions | MediaAction::ItemDetails => Risk::Read,
        MediaAction::DeleteDownload { delete_files } => if delete_files {
            Risk::Destructive
        } else {
            Risk::Write
        },
        _ => Risk::Write,
    }
}

pub open spec fn action_summary(a: MediaAction) -> Seq<char> {
    match a {
        MediaAction::Search => "media search completed"@,
        MediaAction::CreateRequest => "media request created"@,
        MediaAction::ListRequests => "media requests listed"@,
        MediaAction::ApproveRequest => "media request approved"@,
        MediaAction::DeclineRequest => "media request declined"@,
        MediaAction::ListDownloads => "media downloads listed"@,
        MediaAction::PauseDownload => "media download paused"@,
        MediaAction::ResumeDownload => "media download resumed"@,
        MediaAction::DeleteDownload { .. } => "media download deleted"@,
        MediaAction::RetryDownload => "media download retried"@,
        MediaAction::LibraryStatus => "media library status read"@,
        MediaAction::RefreshLibrary => "media library refresh started"@,
        MediaAction::ActiveSessions => "active media sessions listed"@,
        MediaAction::ItemDetails => "media item details read"@,
    }
}

pub fn describe(action: MediaAction) -> (r: ActionInfo)
    ensures
        r.operation@ == action_operation(action),
        r.risk == action_risk(action),
        r.summary@ == action_summary(action),
{
    match action {
        MediaAction::Search => ActionInfo { operation: "media.search", risk: Risk::Read, summary: "media search completed" },
        MediaAction::CreateRequest => ActionInfo {
            operation: "media.requests.create",
            risk: Risk::Write,
            summary: "media request created",
        },
        MediaAction::ListRequests => ActionInfo {
            operation: "media.requests.list",
            risk: Risk::Read,
            summary: "media requests listed",
        },
        MediaAction::ApproveRequest => ActionInfo {
            operation: "media.requests.approve",
            risk: Risk::Write,
            summary: "media request approved",
        },
        MediaAction::DeclineRequest => ActionInfo {
            operation: "media.requests.decline",
            risk: Risk::Write,
            summary: "media request declined",
        },
        MediaAction::ListDownloads => ActionInfo {
            operation: "media.downloads.list",
            risk: Risk::Read,
            summary: "media downloads listed",
        },
        MediaAction::PauseDownload => ActionInfo {
            operation: "media.downloads.pause",
            risk: Risk::Write,
            summary: "media download paused",
        },
        MediaAction::ResumeDownload => ActionInfo {
            operation: "media.downloads.resume",
            risk: Risk::Write,
            summary: "media download resumed",
        },
        MediaAction::DeleteDownload { delete_files } => ActionInfo {
            operation: "media.downloads.delete",
            risk: if delete_files {
                Risk::Destructive
            } else {
                Risk::Write
            },
            summary: "media download deleted",
        },
        MediaAction::RetryDownload => ActionInfo {
            operation: "media.downloads.retry",
            risk: Risk::Write,
            summary: "media download retried",
        },
        MediaAction::LibraryStatus => ActionInfo {
            operation: "media.library.status",
            risk: Risk::Read,
            summary: "media library status read",
        },
        MediaAction::RefreshLibrary => ActionInfo {
            operation: "media.library.refresh",
            risk: Risk::Write,
            summary: "media library refresh started",
        },
        MediaAction::ActiveSessions => ActionInfo {
            operation: "media.sessions.list",
            risk: Risk::Read,
            summary: "active media sessions listed",
        },
        MediaAction::ItemDetails => ActionInfo {
            operation: "media.items.show",
            risk: Risk::Read,
            summary: "media item details read",
        },
    }
}

/// Only a deletion of downloaded files is destructive.
pub proof fn law_only_file_deletion_is_destructive(a: MediaAction)
    ensures
        (action_risk(a) == Risk::Destructive) <==> (a == MediaAction::DeleteDownload { delete_files: true }),
{
}

// ---------------------------------------------------------------------------
// Health
// ---------------------------------------------------------------------------

pub open spec fn backend_view(backend: Seq<char>, result: Result<(), MediaError>) -> BackendHealthView {
    match result {
        Ok(_) => BackendHealthView { backend, healthy: true, message: None },
        Err(e) => BackendHealthView { backend, healthy: false, message: Some(public_message_of(e)) },
    }
}

/// The health of one backend from the outcome of its probe; a failure
/// carries only the public message of its error.
pub fn backend_health(backend: &str, result: Result<(), MediaError>) -> (r: BackendHealth)
    ensures
        r@ == backend_view(backend@, result),
{
    match result {
        Ok(()) => BackendHealth { backend: string_of(backend), healthy: true, message: None },
        Err(error) => BackendHealth {
            backend: string_of(backend),
            healthy: false,
            message: Some(error.public_message()),
        },
    }
}

/// Healthy when no backend failed, unavailable when all three did, degraded
/// otherwise.
pub open spec fn status_of_failures(failed: nat) -> HealthStatus {
    if failed == 0 {
        HealthStatus::Healthy
    } else if failed == 3 {
        HealthStatus::Unavailable
    } else {
        HealthStatus::Degraded
    }
}

pub open spec fn health_summary(status: HealthStatus) -> Seq<char> {
    match status {
        HealthStatus::Healthy => "all media backends are healthy"@,
        HealthStatus::Degraded => "one or more media backends are degraded"@,
        HealthStatus::Unavailable => "all media backends are unavailable"@,
    }
}

/// The issue that an unhealthy backend raises.
pub open spec fn backend_issue(b: BackendHealthView) -> IssueView {
    IssueView {
        field: b.backend,
        message: match b.message {
            Some(m) => m,
            None => "backend unavailable"@,
        },
        allowed: None,
    }
}

/// The issues of the unhealthy backends, in order.
pub open spec fn backend_issues(bs: Seq<BackendHealthView>) -> Seq<IssueView>
    decreases bs.len(),
{
    if bs.len() == 0 {
        Seq::empty()
    } else {
        let rest = backend_issues(bs.drop_last());
        if bs.last().healthy {
            rest
        } else {
            rest.push(backend_issue(bs.last()))
        }
    }
}

/// Every unhealthy backend gives one issue, in order, and no healthy one does;
/// the issues of two runs of backends put together are those of the first
/// followed by those of the second.
pub proof fn law_backend_issues_name_every_unhealthy_backend(items: Seq<BackendHealthView>, more: Seq<BackendHealthView>)
    ensures
        backend_issues(items) == items.filter_map(|v: BackendHealthView| if v.healthy { None } else { Some(backend_issue(v)) }),
        backend_issues(items + more) == backend_issues(items) + backend_issues(more),
        backend_issues(items).len() <= items.len(),
    decreases items.len() + more.len(),
{
    if items.len() > 0 {
        law_backend_issues_name_every_unhealthy_backend(items.drop_last(), Seq::empty());
        let v = items.last();
        match if v.healthy { None } else { Some(backend_issue(v)) } {
            Some(x) => {
                assert(backend_issues(items.drop_last()).push(x) =~= backend_issues(items.drop_last()) + seq![x]);
            },
            None => {},
        }
    }
    if more.len() > 0 {
        law_backend_issues_name_every_unhealthy_backend(items, more.drop_last());
        assert((items + more).drop_last() =~= items + more.drop_last());
        assert((items + more).last() == more.last());
        let v = more.last();
        match if v.healthy { None } else { Some(backend_issue(v)) } {
            Some(x) => {
                assert((backend_issues(items) + backend_issues(more.drop_last())).push(x) =~= backend_issues(items)
                    + backend_issues(more.drop_last()).push(x));
            },
            None => {},
        }
    } else {
        assert(items + more =~= items);
        assert(backend_issues(items) + backend_issues(more) =~= backend_issues(items));
    }
}

pub open spec fn failures(bs: Seq<BackendHealthView>) -> nat
    decreases bs.len(),
{
    if bs.len() == 0 {
        0
    } else {
        failures(bs.drop_last()) + if bs.last().healthy {
            0nat
        } else {
            1nat
        }
    }
}

/// The health of the media service, the issues it raises, and its summary.
pub struct HealthReport {
    pub health: MediaHealth,
    pub issues: Vec<ValidationIssue>,
    pub summary: &'static str,
}

/// Adds up the probes of the request manager, the download manager and the
/// media server, in that order.
pub fn health_report(
    jellyseerr: Result<(), MediaError>,
    sabnzbd: Result<(), MediaError>,
    jellyfin: Result<(), MediaError>,
) -> (r: HealthReport)
    ensures
        ({
            let bs = seq![
                backend_view("jellyseerr"@, jellyseerr),
                backend_view("sabnzbd"@, sabnzbd),
                backend_view("jellyfin"@, jellyfin),
            ];
            &&& r.health.backends.deep_view() == bs
            &&& r.health.status == status_of_failures(failures(bs))
            &&& r.issues.deep_view() == backend_issues(bs)
            &&& r.summary@ == health_summary(r.health.status)
        }),
{
    let mut backends: Vec<BackendHealth> = Vec::new();
    backends.push(backend_health("jellyseerr", jellyseerr));
    backends.push(backend_health("sabnzbd", sabnzbd));
    backends.push(backend_health("jellyfin", jellyfin));
    let ghost bs = backends.deep_view();
    assert(bs =~= seq![
        backend_view("jellyseerr"@, jellyseerr),
        backend_view("sabnzbd"@, sabnzbd),
        backend_view("jellyfin"@, jellyfin),
    ]);
    let mut failed: usize = 0;
    let mut issues: Vec<ValidationIssue> = Vec::new();
    let mut i: usize = 0;
    assert(bs.subrange(0, 0) =~= Seq::<BackendHealthView>::empty());
    assert(issues.deep_view() =~= backend_issues(bs.subrange(0, 0)));
    while i < backends.len()
        invariant
            bs == backends.deep_view(),
            backends@.len() == 3,
            i <= 3,
            failed == failures(bs.subrange(0, i as int)),
            failed <= i,
            issues.deep_view() == backend_issues(bs.subrange(0, i as int)),
        decreases 3 - i,
    {
        let ghost prev = issues.deep_view();
        proof {
            let next = bs.subrange(0, i + 1);
            assert(next.drop_last() =~= bs.subrange(0, i as int));
            assert(next.last() == bs[i as int]);
            assert(bs[i as int] == backends@[i as int]@);
        }
        let b = &backends[i];
        if !b.healthy {
            failed = failed + 1;
            let message = match &b.message {
                Some(m) => m.clone(),
                None => string_of("backend unavailable"),
            };
            let issue = ValidationIssue { field: b.backend.clone(), message, allowed: None };
            issues.push(issue);
            assert(issues.deep_view() =~= prev.push(backend_issue(bs[i as int])));
        }
        i = i + 1;
    }
    assert(bs.subrange(0, 3) =~= bs);
    let status = if failed == 0 {
        HealthStatus::Healthy
    } else if failed == 3 {
        HealthStatus::Unavailable
    } else {
        HealthStatus::Degraded
    };
    let summary = match status {
        HealthStatus::Healthy => "all media backends are healthy",
        HealthStatus::Degraded => "one or more media backends are degraded",
        HealthStatus::Unavailable => "all media backends are unavailable",
    };
    HealthReport { health: MediaHealth { status, backends }, issues, summary }
}

/// The service is healthy exactly when every probe succeeded, and unavailable
/// exactly when every probe failed.
pub proof fn law_health_follows_the_probes(a: Result<(), MediaError>, b: Result<(), MediaError>, c: Result<(), MediaError>)
    ensures
        ({
            let bs = seq![backend_view("jellyseerr"@, a), backend_view("sabnzbd"@, b), backend_view("jellyfin"@, c)];
            &&& (status_of_failures(failures(bs)) == HealthStatus::Healthy) <==> (a is Ok && b is Ok && c is Ok)
            &&& (status_of_failures(failures(bs)) == HealthStatus::Unavailable) <==> (a is Err && b is Err && c is Err)
            &&& backend_issues(bs).len() == failures(bs)
        }),
{
    let bs = seq![backend_view("jellyseerr"@, a), backend_view("sabnzbd"@, b), backend_view("jellyfin"@, c)];
    assert(bs.drop_last().drop_last().drop_last() =~= Seq::<BackendHealthView>::empty());
    reveal_with_fuel(failures, 4);
    reveal_with_fuel(backend_issues, 4);
}

} // verus!
