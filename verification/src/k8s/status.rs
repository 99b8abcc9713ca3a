//! What the cluster reports about model servers and weight downloads.
use vstd::prelude::*;

verus! {

#[derive(Clone, Debug, PartialEq, Eq)]
pub struct ModelStatus {
    pub namespace: String,
    pub name: String,
    pub ready: bool,
    pub conditions: Vec<KserveCondition>,
    pub recent_events: Vec<String>,
}

#[derive(Clone, Debug, PartialEq, Eq)]
pub struct KserveCondition {
    pub condition_type: String,
    pub status: String,
    pub reason: Option<String>,
    pub message: Option<String>,
}

#[derive(Clone, Debug, PartialEq, Eq)]
pub struct ModelLogs {
    pub namespace: String,
    pub name: String,
    pub lines: Vec<String>,
}

#[derive(Clone, Debug, PartialEq, Eq)]
pub struct DownloadJobRef {
    pub job_name: String,
    pub namespace: String,
    pub model_id: String,
}

#[derive(Clone, Debug, PartialEq, Eq)]
pub enum DownloadStatus {
    NotStarted,
    JobCreated { job_ref: DownloadJobRef },
    Running { job_ref: DownloadJobRef },
    Completed { job_ref: DownloadJobRef },
    Failed { job_ref: DownloadJobRef, reason: String },
    AlreadyCached { model_id: String, path: String },
}

#[derive(Clone, Debug, PartialEq, Eq)]
pub struct SentinelInfo {
    pub model_id: String,
    pub revision: String,
    pub downloaded_at: String,
    pub source: String,
    pub complete: bool,
}

} // verus!
