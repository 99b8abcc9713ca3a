//! Cluster-side logic: resource names, label values, status reconciliation
//! and the reports read back from the cluster.
pub mod names;
pub mod status;
pub mod labels;
pub mod reconciler;
pub mod download;
pub mod capacity;
pub mod live;
