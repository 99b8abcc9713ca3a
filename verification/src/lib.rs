//! Verified core of the homelab model-deployment and media tooling.
pub mod text;
pub mod json;
pub mod mcp_core;
pub mod catalog;
pub mod api_model;
pub mod cli;
pub mod client;
pub mod k8s;
pub mod media;
pub mod urls;
