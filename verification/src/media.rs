//! Media operations: errors, season availability and the normalizers of
//! upstream catalog, download and library data.
pub mod error;
pub mod availability;
pub mod jellyseerr;
pub mod jellyfin;
pub mod sabnzbd;
pub mod service;
pub mod config;
