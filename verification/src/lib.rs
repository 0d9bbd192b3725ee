//! Core of a small self-hosted git collaboration service: repository
//! lifecycle, object-graph browsing, merging, diffing, and the CGI-style
//! smart-HTTP gateway bridge.

pub mod auth;
pub mod dates;
pub mod diff;
pub mod errors;
pub mod gateway;
pub mod lifecycle;
pub mod merge;
pub mod pulls;
pub mod reader;
pub mod reviews;
pub mod store;
pub mod text;
