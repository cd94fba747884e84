//! Verified core of a terminal client for a purchased-works library.
pub mod text;
pub mod api;
pub mod config;
pub mod session;
pub mod db;
pub mod app;
pub mod jobs;
pub mod ui;
pub mod laws;
