//! Verified core of a URL-shortening service: slug allocation, redirect
//! resolution, session cookies and the decisions of the HTTP handlers.
//!
//! Everything here works on plain values. The surrounding program performs the
//! store and network operations and reports their outcomes back.

pub mod admin;
pub mod auth;
pub mod clock;
pub mod http;
pub mod models;
pub mod redirect;
pub mod service;
pub mod session;
pub mod shorten;
pub mod slug;
pub mod store;
pub mod text;
