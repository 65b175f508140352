//! A terminal dashboard core for browsing a developer account's repositories,
//! searching public repositories, and drilling into a selected repository's
//! issues and pull requests.
//!
//! This crate holds the session state machine, the navigation engine, the
//! event router and the compute side of the data-fetch pipeline. Terminal
//! handling, widget drawing and the HTTP transport are left to a thin driving
//! layer that hands plain values in and out.

pub mod app;
pub mod events;
pub mod github;
pub mod models;
pub mod utils;
