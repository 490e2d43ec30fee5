//! Posting one text message to Bluesky, X and Threads.
//!
//! The library holds every decision of a run as plain functions on plain
//! values: which text is posted, which requests are made with which
//! credentials, how each reply is read, and what is reported. Performing the
//! requests, running the editor and printing are left to the caller.

pub mod bluesky;
pub mod clock;
pub mod editor;
pub mod environment;
pub mod error;
pub mod http;
pub mod json;
pub mod laws;
pub mod platform;
pub mod run;
pub mod step;
pub mod text;
pub mod threads;
pub mod x;
