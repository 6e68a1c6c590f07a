//! A multi-target web crawler and forced-browsing engine, written as a set of
//! verified decision procedures: the caller performs the network requests and
//! hands the outcomes back.

pub mod client;
pub mod config;
pub mod crawler;
pub mod dispatch;
pub mod force_browse;
pub mod invariants;
pub mod links;
pub mod message;
pub mod observer;
pub mod status;
pub mod target;
pub mod text;
pub mod visited;
pub mod web;
