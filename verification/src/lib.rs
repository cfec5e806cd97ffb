//! Single-author publishing backend: a store of posts and blog metadata,
//! and a derived syndication feed kept consistent with that store.
//!
//! The store owns slug uniqueness and visibility state; every successful
//! mutation re-renders the feed, persists it, stamps the metadata, and swaps
//! the in-process cache that readers consult.

pub mod auth;
pub mod cache;
pub mod clock;
pub mod feed;
pub mod laws;
pub mod markdown;
pub mod model;
pub mod service;
pub mod store;
