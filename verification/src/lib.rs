//! Monitors e-commerce catalog search pages for new product listings.
//!
//! The library extracts listing records from selector-addressed pages,
//! filters them against configured match terms, folds duplicates by
//! canonical URL, derives a stable identity for each record, and computes
//! the new-versus-known difference that drives notifications. Network
//! fetching, persistence and delivery live outside the library; they hand
//! plain values in and take plain values back.

pub mod config;
pub mod cycle;
pub mod extract;
pub mod identity;
pub mod markup;
pub mod models;
pub mod notify;
pub mod session;
pub mod text;
pub mod urls;
