//! A small library for a markdown sharing service: sanitization and
//! rendering of markdown to HTML, title extraction, short identifier
//! generation, and an expiry-aware document store.

pub mod ids;
pub mod models;
pub mod qr;
pub mod render;
pub mod sanitize;
pub mod share;
pub mod store;
pub mod text;
pub mod title;
