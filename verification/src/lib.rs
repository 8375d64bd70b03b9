//! A small verified core for an HTTP file browser with an in-place editor.
//!
//! The library decides, for each incoming request, which filesystem action
//! to take and what response body to build: it confines request paths to a
//! fixed public root, renders directory listings, negotiates content types
//! by file extension (Markdown is rendered to HTML through the `markdown`
//! crate), and gates file overwrites behind a password check. All I/O —
//! the HTTP server, filesystem reads and writes — lives outside the
//! library and hands it plain values.

pub mod paths;
pub mod browse;
pub mod content;
pub mod edit;
pub mod listing;
pub mod text;
