//! Static-site document pipeline: extracts an embedded metadata block from a
//! markdown event stream, resolves each document's attributes with
//! deterministic fallback rules, derives a stable output path per document,
//! and assembles the sorted collection with its landing-page preview list.

pub mod error;
pub mod markdown;
pub mod meta;
pub mod post;
pub mod site;
pub mod text;
pub mod time;
