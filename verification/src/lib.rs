//! Scoped CDN cache purging.
//!
//! Given the changed-file records of a version-control diff, the library
//! decides which top-level site folders need their edge cache purged
//! (`classify`), builds the JSON purge request for that decision, and says
//! what to do with it (`dispatch`): nothing, echo the body in dry-run mode,
//! or send it to the cache provider's purge endpoint. Interpreting the
//! provider's HTTP response is `interpret_response`. The surrounding
//! process plumbing (argument parsing, config files, running the diff,
//! the HTTP transport itself) lives outside the library and hands it plain
//! strings.

pub mod classify;
pub mod configure;
pub mod dispatch;
pub mod laws;
pub mod payload;
pub mod requester;
pub mod strutil;
