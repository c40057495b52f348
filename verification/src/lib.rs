//! Resolves a historical release of a Homebrew formula to the exact upstream
//! commit and raw-content URL that published it.
//!
//! The resolver searches the commit history of the upstream formula
//! repository, per candidate file location, for the commit whose message
//! announces the requested version's bottle. Network transfers and temp-file
//! staging are performed by the surrounding binary; this crate owns every
//! decision: candidate paths, query URLs, the message predicate, first-match
//! selection, and the derived content URL.

pub mod history;
pub mod request;
pub mod resolver;
pub mod staging;
pub mod text;
