//! Core engine of a facilitated group-voting activity.
//!
//! A catalog of scripted discussion prompts ("situations") is shown to
//! participants, who vote among three canned response strategies. A
//! facilitator reveals a scripted answer chosen from the two leading
//! strategies; participants poll for the revealed result. This crate holds
//! the verified core: the catalog shape, the vote tally, the tie-break
//! resolution, and the versioned session state. The HTTP shell around it
//! lives outside the library.

pub mod catalog;
pub mod reaction;
pub mod resolver;
pub mod session;
pub mod situation;

pub use reaction::Reaction;
pub use session::AppState;
pub use session::ShownResult;
