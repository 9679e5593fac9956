//! Archiving of chat messages and notebook posts into markdown, with linked
//! files mirrored into a local content directory.
//!
//! The library holds the decisions of the pipeline: how a URL is classified,
//! where a mirrored file lives, how links are rewritten and how records are
//! assembled into markdown. Fetching and writing files is left to the caller,
//! which hands the outcome of each mirror back as a plain value.

pub mod text;
pub mod extensions;
pub mod archive;
pub mod rewrite;
pub mod records;
pub use archive::Args;
