//! Resolution, retrieval and unpacking of released binaries: which version of
//! an artifact is the latest, where its archive for a platform is published,
//! and where its single binary lands once the archive is unpacked.
//!
//! Everything here is a function from plain values to plain values. Network
//! and file access belong to the caller, which performs the requests this
//! library plans and hands back what came of them.

pub mod download;
pub mod error;
pub mod extract;
pub mod http;
pub mod json;
pub mod listing;
pub mod platform;
pub mod release;
pub mod repository;
pub mod resolver;
pub mod tag;
pub mod text;
pub mod timestamp;
pub mod version;

pub use crate::error::Error;
pub use crate::release::{ArchiveType, Platform, ReleaseType};
pub use crate::repository::SafeReleaseRepository;
pub use crate::version::Version;
