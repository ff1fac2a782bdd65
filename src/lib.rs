//! Resolving, selecting and installing a platform build of an executable
//! from a release registry, with a crash-safe replacement protocol.
pub mod download;
pub mod error;
pub mod pipeline;
pub mod platform;
pub mod policy;
pub mod release;
pub mod replace;
pub mod text;
