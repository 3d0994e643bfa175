//! Resolves and fetches the precompiled HiGHS solver package that matches a
//! build target, for a build script to unpack and link against.
//!
//! `target` maps a target triple to the archive to download and builds its
//! URL. `install` holds the decisions of the install operation as a state
//! machine: the caller performs each action it asks for and reports how it
//! went.
pub mod install;
pub mod target;

pub use install::{download_highs, Action, Event, FailureKind, FetchError, Fetcher, Phase};
pub use target::{binary_name, download_url, is_supported_target};
