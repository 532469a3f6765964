//! A verified core for a directory-watching document pipeline: filesystem
//! notifications are classified into candidate paths, candidate files are
//! split into front matter and content, and validated document records are
//! assembled for a downstream sink.

use vstd::prelude::*;

pub mod error;
pub mod front;
pub mod model;
pub mod settings;
pub mod text;
pub mod watcher;
mod yaml;

verus! {

/// Smoke hook for environment checks; deliberately empty.
pub fn test_environments() {
}

} // verus!
