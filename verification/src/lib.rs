//! A compact one-line summary of a git working directory, meant for a shell
//! prompt: branch or tag identity, staged and unstaged change counts,
//! divergence from the tracked upstream, and conflict counts.
pub mod collect;
pub mod laws;
pub mod status;
pub mod text;

pub use collect::fallback_branch;
pub use collect::resolve_branch;
pub use collect::upstream_summary;
pub use collect::short_commit_id;
pub use status::GitStatus;
pub use status::metadata_too_large;
