//! Workspace and worktree orchestration.
//!
//! The library turns a flat working directory into a navigable tree of
//! source-control workspaces and plans the provisioning of repository clones
//! and git worktrees inside that tree.  All decisions are made here, on plain
//! values; the surrounding binary performs the filesystem reads, directory
//! creation and external `git` invocations that the decisions call for.

pub mod api;
pub mod cloning;
pub mod error;
pub mod github;
pub mod order;
pub mod paths;
pub mod repo_url;
pub mod scan;
pub mod startup;
pub mod text;
pub mod worktree;
