//! A personal package and dotfile reconciliation library: it models the
//! declarative manifest of a machine's installed packages and dotfiles,
//! turns that manifest into descriptions of the external-process invocations
//! that capture or reapply it, and classifies each invocation's outcome into
//! a typed result. The processes themselves (package managers, git, link and
//! sync tools) run outside the library; it plans and judges, and never
//! spawns.

pub mod codec;
pub mod commits;
pub mod config;
pub mod generate;
pub mod install;
pub mod manifest;
pub mod outcome;
pub mod proxies;
pub mod remove;
pub mod restore;
pub mod sync;
pub mod text;
