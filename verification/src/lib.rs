//! Task orchestration engine for a set of package managers: a TTL cache, a
//! retry policy, a per-resource execution serializer, a job store and an
//! aggregator, with the text adapters that read each manager's output.
//!
//! The library decides and keeps records; it runs no process and touches
//! no file. A caller runs the command lines that the adapters build, hands
//! the output back to be read, and does what the job store asks for.
//!
//! - `cache`, `codec`, `json`: the cache of package listings and its files.
//! - `retry`, `executor`: trying again with a growing delay, and one
//!   operation per resource at a time.
//! - `jobs`, `batch`: the life of a job from its submission to its end.
//! - `aggregate`, `scope`: one query over many managers, and where it works.
//! - `manager`, `managers`, `registry`, `adapter`, `documents`, `sizes`:
//!   the managers, their command lines and the readers of their output.
//! - `app_state`, `tui`, `view`, `logging`, `paths`: what the front ends
//!   decide.
//! - `text`, `clock`, `places`, `error`, `package`: what all of them share.

pub mod adapter;
pub mod aggregate;
pub mod app_state;
pub mod batch;
pub mod cache;
pub mod clock;
pub mod codec;
pub mod documents;
pub mod error;
pub mod executor;
pub mod jobs;
pub mod json;
pub mod logging;
pub mod manager;
pub mod managers;
pub mod package;
pub mod paths;
pub mod places;
pub mod registry;
pub mod retry;
pub mod scope;
pub mod sizes;
pub mod text;
pub mod tui;
pub mod view;
