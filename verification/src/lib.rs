//! A declarative, idempotent machine-provisioning engine.
//!
//! A configuration names the updates, the tools and the SSH key that a
//! machine should have. The engine finds out which of them are still missing
//! and runs, for each, a recipe: an ordered list of external processes, some
//! of them joined by pipes.
//!
//! The library decides; it never touches the operating system itself. Its
//! owner asks a [`planner::Planner`] what to do next (spawn a process, wait
//! for one, look for a directory), does it, and reports what happened.
//!
//! - [`config`]: the configuration, and the requests it stands for
//! - [`model`]: facts, requests and steps
//! - [`recipe`]: the recipe table
//! - [`executor`]: the pipeline executor
//! - [`presence`]: the presence checker
//! - [`facts`]: the fact resolver
//! - [`planner`]: the plan runner
//! - [`text`]: decoding what a process printed

pub mod config;
pub mod executor;
pub mod facts;
pub mod model;
pub mod planner;
pub mod presence;
pub mod recipe;
pub mod text;
