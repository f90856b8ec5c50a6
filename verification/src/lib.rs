//! A build-recipe resolution engine.
//!
//! A recipe describes, per target platform, where an artifact's sources come
//! from and which shell steps install it, together with the prerequisite
//! artifacts it needs. Resolving a recipe against a session yields either the
//! reference of the finished artifact, the next submission the build executor
//! has to perform, or the error that stopped it. The library decides and
//! never performs: the caller has the executor perform each submission and
//! enters its answer in the session.
//!
//! - [`platform`], [`template`], [`plan`], [`error`]: the values involved.
//! - [`recipe`]: the description of an artifact, and platform selection.
//! - [`session`]: the registry of submissions issued in one run.
//! - [`model`]: what resolving means; [`resolver`]: the code that does it.
//! - [`laws`], [`progress`]: what holds of every resolution.
//! - [`composer`], [`project`], [`devenv`]: the project built in one session.
//! - [`artifact`], [`toolchain`]: the recipes.

pub mod artifact;
pub mod composer;
pub mod devenv;
pub mod error;
pub mod laws;
pub mod model;
pub mod plain;
pub mod plan;
pub mod platform;
pub mod progress;
pub mod project;
pub mod recipe;
pub mod resolver;
pub mod session;
pub mod template;
pub mod toolchain;
