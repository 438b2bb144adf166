//! Loading of plugins: shared libraries that export factories for importers,
//! exporters and transformers.
//!
//! The verified part decides everything that does not touch the loaded code:
//! which file a plugin lives in on each platform, which symbol each capability
//! is looked up under, and how the outcomes of a lookup and of a factory call
//! become the result of a creation.
pub mod creation;
pub mod error;
pub mod naming;
