//! Template rendering for an HTTP client's request collections.
//!
//! A [`template::Template`] is a string cut into raw chunks and key chunks. Rendering
//! resolves each key against a [`context::TemplateContext`]: overrides first, then
//! profile fields (rendered recursively), chains and environment variables.
//! Everything that an outside collaborator produces (environment, files, commands,
//! prompts, HTTP history and fresh responses, the current time) reaches the
//! library as plain values inside the context.

pub mod template;
pub mod error;
pub mod context;
pub mod chain;
pub mod render;
pub mod laws;
pub mod profile_select;
