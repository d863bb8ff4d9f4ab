//! Document model and template-resolution engine for a hypermedia content
//! protocol (HCP) and its file format (HCF).
//!
//! The heart of the crate is [`Content`], a recursive tree of typed content
//! nodes, and its templating transformation [`Content::template`], which
//! eliminates the templating directives (`If`, `Ctx`) given a substitution
//! context and a set of active feature flags. The surrounding envelope types
//! ([`File`], [`Header`], [`Request`], [`Response`]) are thin data schemas.

pub mod content;
pub mod context;
pub mod engine;
pub mod file;
pub mod header;
pub mod laws;
pub mod outside;
pub mod request;
pub mod response;

pub use content::Content;
pub use content::Node;
pub use context::Context;
pub use engine::TemplateError;
pub use engine::TEMPLATE_DEPTH;
pub use file::File;
pub use header::Header;
pub use request::Request;
pub use response::Response;
