//! Template selection and theme namespacing for a static site generator.
//!
//! The template store itself is `tera::Tera`; this library decides which of
//! its entries a render uses and how a theme's entries are renamed so that
//! they can live beside the site's own.
pub mod engine;
pub mod laws;
pub mod resolve;
pub mod rewrite;
