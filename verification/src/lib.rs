//! A generator of project scaffolding. Templates are filled in with the
//! names of a resource, existing files are patched at literal anchors,
//! registries of modules grow by one line at a time, and migrations get
//! numbered directories.
//!
//! The library decides and computes; it touches no file. Whoever calls it
//! reads and writes on its behalf: a run of a [`materializer::Materializer`]
//! or of a [`creation::ProjectCreation`] hands out one request at a time and
//! takes the answer to it. Every function states what it returns over
//! sequences of characters, and is verified against that statement.
//!
//! - [`text`]: searching and replacing in text.
//! - [`naming`]: the forms of a resource name.
//! - [`expander`]: placeholders in templates.
//! - [`patcher`]: anchored changes to existing files.
//! - [`registry`]: append-only lists of module declarations.
//! - [`migration`]: numbered migration directories.
//! - [`store`]: the table of templates.
//! - [`materializer`]: one plan of assets, patches, registrations and
//!   migrations, carried through step by step.
//! - [`manifest`]: dependencies in a TOML manifest.
//! - [`creation`] and [`project`]: new projects and new resources.
//! - [`content`] and [`plugins`]: what is generated for a model, a
//!   migration and the authentication plugin.

pub mod content;
pub mod creation;
pub mod expander;
pub mod files;
pub mod manifest;
pub mod materializer;
pub mod migration;
pub mod naming;
pub mod patcher;
pub mod plugins;
pub mod project;
pub mod registry;
pub mod store;
pub mod text;
