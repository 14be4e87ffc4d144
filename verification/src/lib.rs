//! Verified core of a project scaffolder: it resolves an archetype by name,
//! reads its manifest, collects the rendering context, plans the rendered tree
//! and sequences the post-creation hooks.
//!
//! Everything that touches the file system, the terminal or a child process is
//! left to the caller. The functions here take what the caller observed as plain
//! values and return what has to be done next.
//!
//! - `config`: the application's configuration and its search settings.
//! - `locate`: from an archetype's name to its template directory.
//! - `document`, `manifest`: from the text of a manifest to its variables and hooks.
//! - `context`, `collect`: the rendering context and how it is filled.
//! - `engine`: the template engine.
//! - `render`: from the entries of a template tree to directories and files.
//! - `hooks`: the post-creation commands, one at a time.
//! - `archetype`: a loaded archetype and the stages of making a project from it.
//! - `scaffold`: projects from the templates shipped with the program.
//! - `dependencies`: the text of a project's dependencies file.
//! - `cmake`: the project's name and the usage of a package, read out of text.
//! - `patterns`: regular expressions.
//! - `error`, `path`, `text`: what the others share.

pub mod archetype;
pub mod cmake;
pub mod collect;
pub mod config;
pub mod context;
pub mod dependencies;
pub mod document;
pub mod engine;
pub mod error;
pub mod hooks;
pub mod locate;
pub mod manifest;
pub mod path;
pub mod patterns;
pub mod render;
pub mod scaffold;
pub mod text;
