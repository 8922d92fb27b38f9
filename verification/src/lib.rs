//! Generator of POSIX-shell argument-parsing scripts.
//!
//! A [`model::Config`] describes a command-line interface: a program name,
//! ordered positional arguments and ordered flags. [`render::FlagParser`]
//! turns such a description into the text of a standalone shell script that
//! parses, validates and defaults those arguments.

pub mod laws;
pub mod model;
pub mod render;
pub mod text;
