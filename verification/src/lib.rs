//! Build configuration model for scaffolded C projects, and the artifacts
//! derived from it: compiler and linker invocations, a Makefile and a
//! compilation database.

pub mod command;
pub mod config;
pub mod database;
pub mod decode;
pub mod document;
pub mod encode;
pub mod error;
pub mod makefile;
pub mod scaffold;
pub mod store;
pub mod text;
