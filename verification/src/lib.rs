//! Export of a deployed service's configuration to a `railway.toml` or
//! `railway.json` file.

pub mod choice_laws;
pub mod command;
pub mod config;
pub mod details;
pub mod error;
pub mod export_laws;
pub mod function_laws;
pub mod json;
pub mod laws;
pub mod manifest;
pub mod model;
pub mod normalised;
pub mod project_laws;
pub mod request;
pub mod run_laws;
pub mod search;
pub mod select;
pub mod text;
pub mod view_laws;
