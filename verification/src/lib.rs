//! Verified core of a local-development link daemon: manifest parsing,
//! ecosystem detection, sync-target resolution and link safety rules.

pub mod text;
pub mod paths;
pub mod model;
pub mod fs;
pub mod manifest;
pub mod cargo;
pub mod dart;
pub mod elixir;
pub mod swift;
pub mod go;
pub mod jvm;
pub mod python;
pub mod dotnet;
pub mod ruby;
pub mod json;
pub mod listing;
pub mod composer;
pub mod allowlist;
pub mod npm;
pub mod validate;
pub mod order;
pub mod dispatch;
pub mod adapters;
pub mod monitor;
pub mod screen;
pub mod wizard;
pub mod cli;
