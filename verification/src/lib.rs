//! Rules of a manager for LilyPond scores and toolchain versions: how a
//! version token is classified and resolved against a release catalog, what
//! an install or uninstall has to do, and the text the tool prints.

pub mod activate;
pub mod case;
pub mod clean;
pub mod commands;
pub mod compile;
pub mod config;
pub mod create;
pub mod edit;
pub mod global;
pub mod helpers;
pub mod info;
pub mod install;
pub mod installed;
pub mod list;
pub mod listing;
pub mod models;
pub mod open;
pub mod order;
pub mod paths;
pub mod pattern;
pub mod patterns;
pub mod releases;
pub mod scores;
pub mod style;
pub mod table;
pub mod templates;
pub mod text;
pub mod uninstall;
pub mod update_path;
pub mod update_version;
pub mod version;
