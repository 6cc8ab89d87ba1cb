//! Core logic of a local PHP development stack manager: the layout of its
//! home directory, the parked-path registry, the routing of `.test` sites,
//! the configuration files it writes for nginx and php-fpm, and the parsing
//! of database client output.

pub mod text;
pub mod paths;
pub mod config;
pub mod templates;
pub mod ports;
pub mod settings_json;
pub mod error;
pub mod site;
pub mod service;
pub mod database;
pub mod runtime;
pub mod install;
