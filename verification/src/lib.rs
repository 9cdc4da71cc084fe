//! DevFlow, a development runner for native and cross-platform apps: project
//! and device discovery, builds, diagnostics, live sessions and their
//! cross-terminal control, as a library whose functions carry verified
//! contracts. Running tools, reading files and talking over sockets stay
//! with the caller, which hands the library what it found.
pub mod text;
pub mod split;
pub mod number;
pub mod updater;
pub mod platform;
pub mod config;
pub mod explainer;
pub mod order;
pub mod search;
pub mod session;
pub mod paths;
pub mod registry;
pub mod devices;
pub mod json;
pub mod apple;
pub mod project;
pub mod doctor;
pub mod adapters;
pub mod error;
pub mod ipc;
pub mod logs;
pub mod target_actions;
pub mod running;
pub mod env;
pub mod cli;
pub mod host_config;
pub mod routes;
