//! Verified statement building and data rules for the local storage layer of
//! the desktop backend.
pub mod backend;
pub mod binding;
pub mod clock;
pub mod json;
pub mod local;
pub mod migrations;
pub mod model;
pub mod repo;
pub mod sql;
pub mod text;
