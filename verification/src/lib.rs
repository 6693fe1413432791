//! Core library for a command-line client of an avatar-hosting service:
//! the authenticated-session lifecycle, the credential persistence format,
//! the local catalog and alias tables, and identifier resolution.

pub mod alias;
pub mod auth;
pub mod catalog;
pub mod credential;
pub mod errors;
pub mod fetch;
pub mod resolver;
pub mod switching;
pub mod text;
