//! Authentication core of a small catalog service: password hashing, opaque
//! bearer tokens with a fixed lifetime, and the request-time step that turns a
//! presented token into an authenticated user.

pub mod error;
pub mod id;
pub mod model;
pub mod password;
pub mod bearer;
pub mod auth;
pub mod token_store;
pub mod user;
pub mod user_repository;
pub mod auth_repository;
pub mod config;
pub mod registry;
pub mod extractor;
