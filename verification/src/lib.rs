//! Storage, authentication and access control of a server that keeps users'
//! circuit designs.
pub mod api;
pub mod auth;
pub mod config;
pub mod model;
pub mod storage;
