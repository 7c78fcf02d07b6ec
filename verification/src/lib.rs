//! Request validation, query planning and response decisions of a small
//! task-manager web service, verified with Verus.
pub mod text;
pub mod models;
pub mod password;
pub mod auth;
pub mod tasks;
pub mod middleware;
pub mod config;
