//! A server-rendered blog library: data access over a modeled relational
//! store, a closed taxonomy of user-facing errors, and one request handler
//! per route, each rendering an HTML template through the `tera` engine.

pub mod db;
pub mod errors;
pub mod render;
pub mod routes;
