//! The verified core of a web tool for building, running and load testing
//! HTTP requests.
pub mod auth;
pub mod collections;
pub mod headers;
pub mod load_tests;
pub mod logs;
pub mod middleware;
pub mod models;
pub mod new_request;
pub mod run;
pub mod server;
pub mod statics;
pub mod tabs;
pub mod templates;
pub mod text;
pub mod update_request;
pub mod users;
