//! The shapes and decisions of the dashboard's HTTP API.
pub mod backend;
pub mod dto;
