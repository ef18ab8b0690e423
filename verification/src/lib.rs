//! Verified core of the maker dashboard: maker configuration, the maker
//! registry and its lifecycle decisions, config-file field mapping and the
//! request/response shapes of the HTTP API.
pub mod text;
pub mod maker_manager;
pub mod api;
pub mod utils;
