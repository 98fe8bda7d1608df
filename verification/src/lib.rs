//! Access-control core for a multi-tenant map service backend.
//!
//! The crate issues, verifies and refreshes signed session tokens, decides
//! whether a guarded request may reach its handler, and keeps a locally
//! stored "access code" reconciled with an external identity source.
//! Network and database traffic stay outside; every function here works on
//! plain values and carries a proved contract.

pub mod code_service;
pub mod code_store;
pub mod code_sync;
pub mod config;
pub mod errors;
pub mod handlers;
pub mod maps;
pub mod middleware;
pub mod status_colors;
pub mod text;
pub mod tokens;
pub mod zoho_api;
