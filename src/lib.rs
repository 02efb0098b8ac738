//! Deployment manager: the server's per-client deployment state machine, its
//! version catalog rules, and the agent's safe update transaction with rollback.
pub mod text;
pub mod checksum;
pub mod models;
pub mod registry;
pub mod catalog;
pub mod checkin;
pub mod transaction;
pub mod archive;
pub mod agent;
pub mod polling;
pub mod offline;
pub mod server_config;
