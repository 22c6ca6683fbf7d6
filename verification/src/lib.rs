//! Account session management for a subscription-gated network client:
//! device identity, credential persistence, the authenticated-session record
//! and the decisions of the background synchronisation loop.

pub mod common;
pub mod text;
pub mod account;
pub mod json;
pub mod backend;
pub mod identity;
pub mod store;
pub mod manager;
pub mod sync;
pub mod commands;
pub mod web_login;
pub mod clash;
