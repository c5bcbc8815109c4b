//! Dynamic DNS engine: discovers the machine's public IP address through a
//! set of lookup providers with same-family failover, scans a hosted zone's
//! record sets page by page, decides whether the record is stale and builds
//! the create-or-replace change that brings it up to date.
pub mod address;
pub mod provider;
pub mod failover;
pub mod scanner;
pub mod reconcile;
pub mod config;
pub mod session;
