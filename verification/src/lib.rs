//! Provisioning of peering sessions for a self-hosted autonomous-system
//! overlay: requests are validated against the domain's format rules, every
//! host-local artifact — interface name, listen port, file paths, the two
//! configuration documents — is derived deterministically, peers are kept
//! in a registry keyed by autonomous-system number, and the host mutations
//! owed for a peer are handed out as ordered action plans for the caller to
//! run under one process-wide lock.

pub mod config;
pub mod db;
pub mod gen_config;
pub mod handler;
pub mod ipv6;
pub mod model;
pub mod system;
pub mod text;
