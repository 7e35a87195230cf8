//! Reconciliation core of an operator that runs an analytics web server from a
//! declarative cluster object, with an optional LDAP authentication backend.

pub mod volume;
pub mod authentication;
pub mod cluster;
pub mod meta;
pub mod config;
pub mod resources;
pub mod controller;
pub mod reconcile;
