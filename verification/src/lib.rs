//! Verified core of a small blue/green deployment controller for Docker
//! hosts: configuration, container roles, system status, image and registry
//! lookups, schedules and the health-check decisions.

pub mod role;
pub mod text;
pub mod status;
pub mod logs;
pub mod slots;
pub mod config;
pub mod image;
pub mod registry;
pub mod schedule;
pub mod control;
pub mod containers;
pub mod logging;
pub mod laws;
