//! Manifest-driven installation of configuration files as symbolic links.
//!
//! The library decides; its caller touches the disk. Each declaration of a
//! manifest becomes an [`machine::Installer`], a small state machine that asks
//! one question of the filesystem at a time and ends in an
//! [`machine::Outcome`]. The module [`world`] holds a mathematical model of a
//! filesystem and the laws that the machine obeys on it.

pub mod paths;
pub mod machine;
pub mod manifest;
pub mod world;
