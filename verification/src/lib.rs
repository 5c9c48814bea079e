//! Switching a Codex configuration between the official login and one external provider.
pub mod text;
pub mod toml_read;
pub mod routing;
pub mod toml_doc;
pub mod profiles;
pub mod profile_laws;
pub mod paths;
pub mod backups;
pub mod keychain;
pub mod flows;
pub mod flow_laws;
pub mod routing_laws;
