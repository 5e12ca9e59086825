//! Runtime supervision layer of a local operator process: versioned frontend
//! packages, supervised worker processes and coordinated shutdown.

pub mod text;
pub mod decimal;
pub mod semver;
pub mod errors;
pub mod manifest;
pub mod repository;
pub mod api_servers;
pub mod shutdown;
pub mod paths;
pub mod project_paths;
pub mod listener;
pub mod serving;
pub mod router;
pub mod releases;
pub mod frontend;
pub mod tarflate;
pub mod api;
