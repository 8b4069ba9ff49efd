//! A verified core for a service that runs WordPress instances in Docker
//! containers and keeps track of database backup jobs.

pub mod backup;
pub mod backup_job;
pub mod config;
pub mod init;
pub mod instance;
pub mod plans;
pub mod sled_store;
pub mod text;
