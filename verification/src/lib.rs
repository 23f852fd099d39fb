pub mod backup;
pub mod command;
pub mod config;
pub mod executor;
pub mod image;
pub mod locator;
pub mod mounts;
pub mod report;
pub mod text;
