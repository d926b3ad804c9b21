//! Records that the bot stores and the configuration it reads.
pub mod config;
pub mod database;
