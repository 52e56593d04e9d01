pub mod classify;
pub mod config;
pub mod ingest;
pub mod process;
pub mod remote;
pub mod status;
pub mod store;
pub mod text;
pub mod tweet;
