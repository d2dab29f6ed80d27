//! Core logic of a service that reads Minecraft player statistics and
//! serves them: pagination and sorting of queries, configuration,
//! stats-file handling, the username cache and the decisions taken
//! around each database operation.

pub mod text;
pub mod pagination;
pub mod config;
pub mod player_id;
pub mod paths;
pub mod stats_file;
pub mod models;
pub mod db_ops;
pub mod username_cache;
pub mod queries;
pub mod graphql;
pub mod server;
