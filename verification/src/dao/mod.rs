//! What the library knows of the database that holds the frames.

pub mod connection_config;
pub mod sequence_data;

pub use self::connection_config::ConnectionConfig;
pub use self::sequence_data::channel_matrix;
