//! Verified core of the OBS bridge for water polo match streaming: the rules
//! that decide what each overlay shows, the dock summary, the connection
//! settings and the reconnection policy.
pub mod models;
pub mod display;
pub mod text;
pub mod config;
pub mod state;
pub mod cloud;
pub mod server;
