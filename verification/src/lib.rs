pub mod agent;
pub mod api;
pub mod atrium;
pub mod client;
pub mod identifier;
pub mod text;
pub mod types;
