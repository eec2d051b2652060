pub mod cli;
pub mod client;
pub mod events;
pub mod fields;
pub mod metrics;
pub mod payload;
pub mod runid;
pub mod state;
pub mod text;
