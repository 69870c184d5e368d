pub mod discord_timestamp;
pub mod message;
pub mod progress_bar;
