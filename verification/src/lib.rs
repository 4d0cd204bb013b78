//! Verified core of a stream-deck companion: the state that the deck shows,
//! the serial messages that carry it, and the decisions taken on deck input,
//! Discord voice settings and Twitch EventSub frames.

pub mod decimal;
pub mod message;
pub mod app_state;
pub mod standalone;
pub mod deck;
pub mod writer;
pub mod discord;
pub mod twitch;
pub mod eventsub;
pub mod laws;
