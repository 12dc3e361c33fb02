//! Verified core of a command-line chat client.
//!
//! The client forwards what the user types to a completion service, shows
//! the reply as it streams in and keeps a transcript of the chat. This
//! crate holds what the client decides: which texts it accepts, how a turn
//! of the chat proceeds, and which part of the transcript is still worth
//! sending to the service. Reading, writing, the calls to the service and
//! all arithmetic on embeddings are left to the caller.

pub mod api_key;
pub mod embedding;
pub mod message;
pub mod model;
pub mod partition;
pub mod score;
pub mod show;
pub mod single;
pub mod temperature;
pub mod text;
pub mod transcript;
pub mod turn;
