//! The rules of a chat bot: a queue of films to vote on, a log of the songs
//! posted to a music channel, charts looked up for listeners, and the relay
//! that turns links to videos into audio messages.

pub mod clock;
pub mod command;
pub mod data;
pub mod message;
pub mod text;
pub mod words;
pub mod youtube;
