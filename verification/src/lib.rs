//! Verified core of a chat command handler for a live-streaming helper.
use vstd::prelude::*;

pub mod alias;
pub mod clock;
pub mod collection;
pub mod command;
pub mod dispatch;
pub mod error;
pub mod handler;
pub mod hearing;
pub mod laws;
pub mod message;
pub mod outcomes;
pub mod phrase;
pub mod reading;
pub mod rules;
pub mod runs;
pub mod scene;
pub mod servers;
pub mod settings;
pub mod stream;
pub mod text;
pub mod turn;
pub mod twitch;

verus! {

} // verus!
