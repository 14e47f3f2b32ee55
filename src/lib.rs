//! Match-execution core for turn-based games between people and HTTP agents.
use vstd::prelude::*;

pub mod board;
pub mod codec;
pub mod config;
pub mod connect4;
pub mod driver;
pub mod executor;
pub mod forms;
pub mod games;
pub mod matches;
pub mod mcts;
pub mod notifier;
pub mod store;
pub mod templates;
pub mod text;
pub mod types;
pub mod web;

verus! {

} // verus!
