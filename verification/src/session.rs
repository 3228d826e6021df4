//! Sessions: conversation state, the turn-taking loop and the session registry.
pub mod state;
pub mod turn;
pub mod speech;
pub mod registry;
pub mod admission;
pub mod negotiation;
