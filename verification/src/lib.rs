//! The decision-making core of a real-time AI voice orchestrator: credential
//! stores, configuration validation, provider selection and wire formats, the
//! engine control protocol, media negotiation, and the turn-taking state
//! machine of each voice session.
pub mod clock;
pub mod config;
pub mod edge;
pub mod engines;
pub mod health;
pub mod ids;
pub mod llm;
pub mod session;
pub mod stores;
pub mod text;
