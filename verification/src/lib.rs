//! A Q-learning core for the board game cerke: a codec between structured
//! game moves and a fixed-size flat action space with legality masking,
//! feature-vector encoding of game states, a bounded experience-replay
//! memory with randomized eviction, and the decision logic of the
//! training loop. The game-rule engine and the numeric value estimator
//! are outside collaborators; this crate holds the logic between them.
pub mod agent;
pub mod board;
pub mod environment;
pub mod mask;
pub mod memory;
pub mod moves;
pub mod piece;
pub mod policy;
mod rng;
pub mod state;
pub mod state_to_feature;
