//! A small turn-based battle engine: a party of three heroes (Warrior, Mage,
//! Priest) fights a single enemy. The player picks one action per turn from a
//! menu; the engine resolves damage, healing, shielding, blocking and sleep,
//! advances phases on a countdown, and detects the win and lose outcomes.

pub mod actions;
pub mod cycler;
pub mod engine;
pub mod laws;
pub mod model;
pub mod resolve;
