//! Verified core of a cellular-automaton simulator: a catalog of birth/survival
//! rules, a deterministic seeded grid initializer, a double-buffered toroidal
//! stepping engine, a real-time pacing controller, and the orchestrating
//! simulation state with validating setters.

pub mod rules;
pub mod seeding;
pub mod grid;
pub mod pacing;
pub mod state;
