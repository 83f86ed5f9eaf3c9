//! The simpler per-creep logic and the role-based spawner.
pub mod creep_logic;
pub mod spawning;
