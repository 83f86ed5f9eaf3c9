//! Decision logic of a Screeps bot: target bookkeeping for creeps, movement
//! fallbacks, spawn planning and memory cleanup, each stated and proved.
pub mod position;
pub mod table;
pub mod types;
pub mod movement;
pub mod body;
pub mod naming;
pub mod game_logic;
pub mod creep;
pub mod systems;
