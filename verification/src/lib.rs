//! Frame-by-frame simulation core of a side-scrolling action game: fixed-point
//! vectors, a tile collision map, the shared physical actor, the player, enemy
//! and particle state machines, and the orchestrator that advances one frame.

pub mod number;
pub mod vector;
pub mod level;
pub mod entity;
pub mod sword;
pub mod instruction;
pub mod particle;
pub mod player;
pub mod enemy;
pub mod arena;
pub mod game;
