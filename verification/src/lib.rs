//! Game rules of a 3D vector shooter: entity bookkeeping, enemy awareness,
//! scoring, waves and the index buffers the scenes are drawn with.
pub mod alert;
pub mod base;
pub mod biome;
pub mod collections;
pub mod collision;
pub mod enemy;
pub mod input;
mod random;
pub mod render;
pub mod sound;
pub mod spawning;
pub mod waves;
