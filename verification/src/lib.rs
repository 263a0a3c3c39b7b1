//! Simulation core of a top-down arena game: the player's swing state
//! machine, hit and pickup resolution, enemy spawning and pursuit, and the
//! local record of collected items with its mirror on a remote ledger.
//!
//! Positions are in thousandths of a pixel, times in microseconds, so every
//! rule of the game is stated and proved over integers.

pub mod color;
pub mod vector;
pub mod ledger;
pub mod action;
pub mod player;
mod chance;
pub mod combat;
pub mod settings;
pub mod sync;
pub mod animation;
pub mod spawner;
pub mod enemy;
