//! A tile-based world for a single-player exploration game: a bounded grid of
//! tile codes, the blocked and harvestable cells derived from it, the window
//! of chunks kept resident around the player, and the player's survival
//! attributes with the rules that move them.
//!
//! Every function here carries a contract over a mathematical model of the
//! data it touches, and the contracts are machine-checked.

pub mod assoc;
pub mod chunks;
pub mod components;
pub mod game;
pub mod harvest;
pub mod inventory;
pub mod json;
pub mod movement;
pub mod player;
pub mod ui;
pub mod world;
