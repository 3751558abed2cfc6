//! In-memory model of a player's recurring dungeon rewards: a static
//! catalogue of dungeons and their paths, coin amounts, and a per-player
//! tracker for daily completions and rotating achievement credit.

pub mod api_key;
pub mod coins;
pub mod dungeon;
pub mod sets;
pub mod text;
pub mod uri;
