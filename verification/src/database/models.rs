//! A game as the local database records it.
use vstd::prelude::*;

verus! {

/// A recorded game.
#[derive(Debug)]
pub struct GameRecord {
    pub id: Option<i64>,
    pub game_id: String,
    pub champion: String,
    pub game_mode: String,
    pub start_time: String,
    pub end_time: Option<String>,
    pub kda: Option<String>,
    pub created_at: Option<String>,
}

} // verus!
