//! Decides, for a two-piece chess position written as an 8×8 text grid,
//! which side can capture the other.

pub mod checks;
pub mod chess_error;
pub mod color;
pub mod describe;
pub mod fight_result;
pub mod kinds;
pub mod laws;
pub mod movement;
pub mod parsing;
pub mod piece;
pub mod piece_list;
pub mod piece_type;
pub mod position;
pub mod text;
