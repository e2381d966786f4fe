//! Rules engine of a five-dice category-scoring game: the hand and its
//! rerolls, the score of a hand in each category, and the score card.

pub mod calchand;
pub mod hand;
pub mod laws;
pub mod line;
pub mod scorecard;
pub mod state;
pub mod text;
