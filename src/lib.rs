//! Narrows a word list down to the words that are still consistent with the
//! feedback of a word-guessing puzzle (letter in place, letter misplaced,
//! letter absent).
pub mod corpus;
pub mod game;
pub mod input;
pub mod line;
pub mod loader;
pub mod ranking;
pub mod session;
pub mod solver;

pub use game::{AddGuessError, AddGuessErrorVariant, CorpusIterator, ExcludeWordError, WordleGame};
pub use line::{WordleCharStatus, WordleLine};
pub use ranking::{BestNextGuessIterator, GuessScorer, PlaceholderScorer};
pub use solver::NaiveSolver;
