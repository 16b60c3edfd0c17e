//! Guess evaluation and round state for a word-guessing game.

pub mod answer_history_letter;
pub mod api;
pub mod game_status;
pub mod render;
pub mod text;
pub mod word_list;

pub use answer_history_letter::{AnswerHistoryLetter, LetterStatus};
pub use word_list::{EmptyListError, WordList};
pub use api::AnswerHistoryResponse;
pub use game_status::GameStatus;
