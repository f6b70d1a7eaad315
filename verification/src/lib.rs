//! Blackjack scoring, basic strategy and round resolution for hands of
//! `deckofcards` cards, with every rule stated as a contract and proved.

pub mod hand;
pub mod outcome;
pub mod probability;
pub mod rank;
pub mod round;
pub mod scoring;
pub mod strategy;

pub use hand::ranks_of;
pub use outcome::{get_outcome, resolve, Outcome};
pub use probability::{chance_of_bust, probability_of_value, BJProbability, Probability};
pub use rank::{rank_to_u8, Rank};
pub use round::{can_split, grade, menu_for, next_step, parse_action, Feedback, Menu, Stage, Step};
pub use scoring::BJValue;
pub use strategy::{get_correct_action, recommend, Action};
