//! The decisions of one round at the table.
//!
//! Dealing, printing and asking are the caller's work. What follows from
//! the cards and from the player's answer is decided here: which choices to
//! offer, what an answer means, what happens after the deal, and whether the
//! player chose as basic strategy recommends.

use vstd::prelude::*;
use crate::hand::{hand_ranks, ranks_of};
use crate::outcome::Outcome;
use crate::rank::Rank;
use crate::scoring::{capped, hand_is_blackjack, hand_is_soft, hand_total, BJValue};
use crate::strategy::{correct_action, get_correct_action, Action};

verus! {

/// Whether the cards are a pair that may be split: two cards of one rank,
/// and not aces.
pub open spec fn splittable(ranks: Seq<Rank>) -> bool {
    ranks.len() == 2 && ranks[0] == ranks[1] && ranks[0] != Rank::Ace
}

/// Whether the player's hand is a pair that may be split.
pub fn can_split(player_hand: &deckofcards::Hand) -> (split: bool)
    ensures
        split == splittable(hand_ranks(*player_hand)),
{
    let ranks: Vec<Rank> = ranks_of(player_hand);
    // can't split on aces
    ranks.len() == 2 && ranks[0] == ranks[1] && ranks[0] != Rank::Ace
}

/// The choices that are put before the player.
#[derive(Clone, Copy, Debug, PartialEq, Eq, Hash, Structural)]
pub enum Menu {
    /// Hit or stand.
    HitOrStand,
    /// Hit, stand, double down or surrender.
    FirstTwoCards,
    /// Hit, stand, double down, split or surrender.
    FirstTwoCardsWithSplit,
}

/// The choices for a hand of these cards: doubling down and surrender are
/// offered on the first two cards only, and a split only on a pair that
/// may be split.
pub open spec fn menu_of(ranks: Seq<Rank>) -> Menu {
    if ranks.len() != 2 {
        Menu::HitOrStand
    } else if splittable(ranks) {
        Menu::FirstTwoCardsWithSplit
    } else {
        Menu::FirstTwoCards
    }
}

/// The choices to put before the player who holds this hand.
pub fn menu_for(player_hand: &deckofcards::Hand) -> (menu: Menu)
    ensures
        menu == menu_of(hand_ranks(*player_hand)),
{
    if player_hand.len() == 2 {
        if can_split(player_hand) {
            Menu::FirstTwoCardsWithSplit
        } else {
            Menu::FirstTwoCards
        }
    } else {
        Menu::HitOrStand
    }
}

/// What `str::trim` makes of a text: the text without the white space at
/// its start and at its end.
pub uninterp spec fn trimmed(text: Seq<char>) -> Seq<char>;

/// `str::trim` returns the part of the text that is left when leading and
/// trailing white space is taken away. The same text always gives the same
/// part; which characters count as white space is left to the standard
/// library.
#[verifier::external_body]
fn trim<'a>(text: &'a str) -> (token: &'a str)
    ensures
        token@ == trimmed(text@),
{
    text.trim()
}

/// The action that a token stands for: `H` to hit, `S` to stand, `D` to
/// double down, `R` to surrender. Any other token stands for none; a split
/// cannot be chosen.
pub open spec fn token_action(token: Seq<char>) -> Option<Action> {
    if token.len() != 1 {
        None
    } else if token[0] == 'H' {
        Some(Action::Hit)
    } else if token[0] == 'S' {
        Some(Action::Stand)
    } else if token[0] == 'D' {
        Some(Action::DoubleDown)
    } else if token[0] == 'R' {
        Some(Action::Surrender)
    } else {
        None
    }
}

/// Reads a token, with no white space around it, as an action.
pub fn action_of_token(token: &str) -> (action: Option<Action>)
    ensures
        action == token_action(token@),
{
    if token.unicode_len() != 1 {
        return None;
    }
    let letter: char = token.get_char(0);
    if letter == 'H' {
        Some(Action::Hit)
    } else if letter == 'S' {
        Some(Action::Stand)
    } else if letter == 'D' {
        Some(Action::DoubleDown)
    } else if letter == 'R' {
        Some(Action::Surrender)
    } else {
        None
    }
}

/// Reads a line that the player typed as an action. White space around the
/// letter is ignored; `None` means that the player has to be asked again.
pub fn parse_action(input: &str) -> (action: Option<Action>)
    ensures
        action == token_action(trimmed(input@)),
{
    action_of_token(trim(input))
}

/// How far a round has come.
#[derive(Clone, Copy, Debug, PartialEq, Eq, Hash, Structural)]
pub enum Stage {
    /// The dealer shows one card and the player holds two.
    Dealt,
    /// The player holds a blackjack and the dealer has taken a second card.
    Peeked,
}

/// What the table does next.
#[derive(Clone, Copy, Debug, PartialEq, Eq, Hash, Structural)]
pub enum Step {
    /// The dealer takes one more card; the round is then at `Stage::Peeked`.
    PeekDealer,
    /// The round is over with this outcome for the player.
    Declare(Outcome),
    /// The round is over and nothing is declared: dealer and player both
    /// hold a blackjack.
    Silence,
    /// The player is asked for a decision; the action is the one that basic
    /// strategy recommends.
    Ask(Action),
}

/// The next step of a round. A player's blackjack is declared at once
/// against an up-card below 10; against 10 or more the dealer first takes a
/// second card, and the blackjack is declared unless the dealer holds one
/// too. A player without a blackjack is asked for a decision.
pub open spec fn step_of(stage: Stage, player: Seq<Rank>, dealer: Seq<Rank>) -> Step {
    match stage {
        Stage::Dealt => {
            if !hand_is_blackjack(player) {
                Step::Ask(
                    correct_action(
                        capped(hand_total(player)),
                        hand_is_soft(player),
                        capped(hand_total(dealer)),
                    ),
                )
            } else if hand_total(dealer) >= 10 {
                Step::PeekDealer
            } else {
                Step::Declare(Outcome::BlackJack)
            }
        },
        Stage::Peeked => {
            if hand_is_blackjack(dealer) {
                Step::Silence
            } else {
                Step::Declare(Outcome::BlackJack)
            }
        },
    }
}

/// Decides the next step of a round from the two hands as they lie.
pub fn next_step<Player: BJValue, Dealer: BJValue>(
    stage: Stage,
    player_hand: &Player,
    dealer_hand: &Dealer,
) -> (step: Step)
    ensures
        step == step_of(stage, player_hand.ranks(), dealer_hand.ranks()),
{
    match stage {
        Stage::Dealt => {
            if player_hand.is_blackjack() {
                if dealer_hand.value() >= 10 {
                    Step::PeekDealer
                } else {
                    Step::Declare(Outcome::BlackJack)
                }
            } else {
                Step::Ask(get_correct_action(player_hand, dealer_hand))
            }
        },
        Stage::Peeked => {
            if dealer_hand.is_blackjack() {
                Step::Silence
            } else {
                Step::Declare(Outcome::BlackJack)
            }
        },
    }
}

/// What the player is told about a decision.
#[derive(Clone, Copy, Debug, PartialEq, Eq, Hash, Structural)]
pub enum Feedback {
    /// The player chose the recommended action.
    Correct,
    /// The player chose otherwise; the recommended action is given.
    Incorrect(Action),
}

/// Holds the player's decision against the recommended action.
pub fn grade(user_action: Action, correct_action: Action) -> (feedback: Feedback)
    ensures
        feedback == if user_action == correct_action {
            Feedback::Correct
        } else {
            Feedback::Incorrect(correct_action)
        },
{
    if user_action == correct_action {
        Feedback::Correct
    } else {
        Feedback::Incorrect(correct_action)
    }
}

} // verus!
