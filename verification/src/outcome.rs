//! How a finished round ends for the player.

use vstd::prelude::*;
use crate::scoring::{hand_total, BJValue};

verus! {

/// The result of a round, seen from the player's side.
///
/// Comparing the two finished hands gives `Push`, `Win` or `Loss`.
/// `BlackJack` and `Surrender` are declared by whoever runs the round,
/// before the hands are ever compared.
#[derive(Clone, Copy, Debug, PartialEq, Eq, Hash, Structural)]
pub enum Outcome {
    Push,
    Win,
    Loss,
    BlackJack,
    Surrender,
}

/// The result of comparing the best totals of the two finished hands. The
/// first of these that holds decides: the player is bust, a loss; the
/// dealer is bust, a win; the dealer has more, a loss; the player has more,
/// a win; the totals are equal, a push.
pub open spec fn resolved(dealer_total: nat, player_total: nat) -> Outcome {
    if player_total > 21 {
        Outcome::Loss
    } else if dealer_total > 21 {
        Outcome::Win
    } else if dealer_total > player_total {
        Outcome::Loss
    } else if player_total > dealer_total {
        Outcome::Win
    } else {
        Outcome::Push
    }
}

/// Settles a round from the totals of the two finished hands, as scoring
/// reports them.
pub fn resolve(dealer_total: u8, player_total: u8) -> (outcome: Outcome)
    ensures
        outcome == resolved(dealer_total as nat, player_total as nat),
{
    if player_total > 21 {
        Outcome::Loss
    } else if dealer_total > 21 {
        Outcome::Win
    } else if dealer_total > player_total {
        Outcome::Loss
    } else if player_total > dealer_total {
        Outcome::Win
    } else {
        Outcome::Push
    }
}

/// Compares the finished hands of dealer and player.
pub fn get_outcome<Dealer: BJValue, Player: BJValue>(
    dealer_hand: &Dealer,
    player_hand: &Player,
) -> (outcome: Outcome)
    ensures
        outcome == resolved(hand_total(dealer_hand.ranks()), hand_total(player_hand.ranks())),
{
    if player_hand.is_bust() {
        return Outcome::Loss;
    } else if dealer_hand.is_bust() {
        return Outcome::Win;
    }
    resolve(dealer_hand.value(), player_hand.value())
}

/// A player who is bust has lost, whatever the dealer holds, a bust too.
pub proof fn lemma_player_bust_loses(dealer_total: nat, player_total: nat)
    requires
        player_total > 21,
    ensures
        resolved(dealer_total, player_total) == Outcome::Loss,
{
}

/// A player who is not bust wins against a dealer who is.
pub proof fn lemma_dealer_bust_wins(dealer_total: nat, player_total: nat)
    requires
        player_total <= 21,
        dealer_total > 21,
    ensures
        resolved(dealer_total, player_total) == Outcome::Win,
{
}

/// With neither side bust the higher total wins, and equal totals push.
pub proof fn lemma_higher_total_wins(dealer_total: nat, player_total: nat)
    requires
        player_total <= 21,
        dealer_total <= 21,
    ensures
        dealer_total == player_total <==> resolved(dealer_total, player_total) == Outcome::Push,
        dealer_total < player_total <==> resolved(dealer_total, player_total) == Outcome::Win,
        dealer_total > player_total <==> resolved(dealer_total, player_total) == Outcome::Loss,
{
}

/// Comparing hands never declares a blackjack or a surrender.
pub proof fn lemma_resolved_is_push_win_or_loss(dealer_total: nat, player_total: nat)
    ensures
        resolved(dealer_total, player_total) != Outcome::BlackJack,
        resolved(dealer_total, player_total) != Outcome::Surrender,
{
}

} // verus!
