//! The chance that one more card busts a hand.
//!
//! The estimate takes the next card from an endless shoe, in which each of
//! the thirteen ranks is as likely as any other, and counts a drawn ace as
//! 1. Four ranks are worth 10, so a draw of 10 has four chances in thirteen
//! and every other draw from 1 to 9 has one. Chances are kept as whole
//! thirteenths, so that every probability is exact.

use vstd::prelude::*;
use crate::rank::Rank;
use crate::scoring::{hand_total, BJValue};

verus! {

/// The number of ranks, and so the denominator of every probability here.
pub const RANKS: u8 = 13;

/// The highest value that one drawn card can add.
pub const HIGHEST_DRAW: u8 = 10;

/// A probability as a fraction, `numerator` chances in `denominator`.
#[derive(Clone, Copy, Debug, PartialEq, Eq, Structural)]
pub struct Probability {
    pub numerator: u8,
    pub denominator: u8,
}

impl Probability {
    /// A fraction between 0 and 1 over the thirteen ranks.
    pub open spec fn well_formed(self) -> bool {
        self.denominator == RANKS && self.numerator <= self.denominator
    }
}

/// The chances in thirteen that a drawn card adds `value`: four for 10 and
/// one for any other value.
pub open spec fn draw_chances(value: nat) -> nat {
    if value == HIGHEST_DRAW {
        4
    } else {
        1
    }
}

/// The chances in thirteen that a card worth at most `highest` is drawn and
/// takes `total` over 21.
pub open spec fn bust_chances_up_to(total: nat, highest: nat) -> nat
    decreases highest,
{
    if highest == 0 {
        0
    } else {
        bust_chances_up_to(total, (highest - 1) as nat) + if total + highest > 21 {
            draw_chances(highest)
        } else {
            0
        }
    }
}

/// The chances in thirteen that one more card busts a hand with this best
/// total. A hand that is bust already, or stands at 21, counts as certain.
pub open spec fn bust_chances(total: nat) -> nat {
    if total >= 21 {
        RANKS as nat
    } else {
        bust_chances_up_to(total, HIGHEST_DRAW as nat)
    }
}

/// The probability that a drawn card adds `val`.
pub fn probability_of_value(val: u8) -> (probability: Probability)
    ensures
        probability.well_formed(),
        probability.numerator == draw_chances(val as nat),
{
    if val == HIGHEST_DRAW {
        return Probability { numerator: 4, denominator: RANKS };
    }
    Probability { numerator: 1, denominator: RANKS }
}

/// Below 21 the chances grow by one with each point from 12 on, and no
/// single card busts a total of 11 or less.
pub proof fn lemma_bust_chances_by_total(total: nat)
    requires
        total < 21,
    ensures
        bust_chances(total) == if total <= 11 {
            0
        } else {
            total - 8
        },
{
    reveal_with_fuel(bust_chances_up_to, 11);
}

/// A hand that is bust, or stands at 21, is certain to bust on a draw.
pub proof fn lemma_no_safe_draw_from_21(total: nat)
    requires
        total >= 21,
    ensures
        bust_chances(total) == RANKS,
{
}

/// The chances never exceed thirteen, and a higher total never has fewer.
pub proof fn lemma_bust_chances_grow(lower: nat, higher: nat)
    requires
        lower <= higher,
    ensures
        bust_chances(lower) <= bust_chances(higher) <= RANKS,
{
    if lower < 21 {
        lemma_bust_chances_by_total(lower);
    }
    if higher < 21 {
        lemma_bust_chances_by_total(higher);
    }
}

/// The probability that one more card busts a hand with this best total.
pub fn chance_of_bust(total: u8) -> (probability: Probability)
    ensures
        probability.well_formed(),
        probability.numerator == bust_chances(total as nat),
{
    if total >= 21 {
        return Probability { numerator: RANKS, denominator: RANKS };
    }
    let mut chances: u8 = 0;
    let mut x: u8 = 1;
    while x <= HIGHEST_DRAW
        invariant
            1 <= x <= HIGHEST_DRAW + 1,
            total < 21,
            chances == bust_chances_up_to(total as nat, (x - 1) as nat),
            x <= HIGHEST_DRAW ==> chances < x,
            chances <= RANKS,
        decreases HIGHEST_DRAW + 1 - x,
    {
        if total + x > 21 {
            chances += probability_of_value(x).numerator;
        }
        x += 1;
    }
    Probability { numerator: chances, denominator: RANKS }
}

/// The chance of going bust on the next card.
pub trait BJProbability: BJValue {
    /// The probability that one more card busts the hand.
    fn probability_of_bust(&self) -> (probability: Probability)
        ensures
            probability.well_formed(),
            probability.numerator == bust_chances(hand_total(self.ranks())),
    {
        let val: u8 = self.value();
        if self.is_bust() || val == 21 {
            return Probability { numerator: RANKS, denominator: RANKS };
        }
        chance_of_bust(val)
    }
}

impl BJProbability for deckofcards::Hand {}

impl BJProbability for Vec<Rank> {}

} // verus!
