//! The thirteen ranks and what each is worth.

use vstd::prelude::*;

verus! {

/// The rank of a playing card. Suits play no part in blackjack.
#[derive(Clone, Copy, Debug, PartialEq, Eq, Hash, Structural)]
pub enum Rank {
    Two,
    Three,
    Four,
    Five,
    Six,
    Seven,
    Eight,
    Nine,
    Ten,
    Jack,
    Queen,
    King,
    Ace,
}

impl Rank {
    /// The points of a card of this rank with the ace counted high: the
    /// numeral for Two to Nine, 10 for Ten and the court cards, 11 for the ace.
    pub open spec fn points(self) -> nat {
        match self {
            Rank::Two => 2,
            Rank::Three => 3,
            Rank::Four => 4,
            Rank::Five => 5,
            Rank::Six => 6,
            Rank::Seven => 7,
            Rank::Eight => 8,
            Rank::Nine => 9,
            Rank::Ten | Rank::Jack | Rank::Queen | Rank::King => 10,
            Rank::Ace => 11,
        }
    }

    /// The points of a card of this rank with the ace counted low, as 1.
    pub open spec fn low_points(self) -> nat {
        if self is Ace {
            1
        } else {
            self.points()
        }
    }
}

/// The points of `rank`, the ace counted high.
pub fn rank_to_u8(rank: Rank) -> (value: u8)
    ensures
        value == rank.points(),
{
    match rank {
        Rank::Two => 2,
        Rank::Three => 3,
        Rank::Four => 4,
        Rank::Five => 5,
        Rank::Six => 6,
        Rank::Seven => 7,
        Rank::Eight => 8,
        Rank::Nine => 9,
        Rank::Ace => 11,
        _ => 10,
    }
}

} // verus!
