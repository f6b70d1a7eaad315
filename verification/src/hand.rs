//! Scoring a `deckofcards::Hand`.
//!
//! The hand stays the outside crate's own collection. Verified code reads it
//! through two trusted items, its length and the rank of the card at an
//! index, both stated over [`hand_ranks`].

use vstd::prelude::*;
use crate::rank::Rank;
use crate::scoring::BJValue;

verus! {

/// `deckofcards::Hand`, the cards that one side holds, in the order in which
/// they were added. Nothing of its inside is visible to the verifier.
#[verifier::external_type_specification]
#[verifier::external_body]
pub struct ExHand(deckofcards::Hand);

/// The ranks of the cards that a hand holds, the first card first.
pub uninterp spec fn hand_ranks(hand: deckofcards::Hand) -> Seq<Rank>;

/// `deckofcards::Hand::len` returns the length of the hand's vector of
/// cards: the number of cards held.
pub assume_specification[ deckofcards::Hand::len ](hand: &deckofcards::Hand) -> (count: usize)
    ensures
        count == hand_ranks(*hand).len(),
;

/// Reads the card at `index` through `deckofcards::Cards::cards`, the
/// hand's cards as a slice, and gives the rank in the card's `rank` field,
/// variant for variant. The slice panics on an index past its end, so the
/// index has to be below the number of cards.
#[verifier::external_body]
fn rank_at(hand: &deckofcards::Hand, index: usize) -> (rank: Rank)
    requires
        index < hand_ranks(*hand).len(),
    ensures
        rank == hand_ranks(*hand)[index as int],
{
    match deckofcards::Cards::cards(hand)[index].rank {
        deckofcards::Rank::Two => Rank::Two,
        deckofcards::Rank::Three => Rank::Three,
        deckofcards::Rank::Four => Rank::Four,
        deckofcards::Rank::Five => Rank::Five,
        deckofcards::Rank::Six => Rank::Six,
        deckofcards::Rank::Seven => Rank::Seven,
        deckofcards::Rank::Eight => Rank::Eight,
        deckofcards::Rank::Nine => Rank::Nine,
        deckofcards::Rank::Ten => Rank::Ten,
        deckofcards::Rank::Jack => Rank::Jack,
        deckofcards::Rank::Queen => Rank::Queen,
        deckofcards::Rank::King => Rank::King,
        deckofcards::Rank::Ace => Rank::Ace,
    }
}

/// Writes a hand out as the ranks of its cards, the first card first.
pub fn ranks_of(hand: &deckofcards::Hand) -> (ranks: Vec<Rank>)
    ensures
        ranks@ == hand_ranks(*hand),
{
    let cards: usize = hand.len();
    let mut ranks: Vec<Rank> = Vec::new();
    let mut index: usize = 0;
    while index < cards
        invariant
            index <= cards,
            cards == hand_ranks(*hand).len(),
            ranks@ == hand_ranks(*hand).take(index as int),
        decreases cards - index,
    {
        ranks.push(rank_at(hand, index));
        assert(ranks@ =~= hand_ranks(*hand).take(index + 1));
        index += 1;
    }
    assert(ranks@ =~= hand_ranks(*hand));
    ranks
}

impl BJValue for deckofcards::Hand {
    open spec fn ranks(&self) -> Seq<Rank> {
        hand_ranks(*self)
    }

    fn value(&self) -> (total: u8) {
        ranks_of(self).value()
    }

    fn is_soft(&self) -> (soft: bool) {
        ranks_of(self).is_soft()
    }

    fn is_blackjack(&self) -> (blackjack: bool) {
        ranks_of(self).is_blackjack()
    }
}

} // verus!
