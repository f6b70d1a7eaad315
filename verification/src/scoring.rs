//! What a hand is worth: the mathematical model of blackjack scoring.
//!
//! A hand is scored from the ranks of its cards alone. Every ace starts out
//! counted high, as 11; while the total is over 21 and an ace is still
//! counted high, one such ace is recounted low, as 1. The hand is soft when
//! an ace is still counted high at the end. An empty hand scores 0 and is
//! hard.

use vstd::prelude::*;
use crate::rank::{rank_to_u8, Rank};

verus! {

/// The sum of the cards' points with every ace counted high.
pub open spec fn high_total(ranks: Seq<Rank>) -> nat
    decreases ranks.len(),
{
    if ranks.len() == 0 {
        0
    } else {
        high_total(ranks.drop_last()) + ranks.last().points()
    }
}

/// The sum of the cards' points with every ace counted low.
pub open spec fn low_total(ranks: Seq<Rank>) -> nat
    decreases ranks.len(),
{
    if ranks.len() == 0 {
        0
    } else {
        low_total(ranks.drop_last()) + ranks.last().low_points()
    }
}

/// The number of aces among the cards.
pub open spec fn ace_count(ranks: Seq<Rank>) -> nat
    decreases ranks.len(),
{
    if ranks.len() == 0 {
        0
    } else {
        ace_count(ranks.drop_last()) + if ranks.last() is Ace { 1nat } else { 0nat }
    }
}

/// A running total together with the number of aces still counted high.
pub struct Count {
    pub total: nat,
    pub high_aces: nat,
}

/// Recounts aces from high to low, one at a time, for as long as the total
/// is over 21 and an ace is still counted high.
pub open spec fn settle(total: nat, high_aces: nat) -> Count
    decreases high_aces,
{
    if total > 21 && high_aces > 0 {
        settle((total - 10) as nat, (high_aces - 1) as nat)
    } else {
        Count { total, high_aces }
    }
}

/// The best total of a hand.
///
/// On given cards the total unfolds once `high_total`, `ace_count` and
/// `settle` are revealed with fuel of one more than the number of cards.
pub open spec fn hand_total(ranks: Seq<Rank>) -> nat {
    settle(high_total(ranks), ace_count(ranks)).total
}

/// Whether a hand is soft: an ace is counted as 11 in its best total.
pub open spec fn hand_is_soft(ranks: Seq<Rank>) -> bool {
    settle(high_total(ranks), ace_count(ranks)).high_aces > 0
}

/// Whether a hand is bust: its best total is over 21.
pub open spec fn hand_is_bust(ranks: Seq<Rank>) -> bool {
    hand_total(ranks) > 21
}

/// Whether a hand is a blackjack: two cards that total 21.
pub open spec fn hand_is_blackjack(ranks: Seq<Rank>) -> bool {
    ranks.len() == 2 && hand_total(ranks) == 21
}

/// A total as the `u8` that scoring reports: the total itself up to 255,
/// and 255 for anything above. A total over 21 is a bust either way.
pub open spec fn capped(total: nat) -> u8 {
    if total > u8::MAX {
        u8::MAX
    } else {
        total as u8
    }
}

/// Counting every ace high adds 10 for each ace to the low count, and no
/// hand has more aces than its low count.
pub proof fn lemma_high_is_low_plus_aces(ranks: Seq<Rank>)
    ensures
        high_total(ranks) == low_total(ranks) + 10 * ace_count(ranks),
        ace_count(ranks) <= low_total(ranks),
        ace_count(ranks) <= ranks.len(),
    decreases ranks.len(),
{
    if ranks.len() > 0 {
        lemma_high_is_low_plus_aces(ranks.drop_last());
    }
}

/// Recounting settles on the low count plus 10 where an ace is held and
/// that stays within 21, and on the low count otherwise.
pub proof fn lemma_settle_closed_form(low: nat, aces: nat)
    requires
        aces <= low,
    ensures
        settle(low + 10 * aces, aces).total == if aces > 0 && low + 10 <= 21 {
            low + 10
        } else {
            low
        },
        settle(low + 10 * aces, aces).high_aces == if aces > 0 && low + 10 <= 21 {
            1nat
        } else {
            0nat
        },
    decreases aces,
{
    if aces > 0 && low + 10 * aces > 21 {
        lemma_settle_closed_form(low, (aces - 1) as nat);
        assert(low + 10 * aces - 10 == low + 10 * (aces - 1));
    }
}

/// The best total is the low count, plus 10 exactly when the hand is soft;
/// and the hand is soft exactly when it holds an ace and the low count plus
/// 10 stays within 21.
pub proof fn lemma_total_closed_form(ranks: Seq<Rank>)
    ensures
        hand_is_soft(ranks) <==> ace_count(ranks) > 0 && low_total(ranks) + 10 <= 21,
        hand_total(ranks) == low_total(ranks) + if hand_is_soft(ranks) { 10nat } else { 0nat },
{
    lemma_high_is_low_plus_aces(ranks);
    lemma_settle_closed_form(low_total(ranks), ace_count(ranks));
}

/// A hand without an ace totals the plain sum of its cards' points, and is
/// hard.
pub proof fn lemma_without_aces_total_is_sum(ranks: Seq<Rank>)
    requires
        ace_count(ranks) == 0,
    ensures
        hand_total(ranks) == high_total(ranks),
        !hand_is_soft(ranks),
{
}

/// A soft hand is never bust.
pub proof fn lemma_soft_stays_within_21(ranks: Seq<Rank>)
    requires
        hand_is_soft(ranks),
    ensures
        hand_total(ranks) <= 21,
{
    lemma_total_closed_form(ranks);
}

/// No way of counting the aces does better than the best total: the best
/// total is the low count with some of the aces counted high, and whenever
/// counting `high_aces` of them high stays within 21, the best total stays
/// within 21 too and is at least as much.
pub proof fn lemma_total_is_best(ranks: Seq<Rank>, high_aces: nat)
    requires
        high_aces <= ace_count(ranks),
        low_total(ranks) + 10 * high_aces <= 21,
    ensures
        low_total(ranks) + 10 * high_aces <= hand_total(ranks) <= 21,
{
    lemma_total_closed_form(ranks);
    lemma_high_is_low_plus_aces(ranks);
}

/// A blackjack is an ace with a card worth 10, in either order, and nothing
/// else: no hand of three cards or more is one, whatever it totals.
pub proof fn lemma_blackjack_is_ace_and_ten(ranks: Seq<Rank>)
    ensures
        hand_is_blackjack(ranks) <==> ranks.len() == 2 && ((ranks[0] is Ace && ranks[1].points()
            == 10) || (ranks[1] is Ace && ranks[0].points() == 10)),
{
    if ranks.len() == 2 {
        let none = Seq::<Rank>::empty();
        assert(ranks =~= none.push(ranks[0]).push(ranks[1]));
        lemma_one_more_card(none, ranks[0]);
        lemma_one_more_card(none.push(ranks[0]), ranks[1]);
        lemma_total_closed_form(ranks);
    }
}

/// Scoring goes by the ranks alone, in any order of dealing: a card put at
/// the end of a hand adds its points and its ace, if it is one.
pub proof fn lemma_one_more_card(ranks: Seq<Rank>, rank: Rank)
    ensures
        low_total(ranks.push(rank)) == low_total(ranks) + rank.low_points(),
        high_total(ranks.push(rank)) == high_total(ranks) + rank.points(),
        ace_count(ranks.push(rank)) == ace_count(ranks) + if rank is Ace { 1nat } else { 0nat },
{
    assert(ranks.push(rank).drop_last() =~= ranks);
}

/// Blackjack scoring of the cards that one side holds.
pub trait BJValue {
    /// The ranks of the cards that are scored, the first card first.
    spec fn ranks(&self) -> Seq<Rank>;

    /// The best total of the hand, capped at 255.
    fn value(&self) -> (total: u8)
        ensures
            total == capped(hand_total(self.ranks())),
    ;

    /// Whether an ace is counted as 11 in the best total.
    fn is_soft(&self) -> (soft: bool)
        ensures
            soft == hand_is_soft(self.ranks()),
    ;

    /// Whether the best total is over 21.
    fn is_bust(&self) -> (bust: bool)
        ensures
            bust == hand_is_bust(self.ranks()),
    {
        self.value() > 21
    }

    /// Whether the hand is two cards that total 21.
    fn is_blackjack(&self) -> (blackjack: bool)
        ensures
            blackjack == hand_is_blackjack(self.ranks()),
    ;
}

/// The low count of the cards, capped, and whether an ace is among them.
fn low_count(ranks: &Vec<Rank>) -> (count: (u8, bool))
    ensures
        count.0 == capped(low_total(ranks@)),
        count.1 == (ace_count(ranks@) > 0),
{
    let mut low: u8 = 0;
    let mut aces: bool = false;
    let mut index: usize = 0;
    while index < ranks.len()
        invariant
            index <= ranks.len(),
            low == capped(low_total(ranks@.take(index as int))),
            aces == (ace_count(ranks@.take(index as int)) > 0),
        decreases ranks.len() - index,
    {
        let rank: Rank = ranks[index];
        let points: u8 = match rank {
            Rank::Ace => 1,
            _ => rank_to_u8(rank),
        };
        proof {
            assert(ranks@.take(index + 1).drop_last() =~= ranks@.take(index as int));
            assert(ranks@.take(index + 1).last() == ranks@[index as int]);
        }
        low = if points > u8::MAX - low {
            u8::MAX
        } else {
            low + points
        };
        if rank == Rank::Ace {
            aces = true;
        }
        index += 1;
    }
    proof {
        assert(ranks@.take(ranks.len() as int) =~= ranks@);
    }
    (low, aces)
}

/// A hand written out as the ranks of its cards.
impl BJValue for Vec<Rank> {
    open spec fn ranks(&self) -> Seq<Rank> {
        self@
    }

    fn value(&self) -> (total: u8) {
        let (low, aces) = low_count(self);
        proof {
            assert(self.ranks() == self@);
            lemma_total_closed_form(self@);
        }
        if aces && low <= 11 {
            low + 10
        } else {
            low
        }
    }

    fn is_soft(&self) -> (soft: bool) {
        let (low, aces) = low_count(self);
        proof {
            assert(self.ranks() == self@);
            lemma_total_closed_form(self@);
        }
        aces && low <= 11
    }

    fn is_blackjack(&self) -> (blackjack: bool) {
        assert(self.ranks() == self@);
        self.value() == 21 && self.len() == 2
    }
}

/// Scoring reads a hand and changes nothing: whenever they are asked, and
/// however they are held, the same cards get the same total, the same
/// softness, and the same answers on bust and blackjack.
pub proof fn lemma_same_cards_same_score<First: BJValue, Second: BJValue>(
    first: &First,
    second: &Second,
)
    requires
        first.ranks() == second.ranks(),
    ensures
        capped(hand_total(first.ranks())) == capped(hand_total(second.ranks())),
        hand_is_soft(first.ranks()) == hand_is_soft(second.ranks()),
        hand_is_bust(first.ranks()) == hand_is_bust(second.ranks()),
        hand_is_blackjack(first.ranks()) == hand_is_blackjack(second.ranks()),
{
}

} // verus!
