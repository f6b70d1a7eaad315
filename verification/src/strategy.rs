//! The basic-strategy table.
//!
//! The table is kept as data: an ordered list of rules, each a range of
//! player totals, a range of dealer values and the action to take. The first
//! rule that covers a situation decides, and where none does the player
//! hits. [`hard_action`] and [`soft_action`] say in words of `if` and `else`
//! what the table must answer, and the lookup is proved to answer just that.

use vstd::prelude::*;
use crate::scoring::{capped, hand_is_soft, hand_total, BJValue};

verus! {

/// A decision at the table.
#[derive(Clone, Copy, Debug, PartialEq, Eq, Hash, Structural)]
pub enum Action {
    Hit,
    Stand,
    DoubleDown,
    Split,
    Surrender,
}

/// One line of a strategy table: the action for every player total in
/// `totals` against every dealer value in `dealers`. Each range is written
/// as its least and its greatest value, both included.
#[derive(Clone, Copy, Debug)]
pub struct Rule {
    pub totals: (u8, u8),
    pub dealers: (u8, u8),
    pub action: Action,
}

impl Rule {
    /// Whether the rule speaks of this total against this dealer value.
    pub open spec fn covers(self, total: u8, dealer: u8) -> bool {
        &&& self.totals.0 <= total <= self.totals.1
        &&& self.dealers.0 <= dealer <= self.dealers.1
    }

    /// Whether the rule speaks of this total against this dealer value.
    pub fn applies(&self, total: u8, dealer: u8) -> (covered: bool)
        ensures
            covered == self.covers(total, dealer),
    {
        let total_in_range: bool = self.totals.0 <= total && total <= self.totals.1;
        let dealer_in_range: bool = self.dealers.0 <= dealer && dealer <= self.dealers.1;
        total_in_range && dealer_in_range
    }
}

/// The action of the first rule from position `start` on that covers the
/// situation, and `Hit` where there is none.
pub open spec fn first_match(rules: Seq<Rule>, start: int, total: u8, dealer: u8) -> Action
    decreases rules.len() - start,
{
    if start < 0 || start >= rules.len() {
        Action::Hit
    } else if rules[start].covers(total, dealer) {
        rules[start].action
    } else {
        first_match(rules, start + 1, total, dealer)
    }
}

/// Looks a situation up in a table: the first rule that covers it decides,
/// and the player hits where none does.
pub fn lookup(rules: &Vec<Rule>, total: u8, dealer: u8) -> (action: Action)
    ensures
        action == first_match(rules@, 0, total, dealer),
{
    let mut index: usize = 0;
    while index < rules.len()
        invariant
            index <= rules.len(),
            first_match(rules@, 0, total, dealer) == first_match(
                rules@,
                index as int,
                total,
                dealer,
            ),
        decreases rules.len() - index,
    {
        if rules[index].applies(total, dealer) {
            return rules[index].action;
        }
        index += 1;
    }
    Action::Hit
}

/// The table for hard totals.
pub open spec fn hard_table() -> Seq<Rule> {
    seq![
        Rule { totals: (17, 255), dealers: (0, 255), action: Action::Stand },
        Rule { totals: (13, 16), dealers: (0, 6), action: Action::Stand },
        Rule { totals: (12, 12), dealers: (4, 6), action: Action::Stand },
        Rule { totals: (11, 11), dealers: (0, 255), action: Action::DoubleDown },
        Rule { totals: (10, 10), dealers: (0, 9), action: Action::DoubleDown },
        Rule { totals: (9, 9), dealers: (3, 6), action: Action::DoubleDown },
        Rule { totals: (15, 15), dealers: (10, 10), action: Action::Surrender },
        Rule { totals: (16, 16), dealers: (9, 255), action: Action::Surrender },
    ]
}

/// The table for soft totals.
pub open spec fn soft_table() -> Seq<Rule> {
    seq![
        Rule { totals: (19, 255), dealers: (0, 255), action: Action::Stand },
        Rule { totals: (18, 18), dealers: (7, 8), action: Action::Stand },
        Rule { totals: (18, 18), dealers: (0, 6), action: Action::DoubleDown },
        Rule { totals: (17, 17), dealers: (3, 6), action: Action::DoubleDown },
        Rule { totals: (15, 16), dealers: (4, 6), action: Action::DoubleDown },
        Rule { totals: (13, 14), dealers: (5, 6), action: Action::DoubleDown },
    ]
}

/// Builds the table for hard totals.
pub fn hard_rules() -> (rules: Vec<Rule>)
    ensures
        rules@ == hard_table(),
{
    vec![
        Rule { totals: (17, 255), dealers: (0, 255), action: Action::Stand },
        Rule { totals: (13, 16), dealers: (0, 6), action: Action::Stand },
        Rule { totals: (12, 12), dealers: (4, 6), action: Action::Stand },
        Rule { totals: (11, 11), dealers: (0, 255), action: Action::DoubleDown },
        Rule { totals: (10, 10), dealers: (0, 9), action: Action::DoubleDown },
        Rule { totals: (9, 9), dealers: (3, 6), action: Action::DoubleDown },
        Rule { totals: (15, 15), dealers: (10, 10), action: Action::Surrender },
        Rule { totals: (16, 16), dealers: (9, 255), action: Action::Surrender },
    ]
}

/// Builds the table for soft totals.
pub fn soft_rules() -> (rules: Vec<Rule>)
    ensures
        rules@ == soft_table(),
{
    vec![
        Rule { totals: (19, 255), dealers: (0, 255), action: Action::Stand },
        Rule { totals: (18, 18), dealers: (7, 8), action: Action::Stand },
        Rule { totals: (18, 18), dealers: (0, 6), action: Action::DoubleDown },
        Rule { totals: (17, 17), dealers: (3, 6), action: Action::DoubleDown },
        Rule { totals: (15, 16), dealers: (4, 6), action: Action::DoubleDown },
        Rule { totals: (13, 14), dealers: (5, 6), action: Action::DoubleDown },
    ]
}

/// What basic strategy recommends on a hard total. The first of these that
/// holds decides.
pub open spec fn hard_action(total: u8, dealer: u8) -> Action {
    if total >= 17 {
        Action::Stand
    } else if 13 <= total < 17 && dealer < 7 {
        Action::Stand
    } else if total == 12 && 4 <= dealer <= 6 {
        Action::Stand
    } else if total == 11 || (total == 10 && dealer < 10) || (total == 9 && 3 <= dealer <= 6) {
        Action::DoubleDown
    } else if total == 15 && dealer == 10 {
        Action::Surrender
    } else if total == 16 && dealer >= 9 {
        Action::Surrender
    } else {
        Action::Hit
    }
}

/// What basic strategy recommends on a soft total. The first of these that
/// holds decides.
pub open spec fn soft_action(total: u8, dealer: u8) -> Action {
    if total >= 19 {
        Action::Stand
    } else if total == 18 && (dealer == 7 || dealer == 8) {
        Action::Stand
    } else if total == 18 && dealer < 7 {
        Action::DoubleDown
    } else if total == 17 && 3 <= dealer <= 6 {
        Action::DoubleDown
    } else if (total == 15 || total == 16) && 4 <= dealer <= 6 {
        Action::DoubleDown
    } else if (total == 13 || total == 14) && 5 <= dealer <= 6 {
        Action::DoubleDown
    } else {
        Action::Hit
    }
}

/// What basic strategy recommends for a player total, soft or hard,
/// against the value of the dealer's up-card.
pub open spec fn correct_action(total: u8, soft: bool, dealer: u8) -> Action {
    if soft {
        soft_action(total, dealer)
    } else {
        hard_action(total, dealer)
    }
}

/// The table for hard totals answers as [`hard_action`] does.
pub proof fn lemma_hard_table_is_hard_action(total: u8, dealer: u8)
    ensures
        first_match(hard_table(), 0, total, dealer) == hard_action(total, dealer),
{
    reveal_with_fuel(first_match, 9);
}

/// The table for soft totals answers as [`soft_action`] does.
pub proof fn lemma_soft_table_is_soft_action(total: u8, dealer: u8)
    ensures
        first_match(soft_table(), 0, total, dealer) == soft_action(total, dealer),
{
    reveal_with_fuel(first_match, 7);
}

/// Recommends an action for a player total, soft or hard, against the value
/// of the dealer's up-card.
pub fn recommend(total: u8, soft: bool, dealer: u8) -> (action: Action)
    ensures
        action == correct_action(total, soft, dealer),
{
    if soft {
        proof {
            lemma_soft_table_is_soft_action(total, dealer);
        }
        lookup(&soft_rules(), total, dealer)
    } else {
        proof {
            lemma_hard_table_is_hard_action(total, dealer);
        }
        lookup(&hard_rules(), total, dealer)
    }
}

/// Recommends an action for the player's hand against the dealer's hand,
/// which at that point is the up-card alone.
pub fn get_correct_action<Player: BJValue, Dealer: BJValue>(
    player_hand: &Player,
    dealer_hand: &Dealer,
) -> (action: Action)
    ensures
        action == correct_action(
            capped(hand_total(player_hand.ranks())),
            hand_is_soft(player_hand.ranks()),
            capped(hand_total(dealer_hand.ranks())),
        ),
{
    let dealer_value: u8 = dealer_hand.value();
    let player_value: u8 = player_hand.value();
    recommend(player_value, player_hand.is_soft(), dealer_value)
}

/// On a hard 11 the player doubles down, whatever the dealer shows.
pub proof fn lemma_hard_eleven_doubles_down(dealer: u8)
    ensures
        correct_action(11, false, dealer) == Action::DoubleDown,
{
}

/// On a soft 19 or more the player stands, whatever the dealer shows.
pub proof fn lemma_soft_nineteen_stands(total: u8, dealer: u8)
    requires
        total >= 19,
    ensures
        correct_action(total, true, dealer) == Action::Stand,
{
}

/// On a hard 17 or more the player stands, whatever the dealer shows.
pub proof fn lemma_hard_seventeen_stands(total: u8, dealer: u8)
    requires
        total >= 17,
    ensures
        correct_action(total, false, dealer) == Action::Stand,
{
}

/// The table never recommends a split, and surrenders hard hands only.
pub proof fn lemma_never_split(total: u8, soft: bool, dealer: u8)
    ensures
        correct_action(total, soft, dealer) != Action::Split,
        soft ==> correct_action(total, soft, dealer) != Action::Surrender,
{
}

} // verus!
