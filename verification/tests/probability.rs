use blackjack::{chance_of_bust, probability_of_value, BJProbability, BJValue, Probability, Rank};
use deckofcards::{Card, Hand};

fn as_float(probability: Probability) -> f64 {
    probability.numerator as f64 / probability.denominator as f64
}

fn dealt(cards: &[&str]) -> Hand {
    let cards: Vec<Card> = cards.iter().map(|card| Card::from_str(card).unwrap()).collect();
    Hand::from_cards(&cards)
}

#[test]
fn test_probability_of_bust() {
    // 15 value
    let cards = [
        Card::from_str("4C").unwrap(),
        Card::from_str("4D").unwrap(),
        Card::from_str("3C").unwrap(),
        Card::from_str("4S").unwrap(),
    ];

    let hand = Hand::from_cards(&cards);

    // 0.53 probability of bust
    assert!(as_float(hand.probability_of_bust()) - 7.0 / 13.0 < 0.001);

    // 8 value
    let cards = [Card::from_str("4C").unwrap(), Card::from_str("4D").unwrap()];

    let hand = Hand::from_cards(&cards);

    assert_eq!(as_float(hand.probability_of_bust()), 0.0);
}

#[test]
fn fifteen_busts_on_seven_ranks_of_thirteen() {
    let hand = dealt(&["4C", "4D", "3C", "4S"]);
    assert_eq!(hand.value(), 15);
    assert_eq!(hand.probability_of_bust(), Probability { numerator: 7, denominator: 13 });
    assert!((as_float(hand.probability_of_bust()) - 7.0 / 13.0).abs() < 1e-12);
}

#[test]
fn eight_cannot_bust() {
    let hand = dealt(&["4C", "4D"]);
    assert_eq!(hand.probability_of_bust(), Probability { numerator: 0, denominator: 13 });
}

#[test]
fn bust_chances_by_total() {
    let cases: [(&[&str], u8); 12] = [
        (&[], 0),
        (&["5C", "6D"], 0),
        (&["5C", "7D"], 4),
        (&["6C", "7D"], 5),
        (&["7C", "7D"], 6),
        (&["8C", "8D"], 8),
        (&["9C", "8D"], 9),
        (&["9C", "9D"], 10),
        (&["9C", "TD"], 11),
        (&["KC", "TD"], 12),
        (&["AC", "6D"], 9),
        (&["AC", "AD"], 4),
    ];
    for (cards, chances) in cases {
        let hand = dealt(cards);
        assert_eq!(
            hand.probability_of_bust(),
            Probability { numerator: chances, denominator: 13 },
            "{:?}",
            cards
        );
    }
}

#[test]
fn twenty_one_and_bust_hands_are_certain() {
    let certain = Probability { numerator: 13, denominator: 13 };
    assert_eq!(dealt(&["AC", "KD"]).probability_of_bust(), certain);
    assert_eq!(dealt(&["7C", "7D", "7H"]).probability_of_bust(), certain);
    assert_eq!(dealt(&["KC", "QD", "2H"]).probability_of_bust(), certain);
    assert_eq!(dealt(&["KC", "QD", "JH", "TS"]).probability_of_bust(), certain);
    assert_eq!(as_float(dealt(&["KC", "QD", "2H"]).probability_of_bust()), 1.0);
    assert_eq!(as_float(dealt(&["AC", "KD"]).probability_of_bust()), 1.0);
}

#[test]
fn a_draw_of_ten_has_four_chances() {
    assert_eq!(probability_of_value(10), Probability { numerator: 4, denominator: 13 });
    for value in 1u8..10 {
        assert_eq!(probability_of_value(value), Probability { numerator: 1, denominator: 13 });
    }
    assert_eq!(probability_of_value(0), Probability { numerator: 1, denominator: 13 });
    assert_eq!(probability_of_value(11), Probability { numerator: 1, denominator: 13 });
    let all: u32 = (1u8..=10).map(|value| probability_of_value(value).numerator as u32).sum();
    assert_eq!(all, 13);
}

#[test]
fn chances_for_every_total() {
    for total in 0u8..=11 {
        assert_eq!(chance_of_bust(total), Probability { numerator: 0, denominator: 13 });
    }
    for total in 12u8..=20 {
        assert_eq!(chance_of_bust(total), Probability { numerator: total - 8, denominator: 13 });
    }
    for total in 21u8..=255 {
        assert_eq!(chance_of_bust(total), Probability { numerator: 13, denominator: 13 });
    }
}

#[test]
fn ranks_written_out_have_the_same_chances() {
    let fifteen = vec![Rank::Four, Rank::Four, Rank::Three, Rank::Four];
    assert_eq!(fifteen.probability_of_bust(), Probability { numerator: 7, denominator: 13 });
    let eight = vec![Rank::Four, Rank::Four];
    assert_eq!(eight.probability_of_bust(), Probability { numerator: 0, denominator: 13 });
    let bust = vec![Rank::King, Rank::Queen, Rank::Two];
    assert_eq!(bust.probability_of_bust(), Probability { numerator: 13, denominator: 13 });
}
