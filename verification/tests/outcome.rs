use blackjack::{get_outcome, resolve, Outcome, Rank};
use deckofcards::{Card, Hand};

fn cards_of(cards: &[&str]) -> Hand {
    let cards: Vec<Card> = cards.iter().map(|card| Card::from_str(card).unwrap()).collect();
    Hand::from_cards(&cards)
}

#[test]
fn test_outome() {
    // 2S,6C,2S,JS
    let player_hand = Hand::from_cards(&[
        Card::from_str("2S").unwrap(),
        Card::from_str("6C").unwrap(),
        Card::from_str("2S").unwrap(),
        Card::from_str("JS").unwrap(),
    ]);

    // 5C,KC,KD
    let dealer_hand = Hand::from_cards(&[
        Card::from_str("5C").unwrap(),
        Card::from_str("KC").unwrap(),
        Card::from_str("KD").unwrap(),
    ]);

    let outcome = get_outcome(&dealer_hand, &player_hand);

    assert_eq!(outcome, Outcome::Win);
}

#[test]
fn test_blakjack() {
    // 2S,6C,2S,JS
    let player_hand = Hand::from_cards(&[
        Card::from_str("2S").unwrap(),
        Card::from_str("6C").unwrap(),
        Card::from_str("2S").unwrap(),
        Card::from_str("JS").unwrap(),
    ]);

    // 5C,KC,KD
    let dealer_hand = Hand::from_cards(&[
        Card::from_str("5C").unwrap(),
        Card::from_str("KC").unwrap(),
        Card::from_str("KD").unwrap(),
    ]);

    let outcome = get_outcome(&dealer_hand, &player_hand);

    assert_eq!(outcome, Outcome::Win);
}

#[test]
fn a_bust_player_loses_whatever_the_dealer_holds() {
    let bust = cards_of(&["KS", "QD", "2C"]);
    assert_eq!(get_outcome(&cards_of(&["KC", "7D"]), &bust), Outcome::Loss);
    assert_eq!(get_outcome(&cards_of(&["2C", "3D"]), &bust), Outcome::Loss);
    assert_eq!(get_outcome(&cards_of(&["KC", "7D", "9H"]), &bust), Outcome::Loss);
    assert_eq!(get_outcome(&cards_of(&["KC", "QD", "2H"]), &bust), Outcome::Loss);
    assert_eq!(get_outcome(&Hand::new(), &bust), Outcome::Loss);
}

#[test]
fn a_bust_dealer_loses_to_a_standing_player() {
    let bust = cards_of(&["KS", "6D", "9C"]);
    assert_eq!(get_outcome(&bust, &cards_of(&["2C", "3D"])), Outcome::Win);
    assert_eq!(get_outcome(&bust, &cards_of(&["KC", "AD"])), Outcome::Win);
    assert_eq!(get_outcome(&bust, &cards_of(&["7C", "7D", "7H"])), Outcome::Win);
}

#[test]
fn the_higher_total_wins() {
    let seventeen = cards_of(&["KS", "7D"]);
    let eighteen = cards_of(&["AS", "7D"]);
    let twenty = cards_of(&["KS", "QD"]);
    assert_eq!(get_outcome(&seventeen, &eighteen), Outcome::Win);
    assert_eq!(get_outcome(&eighteen, &seventeen), Outcome::Loss);
    assert_eq!(get_outcome(&twenty, &eighteen), Outcome::Loss);
    assert_eq!(get_outcome(&seventeen, &twenty), Outcome::Win);
}

#[test]
fn equal_totals_push() {
    assert_eq!(get_outcome(&cards_of(&["KS", "7D"]), &cards_of(&["9S", "8D"])), Outcome::Push);
    assert_eq!(get_outcome(&cards_of(&["AS", "7D"]), &cards_of(&["9S", "9D"])), Outcome::Push);
    assert_eq!(get_outcome(&cards_of(&["AS", "KD"]), &cards_of(&["7S", "7D", "7C"])), Outcome::Push);
    assert_eq!(get_outcome(&Hand::new(), &Hand::new()), Outcome::Push);
}

#[test]
fn huge_hands_are_bust_all_the_same() {
    let mut huge = Hand::new();
    for _ in 0..40 {
        huge.push_card(Card::from_str("KS").unwrap());
    }
    assert_eq!(get_outcome(&huge, &cards_of(&["2C", "3D"])), Outcome::Win);
    assert_eq!(get_outcome(&cards_of(&["KC", "AD"]), &huge), Outcome::Loss);
    assert_eq!(get_outcome(&huge, &huge), Outcome::Loss);
}

#[test]
fn totals_are_settled_in_order() {
    assert_eq!(resolve(25, 20), Outcome::Win);
    assert_eq!(resolve(20, 25), Outcome::Loss);
    assert_eq!(resolve(25, 25), Outcome::Loss);
    assert_eq!(resolve(22, 22), Outcome::Loss);
    assert_eq!(resolve(255, 21), Outcome::Win);
    assert_eq!(resolve(21, 255), Outcome::Loss);
    assert_eq!(resolve(21, 21), Outcome::Push);
    assert_eq!(resolve(0, 0), Outcome::Push);
    assert_eq!(resolve(17, 18), Outcome::Win);
    assert_eq!(resolve(18, 17), Outcome::Loss);
    assert_eq!(resolve(21, 20), Outcome::Loss);
    assert_eq!(resolve(20, 21), Outcome::Win);
}

#[test]
fn hands_of_either_kind_are_compared() {
    let dealer = vec![Rank::Five, Rank::King, Rank::King];
    let player = vec![Rank::Two, Rank::Six, Rank::Two, Rank::Jack];
    assert_eq!(get_outcome(&dealer, &player), Outcome::Win);
    assert_eq!(get_outcome(&player, &dealer), Outcome::Loss);
    assert_eq!(get_outcome(&cards_of(&["KS", "QD"]), &player), Outcome::Push);
    assert_eq!(get_outcome(&dealer, &cards_of(&["KS", "QD", "2C"])), Outcome::Loss);
}
