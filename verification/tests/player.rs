use deckbuilder::card::{Card, SpecialAbility};
use deckbuilder::player::{PlayError, Player};

fn card(name: &str, attack: u32, defense: u32, mana_cost: u32) -> Card {
    Card {
        name: name.to_string(),
        attack,
        defense,
        special_ability: None,
        mana_cost,
    }
}

fn names(cards: &[Card]) -> Vec<String> {
    cards.iter().map(|card| card.name.clone()).collect()
}

#[test]
fn new_player_holds_the_starter_set_four_times() {
    let player = Player::new();
    assert_eq!(player.deck.len(), 12);
    assert!(player.hand.is_empty());
    assert!(player.discard_pile.is_empty());
    assert_eq!(player.max_mana, 10);
    assert_eq!(player.current_mana, 10);
    assert_eq!(player.health, 30);
    let expected = ["Mountain Strike", "Stone Shield", "Avalanche"];
    for (i, card) in player.deck.iter().enumerate() {
        assert_eq!(card.name, expected[i % 3]);
    }
    let strike = &player.deck[0];
    assert_eq!((strike.attack, strike.defense, strike.mana_cost), (3, 1, 1));
    assert_eq!(strike.special_ability, None);
    let shield = &player.deck[4];
    assert_eq!((shield.attack, shield.defense, shield.mana_cost), (1, 3, 1));
    assert_eq!(shield.special_ability, None);
    let avalanche = &player.deck[11];
    assert_eq!(
        (avalanche.attack, avalanche.defense, avalanche.mana_cost),
        (5, 0, 3)
    );
    assert_eq!(
        avalanche.special_ability,
        Some(SpecialAbility::SummonAvalanche(2))
    );
}

#[test]
fn draw_top_moves_the_last_card_of_the_deck() {
    let mut player = Player::new();
    let drawn = player.draw_top().unwrap();
    assert_eq!(drawn.name, "Avalanche");
    assert_eq!(player.deck.len(), 11);
    assert_eq!(names(&player.hand), ["Avalanche"]);
    let drawn = player.draw_top().unwrap();
    assert_eq!(drawn.name, "Stone Shield");
    assert_eq!(names(&player.hand), ["Avalanche", "Stone Shield"]);
    assert_eq!(player.deck.len(), 10);
    assert!(player.discard_pile.is_empty());
}

#[test]
fn draw_top_of_an_empty_deck_does_nothing() {
    let mut player = Player::new();
    player.discard_pile.append(&mut player.deck);
    assert!(player.draw_top().is_none());
    assert!(player.deck.is_empty());
    assert!(player.hand.is_empty());
    assert_eq!(player.discard_pile.len(), 12);
}

#[test]
fn play_takes_the_card_and_its_cost() {
    let mut player = Player::new();
    player.hand.push(card("Jab", 1, 0, 2));
    player.hand.push(card("Hook", 2, 0, 3));
    player.hand.push(card("Cross", 3, 0, 4));
    let played = player.play_card(1).unwrap();
    assert_eq!(played.name, "Hook");
    assert_eq!(names(&player.hand), ["Jab", "Cross"]);
    assert_eq!(player.current_mana, 7);
    assert_eq!(player.max_mana, 10);
    assert_eq!(player.deck.len(), 12);
    assert!(player.discard_pile.is_empty());
}

#[test]
fn play_with_exactly_enough_mana_succeeds() {
    let mut player = Player::new();
    player.current_mana = 4;
    player.hand.push(card("Cross", 3, 0, 4));
    assert!(player.play_card(0).is_ok());
    assert_eq!(player.current_mana, 0);
    assert!(player.hand.is_empty());
}

#[test]
fn play_without_the_mana_changes_nothing() {
    let mut player = Player::new();
    player.current_mana = 3;
    player.hand.push(card("Jab", 1, 0, 2));
    player.hand.push(card("Cross", 3, 0, 4));
    assert_eq!(player.play_card(1).err(), Some(PlayError::InsufficientMana));
    assert_eq!(names(&player.hand), ["Jab", "Cross"]);
    assert_eq!(player.current_mana, 3);
}

#[test]
fn play_outside_the_hand_changes_nothing() {
    let mut player = Player::new();
    player.hand.push(card("Jab", 1, 0, 2));
    assert_eq!(player.play_card(1).err(), Some(PlayError::IndexOutOfRange));
    assert_eq!(
        player.play_card(usize::MAX).err(),
        Some(PlayError::IndexOutOfRange)
    );
    assert_eq!(names(&player.hand), ["Jab"]);
    assert_eq!(player.current_mana, 10);
    let mut empty_handed = Player::new();
    assert_eq!(
        empty_handed.play_card(0).err(),
        Some(PlayError::IndexOutOfRange)
    );
}

#[test]
fn index_is_checked_before_mana() {
    let mut player = Player::new();
    player.current_mana = 0;
    player.hand.push(card("Cross", 3, 0, 4));
    assert_eq!(player.play_card(5).err(), Some(PlayError::IndexOutOfRange));
    assert_eq!(player.play_card(0).err(), Some(PlayError::InsufficientMana));
}

#[test]
fn restore_mana_fills_up_to_the_maximum() {
    let mut player = Player::new();
    player.current_mana = 2;
    player.restore_mana();
    assert_eq!(player.current_mana, 10);
    player.max_mana = 12;
    player.restore_mana();
    assert_eq!(player.current_mana, 12);
}

#[test]
fn cloned_card_equals_its_source() {
    let source = Card {
        name: "Venom".to_string(),
        attack: 4,
        defense: 2,
        special_ability: Some(SpecialAbility::ApplyPoison(3)),
        mana_cost: 5,
    };
    let copy = source.clone();
    assert_eq!(copy.name, "Venom");
    assert_eq!((copy.attack, copy.defense, copy.mana_cost), (4, 2, 5));
    assert_eq!(copy.special_ability, Some(SpecialAbility::ApplyPoison(3)));
}
