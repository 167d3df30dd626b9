use engine::cards::{Card, Rank, Suit};
use engine::table::{Errors, Player, Table};

#[test]
fn player_display_prints_name() {
    let expected_name = "Nic";
    let player = Player::new(expected_name);

    assert_eq!(expected_name, player.display())
}

#[test]
fn player_can_be_assigned_cards() {
    let mut player = Player::new("Nic");

    let expected_cards = vec![Card {
        rank: Rank::Ace,
        suit: Suit::Heart,
    }];

    player.cards = expected_cards.clone();

    assert_eq!(expected_cards, player.cards);

    let expected_cards = vec![
        Card {
            rank: Rank::Ace,
            suit: Suit::Heart,
        },
        Card {
            rank: Rank::King,
            suit: Suit::Club,
        },
    ];

    player.cards = expected_cards.clone();

    assert_eq!(expected_cards, player.cards);
}

#[test]
fn can_create_new_game_with_defaults() {
    let expected_table = Table::new();

    assert_eq!(expected_table, Table::new())
}

#[test]
fn can_add_new_player_to_game() {
    let expected_player = Player::new("Nic");

    let mut table = Table::new();
    let _ = table.add_player(expected_player.clone());

    assert!(table.players.contains(&expected_player))
}

#[test]
fn returns_err_when_adding_player_past_table_capacity() {
    let expected_player = Player::new("Nic");

    let mut table = Table::new();

    table.player_limit = 0;

    let result = table.add_player(expected_player);

    assert_eq!(result.unwrap_err(), Errors::PlayerLimitExceeded)
}

#[test]
fn can_set_tables_player_limit() {
    let mut table = Table::new();

    let expected_player_limit = 5;
    table.set_player_limit(expected_player_limit);

    assert_eq!(expected_player_limit, table.player_limit)
}

#[test]
fn player_receives_dealt_cards() {
    let mut player = Player::new("Nic");
    assert!(player.cards.is_empty());

    let expected_card = Card {
        rank: Rank::King,
        suit: Suit::Club,
    };
    player.receive_card(expected_card);

    assert!(player.cards.contains(&expected_card))
}
