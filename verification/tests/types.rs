//! Tests of record equality and of the canonical encoding.

use roshambo::commit::encode_reveal;
use roshambo::types::{Address, Component, GameResult, Reveal};

fn comp(name: &str, wins: &[&str], loses: &[&str]) -> Component {
    Component {
        name: name.to_string(),
        wins_against: wins.iter().map(|s| s.to_string()).collect(),
        loses_against: loses.iter().map(|s| s.to_string()).collect(),
    }
}

#[test]
fn component_equality_is_field_for_field() {
    let a = comp("Rock", &["Scissors"], &["Paper"]);
    let b = comp("Rock", &["Scissors"], &["Paper"]);
    assert!(a == b);
    assert!(a != comp("Rock", &["Scissors"], &[]));
    assert!(a != comp("Rock", &["Paper"], &["Paper"]));
    assert!(a != comp("Stone", &["Scissors"], &["Paper"]));
}

#[test]
fn reveal_equality_covers_component_and_nonce() {
    let a = Reveal { component: comp("Rock", &[], &[]), nonce: "n1".to_string() };
    let b = Reveal { component: comp("Rock", &[], &[]), nonce: "n1".to_string() };
    assert!(a == b);
    let other_nonce = Reveal { component: comp("Rock", &[], &[]), nonce: "n2".to_string() };
    assert!(a != other_nonce);
    let other_component = Reveal { component: comp("Paper", &[], &[]), nonce: "n1".to_string() };
    assert!(a != other_component);
}

#[test]
fn game_result_equality_distinguishes_variants_and_fields() {
    let reveal = Reveal { component: comp("Rock", &[], &[]), nonce: "n1".to_string() };
    let win = GameResult::Win {
        reveal: reveal.clone(),
        move_address: Address { index: 2 },
        winner_id: "host".to_string(),
        loser_id: "challenger".to_string(),
        format_id: "rps".to_string(),
    };
    assert!(win == win.clone());
    let other_winner = GameResult::Win {
        reveal: reveal.clone(),
        move_address: Address { index: 2 },
        winner_id: "challenger".to_string(),
        loser_id: "host".to_string(),
        format_id: "rps".to_string(),
    };
    assert!(win != other_winner);
    let draw = GameResult::Draw {
        reveal: reveal.clone(),
        move_address: Address { index: 2 },
        players: vec!["host".to_string(), "challenger".to_string()],
        format_id: "rps".to_string(),
    };
    assert!(win != draw);
    assert!(draw == draw.clone());
    let other_players = GameResult::Draw {
        reveal,
        move_address: Address { index: 2 },
        players: vec!["challenger".to_string(), "host".to_string()],
        format_id: "rps".to_string(),
    };
    assert!(draw != other_players);
}

#[test]
fn canonical_encoding_frames_every_field() {
    // One-letter component name, empty relation lists, one-letter nonce:
    // each string is framed by its 64-bit length, each list by its count.
    let reveal = Reveal { component: comp("R", &[], &[]), nonce: "n".to_string() };
    let expected: Vec<u8> = vec![
        1, 0, 0, 0, 0, 0, 0, 0, // name length
        b'R', // name bytes
        0, 0, 0, 0, 0, 0, 0, 0, // "beats" list count
        0, 0, 0, 0, 0, 0, 0, 0, // "loses to" list count
        1, 0, 0, 0, 0, 0, 0, 0, // nonce length
        b'n', // nonce bytes
    ];
    assert_eq!(encode_reveal(&reveal), expected);

    // A two-entry list is framed by its count, each entry by its length.
    let listed = Reveal { component: comp("R", &["ab", "c"], &[]), nonce: "n".to_string() };
    let expected_listed: Vec<u8> = vec![
        1, 0, 0, 0, 0, 0, 0, 0, // name length
        b'R', // name bytes
        2, 0, 0, 0, 0, 0, 0, 0, // "beats" list count
        2, 0, 0, 0, 0, 0, 0, 0, // first entry length
        b'a', b'b', // first entry bytes
        1, 0, 0, 0, 0, 0, 0, 0, // second entry length
        b'c', // second entry bytes
        0, 0, 0, 0, 0, 0, 0, 0, // "loses to" list count
        1, 0, 0, 0, 0, 0, 0, 0, // nonce length
        b'n', // nonce bytes
    ];
    assert_eq!(encode_reveal(&listed), expected_listed);
}
