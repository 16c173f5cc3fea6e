//! End-to-end tests of the protocol operations over an in-memory ledger.

use roshambo::commit::{calculate_hash, encode_reveal};
use roshambo::ledger::{handle_get_commitment, handle_get_move, handle_get_offer, Ledger};
use roshambo::protocol::{
    create_game_result, handle_new_commitment, handle_new_game_result, handle_new_move,
    handle_new_offer,
};
use roshambo::types::{Component, Format, GameResult, Reveal, ValidationError};
use roshambo::NONCE_LEN;

const HOST: &str = "host-agent";
const CHALLENGER: &str = "challenger-agent";
const FORMAT_ID: &str = "rock-paper-scissors";

fn comp(name: &str, wins: &[&str], loses: &[&str]) -> Component {
    Component {
        name: name.to_string(),
        wins_against: wins.iter().map(|s| s.to_string()).collect(),
        loses_against: loses.iter().map(|s| s.to_string()).collect(),
    }
}

fn rock() -> Component {
    comp("Rock", &["Scissors"], &["Paper"])
}

fn paper() -> Component {
    comp("Paper", &["Rock"], &["Scissors"])
}

fn scissors() -> Component {
    comp("Scissors", &["Paper"], &["Rock"])
}

fn rps_format() -> Format {
    Format { moves: vec![rock(), paper(), scissors()] }
}

/// Runs offer -> commitment -> move and hands back the ledger, the move's
/// address and the challenger's privately kept reveal.
fn play_until_move(
    host_component: Component,
    challenger_component: Component,
) -> (Ledger, roshambo::types::Address, Reveal) {
    let mut ledger = Ledger::new();
    let offer_address = handle_new_offer(
        &mut ledger,
        CHALLENGER.to_string(),
        FORMAT_ID.to_string(),
        HOST.to_string(),
        true,
    )
    .unwrap();
    let (commitment_address, reveal) = handle_new_commitment(
        &mut ledger,
        challenger_component,
        offer_address,
        HOST.to_string(),
        CHALLENGER.to_string(),
    )
    .unwrap();
    let move_address = handle_new_move(
        &mut ledger,
        host_component,
        commitment_address,
        CHALLENGER.to_string(),
        HOST.to_string(),
        &rps_format(),
    )
    .unwrap();
    (ledger, move_address, reveal)
}

#[test]
fn full_game_host_wins() {
    // Host plays Rock; challenger committed Scissors and reveals it.
    let (mut ledger, move_address, reveal) = play_until_move(rock(), scissors());
    let result_address = handle_new_game_result(
        &mut ledger,
        reveal,
        move_address,
        HOST.to_string(),
        CHALLENGER.to_string(),
    );
    assert!(result_address.is_ok());
}

#[test]
fn full_game_draw() {
    // Rock against Rock is a draw; the derived result still validates and
    // is stored.
    let (mut ledger, move_address, reveal) = play_until_move(rock(), rock());
    let result_address = handle_new_game_result(
        &mut ledger,
        reveal,
        move_address,
        HOST.to_string(),
        CHALLENGER.to_string(),
    );
    assert!(result_address.is_ok());
}

#[test]
fn wrong_reveal_is_rejected() {
    // The challenger committed Scissors but tries to reveal Paper under the
    // same nonce: the digest no longer matches the committed hash.
    let (mut ledger, move_address, reveal) = play_until_move(rock(), scissors());
    let forged = Reveal { component: paper(), nonce: reveal.nonce.clone() };
    let verdict = handle_new_game_result(
        &mut ledger,
        forged,
        move_address,
        HOST.to_string(),
        CHALLENGER.to_string(),
    );
    assert_eq!(verdict.unwrap_err(), ValidationError::RevealHashMismatch);
}

#[test]
fn derived_results_name_the_right_players() {
    // Host Rock against revealed Scissors: the host wins.
    let (ledger, move_address, reveal) = play_until_move(rock(), scissors());
    let won = create_game_result(&ledger, reveal, move_address, HOST.to_string()).unwrap();
    match won {
        GameResult::Win { winner_id, loser_id, format_id, .. } => {
            assert_eq!(winner_id, HOST);
            assert_eq!(loser_id, CHALLENGER);
            assert_eq!(format_id, FORMAT_ID);
        },
        GameResult::Draw { .. } => panic!("expected a win"),
    }

    // Host Rock against revealed Paper: the challenger wins.
    let (ledger2, move_address2, reveal2) = play_until_move(rock(), paper());
    let lost = create_game_result(&ledger2, reveal2, move_address2, HOST.to_string()).unwrap();
    match lost {
        GameResult::Win { winner_id, loser_id, .. } => {
            assert_eq!(winner_id, CHALLENGER);
            assert_eq!(loser_id, HOST);
        },
        GameResult::Draw { .. } => panic!("expected a win"),
    }

    // Rock against Rock: a draw naming both players, host first.
    let (ledger3, move_address3, reveal3) = play_until_move(rock(), rock());
    let drawn = create_game_result(&ledger3, reveal3, move_address3, HOST.to_string()).unwrap();
    match drawn {
        GameResult::Draw { players, .. } => {
            assert_eq!(players, vec![HOST.to_string(), CHALLENGER.to_string()]);
        },
        GameResult::Win { .. } => panic!("expected a draw"),
    }
}

#[test]
fn unknown_challenger_is_rejected() {
    let mut ledger = Ledger::new();
    let verdict = handle_new_offer(
        &mut ledger,
        CHALLENGER.to_string(),
        FORMAT_ID.to_string(),
        HOST.to_string(),
        false,
    );
    assert_eq!(verdict.unwrap_err(), ValidationError::UnknownChallenger);
    assert_eq!(ledger.len(), 0);
}

#[test]
fn offering_a_game_against_oneself_is_rejected() {
    let mut ledger = Ledger::new();
    let verdict = handle_new_offer(
        &mut ledger,
        HOST.to_string(),
        FORMAT_ID.to_string(),
        HOST.to_string(),
        true,
    );
    assert_eq!(verdict.unwrap_err(), ValidationError::AuthorMismatch);
}

#[test]
fn missing_predecessors_give_not_found() {
    let mut ledger = Ledger::new();
    let bad = roshambo::types::Address { index: 7 };
    assert_eq!(handle_get_offer(&ledger, &bad).unwrap_err(), ValidationError::NotFound);
    assert_eq!(handle_get_commitment(&ledger, &bad).unwrap_err(), ValidationError::NotFound);
    assert_eq!(handle_get_move(&ledger, &bad).unwrap_err(), ValidationError::NotFound);
    let verdict = handle_new_commitment(
        &mut ledger,
        scissors(),
        bad,
        HOST.to_string(),
        CHALLENGER.to_string(),
    );
    assert_eq!(verdict.unwrap_err(), ValidationError::NotFound);
    let verdict = handle_new_move(
        &mut ledger,
        rock(),
        bad,
        CHALLENGER.to_string(),
        HOST.to_string(),
        &rps_format(),
    );
    assert_eq!(verdict.unwrap_err(), ValidationError::NotFound);
    let verdict = handle_new_game_result(
        &mut ledger,
        Reveal { component: rock(), nonce: "n1".to_string() },
        bad,
        HOST.to_string(),
        CHALLENGER.to_string(),
    );
    assert_eq!(verdict.unwrap_err(), ValidationError::NotFound);
}

#[test]
fn reads_are_idempotent() {
    let mut ledger = Ledger::new();
    let offer_address = handle_new_offer(
        &mut ledger,
        CHALLENGER.to_string(),
        FORMAT_ID.to_string(),
        HOST.to_string(),
        true,
    )
    .unwrap();
    let first = handle_get_offer(&ledger, &offer_address).unwrap();
    let second = handle_get_offer(&ledger, &offer_address).unwrap();
    assert_eq!(first.challenger_id, second.challenger_id);
    assert_eq!(first.format_id, second.format_id);
    assert_eq!(first.challenger_id, CHALLENGER);
    assert_eq!(first.format_id, FORMAT_ID);
}

#[test]
fn stored_move_copies_the_committed_hash() {
    let (ledger, move_address, reveal) = play_until_move(rock(), scissors());
    let stored = handle_get_move(&ledger, &move_address).unwrap();
    assert_eq!(stored.hash, calculate_hash(&reveal));
    assert_eq!(stored.challenger_id, CHALLENGER);
    assert_eq!(stored.format_id, FORMAT_ID);
    let commitment = handle_get_commitment(&ledger, &stored.commitment_address).unwrap();
    assert_eq!(commitment.hash, stored.hash);
    assert_eq!(commitment.host_id, HOST);
}

#[test]
fn fresh_nonces_are_long_and_alphanumeric() {
    let (_, _, reveal) = play_until_move(rock(), scissors());
    assert_eq!(reveal.nonce.chars().count(), NONCE_LEN);
    assert!(reveal.nonce.chars().all(|c| c.is_ascii_alphanumeric()));
    // Two commitments draw distinct nonces with overwhelming probability.
    let (_, _, other) = play_until_move(rock(), scissors());
    assert_ne!(reveal.nonce, other.nonce);
}

#[test]
fn commit_digest_is_deterministic_and_not_the_encoding() {
    let reveal = Reveal { component: scissors(), nonce: "n1".to_string() };
    let again = Reveal { component: scissors(), nonce: "n1".to_string() };
    assert_eq!(calculate_hash(&reveal), calculate_hash(&again));
    // The digest really went through the hash: it differs from the raw
    // canonical encoding and from the digest of any other reveal.
    assert_ne!(calculate_hash(&reveal), encode_reveal(&reveal));
    let other = Reveal { component: scissors(), nonce: "n2".to_string() };
    assert_ne!(calculate_hash(&reveal), calculate_hash(&other));
    // A SHA2-256 multihash: code 0x12, digest length 0x20, then 32 bytes.
    let digest = calculate_hash(&reveal);
    assert_eq!(digest.len(), 34);
    assert_eq!(digest[0], 0x12);
    assert_eq!(digest[1], 0x20);
}
