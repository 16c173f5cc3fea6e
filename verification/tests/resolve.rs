//! Tests of the outcome resolver.

use roshambo::resolve::{resolve_components, Outcome};
use roshambo::types::Component;

fn comp(name: &str, wins: &[&str], loses: &[&str]) -> Component {
    Component {
        name: name.to_string(),
        wins_against: wins.iter().map(|s| s.to_string()).collect(),
        loses_against: loses.iter().map(|s| s.to_string()).collect(),
    }
}

fn rock() -> Component {
    comp("Rock", &["Scissors"], &["Paper"])
}

fn paper() -> Component {
    comp("Paper", &["Rock"], &["Scissors"])
}

fn scissors() -> Component {
    comp("Scissors", &["Paper"], &["Rock"])
}

#[test]
fn resolve_host_beats_challenger() {
    assert_eq!(resolve_components(&rock(), &scissors()), Outcome::HostWins);
    assert_eq!(resolve_components(&paper(), &rock()), Outcome::HostWins);
    assert_eq!(resolve_components(&scissors(), &paper()), Outcome::HostWins);
}

#[test]
fn resolve_challenger_beats_host() {
    assert_eq!(resolve_components(&scissors(), &rock()), Outcome::ChallengerWins);
    assert_eq!(resolve_components(&rock(), &paper()), Outcome::ChallengerWins);
    assert_eq!(resolve_components(&paper(), &scissors()), Outcome::ChallengerWins);
}

#[test]
fn resolve_mirror_match_is_draw() {
    assert_eq!(resolve_components(&rock(), &rock()), Outcome::Draw);
    assert_eq!(resolve_components(&paper(), &paper()), Outcome::Draw);
}

#[test]
fn resolve_unrelated_components_draw() {
    let a = comp("Well", &[], &[]);
    let b = comp("Lizard", &[], &[]);
    assert_eq!(resolve_components(&a, &b), Outcome::Draw);
}

#[test]
fn resolve_tolerates_one_sided_relation() {
    // Only the "loses to" direction is populated: the reverse checks still
    // resolve the pair deterministically.
    let a = comp("Rock", &[], &["Paper"]);
    let b = comp("Paper", &[], &["Scissors"]);
    assert_eq!(resolve_components(&a, &b), Outcome::ChallengerWins);
    assert_eq!(resolve_components(&b, &a), Outcome::HostWins);
}

#[test]
fn resolve_swapping_roles_swaps_outcome() {
    let pairs = [
        (rock(), scissors()),
        (rock(), paper()),
        (paper(), scissors()),
        (rock(), rock()),
    ];
    for (a, b) in pairs {
        let forward = resolve_components(&a, &b);
        let backward = resolve_components(&b, &a);
        match forward {
            Outcome::HostWins => assert_eq!(backward, Outcome::ChallengerWins),
            Outcome::ChallengerWins => assert_eq!(backward, Outcome::HostWins),
            Outcome::Draw => assert_eq!(backward, Outcome::Draw),
        }
    }
}
