//! The outcome resolver: a pure, total function from two revealed
//! components to a win/draw outcome.
//!
//! The resolution order is canonical: the host's "beats" list, then the
//! challenger's, then each side's "loses to" list as a redundant reverse
//! check for partially specified formats, and otherwise a draw. Every
//! observer replaying it over the same two components derives the same
//! outcome.

use vstd::prelude::*;

use crate::types::Component;
use crate::types::ComponentView;
use crate::types::FormatView;
use crate::types::GameResultView;
use crate::types::MoveView;
use crate::types::RevealView;

verus! {

/// Which role won, or neither.
#[derive(Clone, Copy, Debug, PartialEq, Eq, Structural)]
pub enum Outcome {
    HostWins,
    ChallengerWins,
    Draw,
}

/// The canonical resolution of a host component against a challenger
/// component: host's "beats" first, challenger's second, then the reverse
/// "loses to" checks, else a draw.
pub open spec fn spec_resolve(host: ComponentView, challenger: ComponentView) -> Outcome {
    if host.wins_against.contains(challenger.name) {
        Outcome::HostWins
    } else if challenger.wins_against.contains(host.name) {
        Outcome::ChallengerWins
    } else if host.loses_against.contains(challenger.name) {
        Outcome::ChallengerWins
    } else if challenger.loses_against.contains(host.name) {
        Outcome::HostWins
    } else {
        Outcome::Draw
    }
}

/// Whether a list of names holds the given name.
fn contains_name(names: &Vec<String>, name: &String) -> (r: bool)
    ensures
        r == names.deep_view().contains(name@),
{
    let mut i: usize = 0;
    while i < names.len()
        invariant
            i <= names@.len(),
            forall|j: int| 0 <= j < i ==> names@[j]@ != name@,
        decreases names@.len() - i,
    {
        if names[i] == *name {
            proof {
                assert(names.deep_view()[i as int] == name@);
            }
            return true;
        }
        i += 1;
    }
    proof {
        assert(forall|j: int| 0 <= j < names.deep_view().len() ==> names.deep_view()[j] != name@);
    }
    false
}

/// Resolves the host's component against the challenger's, exactly as
/// [`spec_resolve`] states it.
pub fn resolve_components(host_component: &Component, challenger_component: &Component) -> (r:
    Outcome)
    ensures
        r == spec_resolve(host_component@, challenger_component@),
{
    if contains_name(&host_component.wins_against, &challenger_component.name) {
        Outcome::HostWins
    } else if contains_name(&challenger_component.wins_against, &host_component.name) {
        Outcome::ChallengerWins
    } else if contains_name(&host_component.loses_against, &challenger_component.name) {
        Outcome::ChallengerWins
    } else if contains_name(&challenger_component.loses_against, &host_component.name) {
        Outcome::HostWins
    } else {
        Outcome::Draw
    }
}

/// Whether a format carries a component of the given name.
pub open spec fn format_has_component(f: FormatView, name: Seq<char>) -> bool {
    exists|i: int| 0 <= i < f.moves.len() && f.moves[i].name == name
}

/// The result the protocol derives from a reveal against a stored move: a
/// win naming winner and loser, or a draw naming both players, the host
/// first. The host identity is the move's author; the challenger is named
/// by the move.
pub open spec fn spec_create_game_result(
    reveal: RevealView,
    move_address: int,
    host_id: Seq<char>,
    mv: MoveView,
) -> GameResultView {
    match spec_resolve(mv.component, reveal.component) {
        Outcome::HostWins => GameResultView::Win {
            reveal,
            move_address,
            winner_id: host_id,
            loser_id: mv.challenger_id,
            format_id: mv.format_id,
        },
        Outcome::ChallengerWins => GameResultView::Win {
            reveal,
            move_address,
            winner_id: mv.challenger_id,
            loser_id: host_id,
            format_id: mv.format_id,
        },
        Outcome::Draw => GameResultView::Draw {
            reveal,
            move_address,
            players: seq![host_id, mv.challenger_id],
            format_id: mv.format_id,
        },
    }
}

/// A mirror match is a draw, in any format that does not relate a
/// component to itself. (A format whose component lists its own name under
/// "beats" or "loses to" is outside this law: resolution then follows that
/// listed relation.)
pub proof fn lemma_resolve_self_draw(c: ComponentView)
    requires
        !c.wins_against.contains(c.name),
        !c.loses_against.contains(c.name),
    ensures
        spec_resolve(c, c) == Outcome::Draw,
{
}

/// Swapping the two roles swaps the outcome: the winning component wins
/// whichever seat it is played from, and a draw stays a draw. This holds
/// for any pair whose relation is not contradictory, that is, where the
/// two components do not both claim to beat — or both claim to lose to —
/// each other.
pub proof fn lemma_resolve_symmetry(a: ComponentView, b: ComponentView)
    requires
        !(a.wins_against.contains(b.name) && b.wins_against.contains(a.name)),
        !(a.loses_against.contains(b.name) && b.loses_against.contains(a.name)),
    ensures
        spec_resolve(a, b) == Outcome::HostWins ==> spec_resolve(b, a) == Outcome::ChallengerWins,
        spec_resolve(a, b) == Outcome::ChallengerWins ==> spec_resolve(b, a) == Outcome::HostWins,
        spec_resolve(a, b) == Outcome::Draw ==> spec_resolve(b, a) == Outcome::Draw,
{
}

} // verus!
