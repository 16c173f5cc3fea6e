//! The protocol operations: the four mutation entry points that construct,
//! validate and store each record kind in sequence.
//!
//! Each operation builds its record from the caller's arguments and the
//! predecessor it references, validates it against the ledger, and appends
//! it only on acceptance; on rejection the ledger is unchanged and the
//! validator's error is handed back. The caller's own identity is passed in
//! as `author`, standing for the authorship metadata the store would
//! attach.

use vstd::prelude::*;

use rand::Rng;

use crate::commit::calculate_hash;
use crate::commit::spec_commit_hash;
use crate::ledger::commitment_at;
use crate::ledger::handle_get_commitment;
use crate::ledger::handle_get_move;
use crate::ledger::handle_get_offer;
use crate::ledger::move_at;
use crate::ledger::offer_at;
use crate::ledger::EntryView;
use crate::ledger::Ledger;
use crate::ledger::Record;
use crate::ledger::RecordView;
use crate::resolve::resolve_components;
use crate::resolve::spec_create_game_result;
use crate::resolve::Outcome;
use crate::types::Address;
use crate::types::Commitment;
use crate::types::CommitmentView;
use crate::types::Component;
use crate::types::ComponentView;
use crate::types::Format;
use crate::types::FormatView;
use crate::types::GameResult;
use crate::types::GameResultView;
use crate::types::Move;
use crate::types::MoveView;
use crate::types::Offer;
use crate::types::OfferView;
use crate::types::Reveal;
use crate::types::RevealView;
use crate::types::ValidationError;
use crate::validate::spec_validate_commitment_fields;
use crate::validate::spec_validate_game_result;
use crate::validate::spec_validate_move_fields;
use crate::validate::spec_validate_offer;
use crate::validate::validate_commitment;
use crate::validate::validate_game_result;
use crate::validate::validate_move;
use crate::validate::validate_offer;
use crate::NONCE_LEN;

verus! {

/// Whether a character may appear in a freshly generated nonce: one of the
/// 62 ASCII alphanumeric characters.
pub open spec fn is_nonce_char(c: char) -> bool {
    (('a' as u32) <= (c as u32) && (c as u32) <= ('z' as u32)) || (('A' as u32) <= (c as u32) && (
    c as u32) <= ('Z' as u32)) || (('0' as u32) <= (c as u32) && (c as u32) <= ('9' as u32))
}

/// Relies on rand's thread_rng with the Alphanumeric distribution: every
/// sampled character is one of the 62 ASCII alphanumerics, and the iterator
/// yields exactly the requested count. Which characters come back is
/// random, so nothing more is assumed of them.
#[verifier::external_body]
fn generate_nonce() -> (r: String)
    ensures
        r@.len() == NONCE_LEN,
        forall|i: int| 0 <= i < r@.len() ==> is_nonce_char(#[trigger] r@[i]),
{
    rand::thread_rng().sample_iter(&rand::distributions::Alphanumeric).take(NONCE_LEN).map(
        char::from,
    ).collect()
}

/// Derives the result of the game: the move's component is resolved against
/// the revealed component, and the winner and loser — or, on a draw, both
/// players, host first — are named from `host_id` and the move's named
/// challenger.
pub fn create_game_result(
    ledger: &Ledger,
    reveal: Reveal,
    move_address: Address,
    host_id: String,
) -> (r: Result<GameResult, ValidationError>)
    ensures
        match r {
            Ok(gr) => move_at(ledger@, move_address@) matches Some(mv) && gr@
                == spec_create_game_result(reveal@, move_address@, host_id@, mv),
            Err(e) => move_at(ledger@, move_address@) is None && e == ValidationError::NotFound,
        },
{
    let move_ = match handle_get_move(ledger, &move_address) {
        Ok(m) => m,
        Err(e) => {
            return Err(e);
        },
    };
    let outcome = resolve_components(&move_.component, &reveal.component);
    match outcome {
        Outcome::HostWins => Ok(
            GameResult::Win {
                reveal,
                move_address,
                winner_id: host_id,
                loser_id: move_.challenger_id,
                format_id: move_.format_id,
            },
        ),
        Outcome::ChallengerWins => Ok(
            GameResult::Win {
                reveal,
                move_address,
                winner_id: move_.challenger_id,
                loser_id: host_id,
                format_id: move_.format_id,
            },
        ),
        Outcome::Draw => {
            let ghost host_v = host_id@;
            let ghost challenger_v = move_.challenger_id@;
            let mut players: Vec<String> = Vec::new();
            players.push(host_id);
            players.push(move_.challenger_id);
            proof {
                assert(players.deep_view() =~= seq![host_v, challenger_v]);
            }
            Ok(
                GameResult::Draw {
                    reveal,
                    move_address,
                    players,
                    format_id: move_.format_id,
                },
            )
        },
    }
}

/// What storing a new offer decides, given the identity directory's answer
/// for the offered challenger.
pub open spec fn spec_new_offer_outcome(
    offer: OfferView,
    author: Seq<char>,
    challenger_known: bool,
) -> Result<(), ValidationError> {
    spec_validate_offer(offer, author, challenger_known)
}

/// Stores a new offer inviting `challenger_id` to a game under the format
/// named `format_id`, authored by `author`. The offer is validated first;
/// on rejection the ledger is unchanged.
pub fn handle_new_offer(
    ledger: &mut Ledger,
    challenger_id: String,
    format_id: String,
    author: String,
    challenger_known: bool,
) -> (r: Result<Address, ValidationError>)
    ensures
        ({
            let offer = (OfferView { challenger_id: challenger_id@, format_id: format_id@ });
            match r {
                Ok(addr) => {
                    &&& spec_new_offer_outcome(offer, author@, challenger_known) == Ok::<
                        (),
                        ValidationError,
                    >(())
                    &&& addr@ == old(ledger)@.len() as int
                    &&& final(ledger)@ == old(ledger)@.push(
                        (EntryView { author: author@, record: RecordView::OfferRecord(offer) }),
                    )
                },
                Err(e) => {
                    &&& spec_new_offer_outcome(offer, author@, challenger_known) == Err::<
                        (),
                        ValidationError,
                    >(e)
                    &&& final(ledger)@ == old(ledger)@
                },
            }
        }),
{
    let offer = Offer { challenger_id, format_id };
    match validate_offer(&offer, &author, challenger_known) {
        Ok(_) => {
            let addr = ledger.put(author, Record::OfferRecord(offer));
            Ok(addr)
        },
        Err(e) => Err(e),
    }
}

/// What storing a new commitment decides: `NotFound` when the offer is
/// absent, else the commitment validator's verdict on the built record
/// (whose format is copied from the offer).
pub open spec fn spec_new_commitment_outcome(
    l: Seq<EntryView>,
    offer_address: int,
    host_id: Seq<char>,
    author: Seq<char>,
) -> Result<(), ValidationError> {
    match offer_at(l, offer_address) {
        None => Err(ValidationError::NotFound),
        Some(offer) => spec_validate_commitment_fields(
            l,
            offer_address,
            host_id,
            offer.format_id,
            author,
        ),
    }
}

/// Accepts an offer: draws a fresh nonce, builds the reveal binding the
/// chosen component, commits its digest, and stores the commitment. The
/// reveal is handed back to the caller, who must keep it privately until
/// result time; it is never stored on the ledger.
pub fn handle_new_commitment(
    ledger: &mut Ledger,
    component: Component,
    offer_address: Address,
    host_id: String,
    author: String,
) -> (r: Result<(Address, Reveal), ValidationError>)
    ensures
        match r {
            Ok(p) => {
                &&& p.1@.component == component@
                &&& p.1@.nonce.len() == NONCE_LEN
                &&& forall|i: int|
                    0 <= i < p.1@.nonce.len() ==> is_nonce_char(#[trigger] p.1@.nonce[i])
                &&& offer_at(old(ledger)@, offer_address@) matches Some(offer)
                &&& ({
                    let c = (CommitmentView {
                        hash: spec_commit_hash(p.1@),
                        offer_address: offer_address@,
                        host_id: host_id@,
                        format_id: offer.format_id,
                    });
                    &&& spec_new_commitment_outcome(
                        old(ledger)@,
                        offer_address@,
                        host_id@,
                        author@,
                    ) == Ok::<(), ValidationError>(())
                    &&& p.0@ == old(ledger)@.len() as int
                    &&& final(ledger)@ == old(ledger)@.push(
                        (EntryView {
                            author: author@,
                            record: RecordView::CommitmentRecord(c),
                        }),
                    )
                })
            },
            Err(e) => {
                &&& spec_new_commitment_outcome(old(ledger)@, offer_address@, host_id@, author@)
                    == Err::<(), ValidationError>(e)
                &&& final(ledger)@ == old(ledger)@
            },
        },
{
    let offer = match handle_get_offer(ledger, &offer_address) {
        Ok(o) => o,
        Err(e) => {
            return Err(e);
        },
    };
    let nonce = generate_nonce();
    let reveal = Reveal { component, nonce };
    let hash = calculate_hash(&reveal);
    let commitment = Commitment {
        hash,
        offer_address,
        host_id,
        format_id: offer.format_id,
    };
    match validate_commitment(ledger, &commitment, &author) {
        Ok(_) => {
            let addr = ledger.put(author, Record::CommitmentRecord(commitment));
            Ok((addr, reveal))
        },
        Err(e) => Err(e),
    }
}

/// What storing a new move decides: `NotFound` when the commitment is
/// absent, else the move validator's verdict on the built record (whose
/// hash and format are copied from the commitment).
pub open spec fn spec_new_move_outcome(
    l: Seq<EntryView>,
    commitment_address: int,
    component: ComponentView,
    challenger_id: Seq<char>,
    author: Seq<char>,
    format: FormatView,
) -> Result<(), ValidationError> {
    match commitment_at(l, commitment_address) {
        None => Err(ValidationError::NotFound),
        Some(c) => spec_validate_move_fields(
            l,
            commitment_address,
            component,
            challenger_id,
            c.hash,
            c.format_id,
            author,
            format,
        ),
    }
}

/// Plays the host's move in the open: builds a move copying the
/// commitment's hash and format, validates it against the ledger and the
/// agreed rule set `format`, and stores it.
pub fn handle_new_move(
    ledger: &mut Ledger,
    component: Component,
    commitment_address: Address,
    challenger_id: String,
    author: String,
    format: &Format,
) -> (r: Result<Address, ValidationError>)
    ensures
        match r {
            Ok(addr) => {
                &&& spec_new_move_outcome(
                    old(ledger)@,
                    commitment_address@,
                    component@,
                    challenger_id@,
                    author@,
                    format@,
                ) == Ok::<(), ValidationError>(())
                &&& commitment_at(old(ledger)@, commitment_address@) matches Some(c)
                &&& ({
                    let mv = (MoveView {
                        component: component@,
                        commitment_address: commitment_address@,
                        challenger_id: challenger_id@,
                        hash: c.hash,
                        format_id: c.format_id,
                    });
                    &&& addr@ == old(ledger)@.len() as int
                    &&& final(ledger)@ == old(ledger)@.push(
                        (EntryView { author: author@, record: RecordView::MoveRecord(mv) }),
                    )
                })
            },
            Err(e) => {
                &&& spec_new_move_outcome(
                    old(ledger)@,
                    commitment_address@,
                    component@,
                    challenger_id@,
                    author@,
                    format@,
                ) == Err::<(), ValidationError>(e)
                &&& final(ledger)@ == old(ledger)@
            },
        },
{
    let commitment = match handle_get_commitment(ledger, &commitment_address) {
        Ok(c) => c,
        Err(e) => {
            return Err(e);
        },
    };
    let move_ = Move {
        component,
        commitment_address,
        challenger_id,
        hash: commitment.hash,
        format_id: commitment.format_id,
    };
    match validate_move(ledger, &move_, &author, format) {
        Ok(_) => {
            let addr = ledger.put(author, Record::MoveRecord(move_));
            Ok(addr)
        },
        Err(e) => Err(e),
    }
}

/// What storing a new result decides: `NotFound` when the move is absent,
/// else the result validator's verdict on the result derived from the move
/// and the reveal, and on acceptance that derived result itself.
pub open spec fn spec_new_game_result(
    l: Seq<EntryView>,
    reveal: RevealView,
    move_address: int,
    host_id: Seq<char>,
) -> Result<GameResultView, ValidationError> {
    match move_at(l, move_address) {
        None => Err(ValidationError::NotFound),
        Some(mv) => {
            let gr = spec_create_game_result(reveal, move_address, host_id, mv);
            match spec_validate_game_result(l, gr) {
                Ok(u) => Ok(gr),
                Err(e) => Err(e),
            }
        },
    }
}

/// Reveals and adjudicates: recomputes the outcome from the stored move and
/// the reveal, validates the derived result — rejecting in particular a
/// reveal that does not hash to the committed digest — and stores it.
pub fn handle_new_game_result(
    ledger: &mut Ledger,
    reveal: Reveal,
    move_address: Address,
    host_id: String,
    author: String,
) -> (r: Result<Address, ValidationError>)
    ensures
        match r {
            Ok(addr) => {
                &&& spec_new_game_result(
                    old(ledger)@,
                    reveal@,
                    move_address@,
                    host_id@,
                ) matches Ok(gr)
                &&& addr@ == old(ledger)@.len() as int
                &&& final(ledger)@ == old(ledger)@.push(
                    (EntryView { author: author@, record: RecordView::GameResultRecord(gr) }),
                )
            },
            Err(e) => {
                &&& spec_new_game_result(old(ledger)@, reveal@, move_address@, host_id@) == Err::<
                    GameResultView,
                    ValidationError,
                >(e)
                &&& final(ledger)@ == old(ledger)@
            },
        },
{
    let game_result = match create_game_result(ledger, reveal, move_address, host_id) {
        Ok(g) => g,
        Err(e) => {
            return Err(e);
        },
    };
    match validate_game_result(ledger, &game_result) {
        Ok(_) => {
            let addr = ledger.put(author, Record::GameResultRecord(game_result));
            Ok(addr)
        },
        Err(e) => Err(e),
    }
}

} // verus!
