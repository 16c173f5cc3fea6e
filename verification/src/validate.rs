//! The record validators.
//!
//! Each validator is a pure function of the candidate record, its author
//! identity, and the records it references on the ledger. A record is
//! accepted into the ledger only when its validator accepts, so every
//! record's validity was established from records already stored — the
//! chain never needs re-validation, and any replica replaying a validator
//! over the same entries derives the same verdict.

use vstd::prelude::*;

use crate::commit::calculate_hash;
use crate::commit::spec_commit_hash;
use crate::ledger::author_at;
use crate::ledger::commitment_at;
use crate::ledger::get_author;
use crate::ledger::handle_get_commitment;
use crate::ledger::handle_get_move;
use crate::ledger::handle_get_offer;
use crate::ledger::move_at;
use crate::ledger::offer_at;
use crate::ledger::EntryView;
use crate::ledger::Ledger;
use crate::protocol::create_game_result;
use crate::resolve::format_has_component;
use crate::resolve::spec_create_game_result;
use crate::types::bytes_eq;
use crate::types::result_format_id;
use crate::types::result_move_address;
use crate::types::result_reveal;
use crate::types::Commitment;
use crate::types::CommitmentView;
use crate::types::ComponentView;
use crate::types::Format;
use crate::types::FormatView;
use crate::types::GameResult;
use crate::types::GameResultView;
use crate::types::Move;
use crate::types::MoveView;
use crate::types::Offer;
use crate::types::OfferView;
use crate::types::RevealView;
use crate::types::ValidationError;

verus! {

// ---------------------------------------------------------------------------
// Offer
// ---------------------------------------------------------------------------

/// The verdict on a candidate offer: the named challenger must be a known
/// identity, and must differ from the offering host.
pub open spec fn spec_validate_offer(
    offer: OfferView,
    author: Seq<char>,
    challenger_known: bool,
) -> Result<(), ValidationError> {
    if !challenger_known {
        Err(ValidationError::UnknownChallenger)
    } else if author == offer.challenger_id {
        Err(ValidationError::AuthorMismatch)
    } else {
        Ok(())
    }
}

/// Validates a candidate offer authored by `author`. `challenger_known`
/// is the identity directory's answer for the offered challenger; the
/// directory itself is an outside collaborator.
pub fn validate_offer(offer: &Offer, author: &String, challenger_known: bool) -> (r: Result<
    (),
    ValidationError,
>)
    ensures
        r == spec_validate_offer(offer@, author@, challenger_known),
{
    if !challenger_known {
        return Err(ValidationError::UnknownChallenger);
    }
    if *author == offer.challenger_id {
        return Err(ValidationError::AuthorMismatch);
    }
    Ok(())
}

// ---------------------------------------------------------------------------
// Commitment
// ---------------------------------------------------------------------------

/// The verdict on a commitment's fields against the ledger: the referenced
/// offer must exist, its author must be the commitment's named host, the
/// commitment's author must be the offered challenger, and the formats must
/// agree. The first failing check names the error.
pub open spec fn spec_validate_commitment_fields(
    l: Seq<EntryView>,
    offer_address: int,
    host_id: Seq<char>,
    format_id: Seq<char>,
    author: Seq<char>,
) -> Result<(), ValidationError> {
    match offer_at(l, offer_address) {
        None => Err(ValidationError::NotFound),
        Some(offer) => match author_at(l, offer_address) {
            None => Err(ValidationError::NotFound),
            Some(offer_author) => {
                if offer_author != host_id {
                    Err(ValidationError::HostMismatch)
                } else if author != offer.challenger_id {
                    Err(ValidationError::ChallengerMismatch)
                } else if format_id != offer.format_id {
                    Err(ValidationError::FormatMismatch)
                } else {
                    Ok(())
                }
            },
        },
    }
}

/// The verdict on a candidate commitment authored by `author`.
pub open spec fn spec_validate_commitment(
    l: Seq<EntryView>,
    c: CommitmentView,
    author: Seq<char>,
) -> Result<(), ValidationError> {
    spec_validate_commitment_fields(l, c.offer_address, c.host_id, c.format_id, author)
}

/// Validates a candidate commitment authored by `author` against the
/// ledger, exactly as [`spec_validate_commitment`] states it.
pub fn validate_commitment(ledger: &Ledger, commitment: &Commitment, author: &String) -> (r:
    Result<(), ValidationError>)
    ensures
        r == spec_validate_commitment(ledger@, commitment@, author@),
{
    let offer_author = match get_author(ledger, &commitment.offer_address) {
        Ok(a) => a,
        Err(e) => {
            return Err(e);
        },
    };
    let offer = match handle_get_offer(ledger, &commitment.offer_address) {
        Ok(o) => o,
        Err(e) => {
            return Err(e);
        },
    };
    if !(offer_author == commitment.host_id) {
        return Err(ValidationError::HostMismatch);
    }
    if !(*author == offer.challenger_id) {
        return Err(ValidationError::ChallengerMismatch);
    }
    if !(commitment.format_id == offer.format_id) {
        return Err(ValidationError::FormatMismatch);
    }
    Ok(())
}

// ---------------------------------------------------------------------------
// Move
// ---------------------------------------------------------------------------

/// The verdict on a move's fields against the ledger: the referenced
/// commitment must exist, the move's author must be the committed host, the
/// commitment's author must be the move's named challenger, the hash must
/// be copied unchanged, the formats must agree, and the played component
/// must belong to the agreed format.
pub open spec fn spec_validate_move_fields(
    l: Seq<EntryView>,
    commitment_address: int,
    component: ComponentView,
    challenger_id: Seq<char>,
    hash: Seq<u8>,
    format_id: Seq<char>,
    author: Seq<char>,
    format: FormatView,
) -> Result<(), ValidationError> {
    match commitment_at(l, commitment_address) {
        None => Err(ValidationError::NotFound),
        Some(commitment) => match author_at(l, commitment_address) {
            None => Err(ValidationError::NotFound),
            Some(commitment_author) => {
                if author != commitment.host_id {
                    Err(ValidationError::AuthorMismatch)
                } else if commitment_author != challenger_id {
                    Err(ValidationError::AuthorMismatch)
                } else if hash != commitment.hash {
                    Err(ValidationError::HashMismatch)
                } else if format_id != commitment.format_id {
                    Err(ValidationError::FormatMismatch)
                } else if !format_has_component(format, component.name) {
                    Err(ValidationError::InvalidComponent)
                } else {
                    Ok(())
                }
            },
        },
    }
}

/// The verdict on a candidate move authored by `author`, played under the
/// rule set `format` that the move's format identifier names.
pub open spec fn spec_validate_move(
    l: Seq<EntryView>,
    mv: MoveView,
    author: Seq<char>,
    format: FormatView,
) -> Result<(), ValidationError> {
    spec_validate_move_fields(
        l,
        mv.commitment_address,
        mv.component,
        mv.challenger_id,
        mv.hash,
        mv.format_id,
        author,
        format,
    )
}

/// Whether a format carries a component of the given name.
fn format_contains_name(format: &Format, name: &String) -> (r: bool)
    ensures
        r == format_has_component(format@, name@),
{
    let mut i: usize = 0;
    while i < format.moves.len()
        invariant
            i <= format.moves@.len(),
            forall|j: int| 0 <= j < i ==> format.moves@[j]@.name != name@,
        decreases format.moves@.len() - i,
    {
        if format.moves[i].name == *name {
            proof {
                assert(format@.moves[i as int].name == name@);
            }
            return true;
        }
        i += 1;
    }
    proof {
        assert(forall|j: int| 0 <= j < format@.moves.len() ==> format@.moves[j].name != name@);
    }
    false
}

/// Validates a candidate move authored by `author` against the ledger and
/// the agreed format, exactly as [`spec_validate_move`] states it.
pub fn validate_move(ledger: &Ledger, move_: &Move, author: &String, format: &Format) -> (r:
    Result<(), ValidationError>)
    ensures
        r == spec_validate_move(ledger@, move_@, author@, format@),
{
    let commitment_author = match get_author(ledger, &move_.commitment_address) {
        Ok(a) => a,
        Err(e) => {
            return Err(e);
        },
    };
    let commitment = match handle_get_commitment(ledger, &move_.commitment_address) {
        Ok(c) => c,
        Err(e) => {
            return Err(e);
        },
    };
    if !(*author == commitment.host_id) {
        return Err(ValidationError::AuthorMismatch);
    }
    if !(commitment_author == move_.challenger_id) {
        return Err(ValidationError::AuthorMismatch);
    }
    if !bytes_eq(&move_.hash, &commitment.hash) {
        return Err(ValidationError::HashMismatch);
    }
    if !(move_.format_id == commitment.format_id) {
        return Err(ValidationError::FormatMismatch);
    }
    if !format_contains_name(format, &move_.component.name) {
        return Err(ValidationError::InvalidComponent);
    }
    Ok(())
}

// ---------------------------------------------------------------------------
// Game result
// ---------------------------------------------------------------------------

/// The verdict on a candidate result against the ledger: the referenced
/// move must exist, the embedded reveal must hash to the move's committed
/// digest, the formats must agree, and the claimed result must equal the
/// one recomputed from the move and the reveal, with the move's author as
/// host.
pub open spec fn spec_validate_game_result(l: Seq<EntryView>, gr: GameResultView) -> Result<
    (),
    ValidationError,
> {
    let reveal = result_reveal(gr);
    let addr = result_move_address(gr);
    let format_id = result_format_id(gr);
    match move_at(l, addr) {
        None => Err(ValidationError::NotFound),
        Some(mv) => match author_at(l, addr) {
            None => Err(ValidationError::NotFound),
            Some(move_author) => {
                if spec_commit_hash(reveal) != mv.hash {
                    Err(ValidationError::RevealHashMismatch)
                } else if format_id != mv.format_id {
                    Err(ValidationError::FormatMismatch)
                } else if gr != spec_create_game_result(reveal, addr, move_author, mv) {
                    Err(ValidationError::ResultMismatch)
                } else {
                    Ok(())
                }
            },
        },
    }
}

/// Validates a candidate result against the ledger, exactly as
/// [`spec_validate_game_result`] states it: the trust anchor that lets any
/// observer, not only the two players, detect a cheated outcome.
pub fn validate_game_result(ledger: &Ledger, game_result: &GameResult) -> (r: Result<
    (),
    ValidationError,
>)
    ensures
        r == spec_validate_game_result(ledger@, game_result@),
{
    let (reveal, move_address, format_id) = match game_result {
        GameResult::Win { reveal, move_address, format_id, .. } => {
            (reveal, *move_address, format_id)
        },
        GameResult::Draw { reveal, move_address, format_id, .. } => {
            (reveal, *move_address, format_id)
        },
    };
    let move_author = match get_author(ledger, &move_address) {
        Ok(a) => a,
        Err(e) => {
            return Err(e);
        },
    };
    let move_ = match handle_get_move(ledger, &move_address) {
        Ok(m) => m,
        Err(e) => {
            return Err(e);
        },
    };
    let hash = calculate_hash(reveal);
    if !bytes_eq(&hash, &move_.hash) {
        return Err(ValidationError::RevealHashMismatch);
    }
    if !(*format_id == move_.format_id) {
        return Err(ValidationError::FormatMismatch);
    }
    let recomputed = match create_game_result(ledger, reveal.clone(), move_address, move_author) {
        Ok(g) => g,
        Err(e) => {
            return Err(e);
        },
    };
    if !(*game_result == recomputed) {
        return Err(ValidationError::ResultMismatch);
    }
    Ok(())
}

// ---------------------------------------------------------------------------
// Laws
// ---------------------------------------------------------------------------

/// Commit-reveal binding, accepting direction: a result recomputed from a
/// stored move and a reveal whose digest equals the move's committed hash
/// is accepted.
pub proof fn lemma_commit_reveal_binding_accepts(
    l: Seq<EntryView>,
    reveal: RevealView,
    addr: int,
    mv: MoveView,
    author: Seq<char>,
    gr: GameResultView,
)
    requires
        move_at(l, addr) == Some(mv),
        author_at(l, addr) == Some(author),
        mv.hash == spec_commit_hash(reveal),
        gr == spec_create_game_result(reveal, addr, author, mv),
    ensures
        spec_validate_game_result(l, gr) == Ok::<(), ValidationError>(()),
{
}

/// Commit-reveal binding, rejecting direction: against a stored move whose
/// committed hash is not the digest of the embedded reveal, every result is
/// rejected as `RevealHashMismatch`. The canonical encoding is injective
/// ([`crate::commit::lemma_encode_reveal_injective`]), so a reveal other
/// than the committed one can only slip through if its digest collides with
/// the committed one, which collision resistance of the hash excludes.
pub proof fn lemma_commit_reveal_binding_rejects(
    l: Seq<EntryView>,
    gr: GameResultView,
    mv: MoveView,
)
    requires
        move_at(l, result_move_address(gr)) == Some(mv),
        mv.hash != spec_commit_hash(result_reveal(gr)),
    ensures
        spec_validate_game_result(l, gr) == Err::<(), ValidationError>(
            ValidationError::RevealHashMismatch,
        ),
{
}

/// Chain integrity: a commitment validates exactly when its referenced
/// offer exists and every identity and format field cross-matches.
pub proof fn lemma_chain_integrity(l: Seq<EntryView>, c: CommitmentView, author: Seq<char>)
    ensures
        spec_validate_commitment(l, c, author) == Ok::<(), ValidationError>(()) <==> (offer_at(
            l,
            c.offer_address,
        ) matches Some(offer) && author_at(l, c.offer_address) == Some(c.host_id) && author
            == offer.challenger_id && c.format_id == offer.format_id),
{
}

/// Chain integrity, mutation direction: changing any one of the host
/// identity, the authoring challenger, or the format of a validating
/// commitment makes it rejected, each with its own error.
pub proof fn lemma_chain_integrity_mutation(l: Seq<EntryView>, c: CommitmentView, author: Seq<char>)
    requires
        spec_validate_commitment(l, c, author) == Ok::<(), ValidationError>(()),
    ensures
        forall|h: Seq<char>|
            h != c.host_id ==> spec_validate_commitment(l, (CommitmentView { host_id: h, ..c }), author)
                == Err::<(), ValidationError>(ValidationError::HostMismatch),
        forall|a2: Seq<char>|
            a2 != author ==> spec_validate_commitment(l, c, a2) == Err::<(), ValidationError>(
                ValidationError::ChallengerMismatch,
            ),
        forall|f: Seq<char>|
            f != c.format_id ==> spec_validate_commitment(
                l,
                (CommitmentView { format_id: f, ..c }),
                author,
            ) == Err::<(), ValidationError>(ValidationError::FormatMismatch),
{
}

/// Validity never needs re-deriving: a verdict depends only on the record's
/// referenced predecessor, so appending further records to the ledger never
/// changes the verdict on a candidate whose referenced address is already
/// on it. A record accepted at insertion time therefore stays valid for
/// good.
pub proof fn lemma_no_revalidation_needed(
    l: Seq<EntryView>,
    appended: EntryView,
    c: CommitmentView,
    mv: MoveView,
    gr: GameResultView,
    author: Seq<char>,
    format: FormatView,
)
    ensures
        0 <= c.offer_address < l.len() ==> spec_validate_commitment(l.push(appended), c, author)
            == spec_validate_commitment(l, c, author),
        0 <= mv.commitment_address < l.len() ==> spec_validate_move(
            l.push(appended),
            mv,
            author,
            format,
        ) == spec_validate_move(l, mv, author, format),
        0 <= result_move_address(gr) < l.len() ==> spec_validate_game_result(l.push(appended), gr)
            == spec_validate_game_result(l, gr),
{
    assert(forall|addr: int| 0 <= addr < l.len() ==> l.push(appended)[addr] == l[addr]);
}

/// Replay determinism: a result's verdict is a function of the ledger's
/// entries and the candidate alone, so validating the same result twice,
/// or on two replicas holding the same predecessor records, yields the
/// same accept/reject verdict.
pub proof fn lemma_replay_determinism(
    l1: Seq<EntryView>,
    l2: Seq<EntryView>,
    gr: GameResultView,
    v1: Result<(), ValidationError>,
    v2: Result<(), ValidationError>,
)
    requires
        l1 == l2,
        v1 == spec_validate_game_result(l1, gr),
        v2 == spec_validate_game_result(l2, gr),
    ensures
        v1 == v2,
{
}

} // verus!
