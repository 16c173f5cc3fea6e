//! The record types of the protocol and their mathematical views.
//!
//! A game runs through four ledger records: an `Offer` by the host, a
//! `Commitment` by the challenger (binding a hidden move through a hash),
//! a `Move` by the host (in the open), and a `GameResult` by the challenger
//! (revealing the hidden move and claiming the outcome). Identities are the
//! plain names under which records are authored; addresses refer to records
//! already on the ledger.

use vstd::prelude::*;

verus! {

// ---------------------------------------------------------------------------
// Errors
// ---------------------------------------------------------------------------

/// Why a candidate record (or a read) is rejected. Validation is a pure
/// function of the candidate and the records it references, so a rejected
/// record can never become valid by retrying.
#[derive(Clone, Copy, Debug, PartialEq, Eq, Structural)]
pub enum ValidationError {
    /// A referenced record is not on the ledger.
    NotFound,
    /// The offered challenger is not a known identity.
    UnknownChallenger,
    /// The commitment names a host other than the offer's author.
    HostMismatch,
    /// The commitment's author is not the challenger named in the offer.
    ChallengerMismatch,
    /// The author of a record is not the expected counterparty.
    AuthorMismatch,
    /// A format identifier differs from the referenced record's.
    FormatMismatch,
    /// The move's copied hash differs from the commitment's hash.
    HashMismatch,
    /// The revealed move does not hash to the committed digest.
    RevealHashMismatch,
    /// The played component is not part of the agreed format.
    InvalidComponent,
    /// The claimed outcome differs from the independently recomputed one.
    ResultMismatch,
}

// ---------------------------------------------------------------------------
// Addresses
// ---------------------------------------------------------------------------

/// A content address: a stable reference to one record already on the
/// ledger. The store hands one out when a record is put and resolves it on
/// every later read.
#[derive(Clone, Copy, Debug, PartialEq, Eq, Structural)]
pub struct Address {
    pub index: usize,
}

impl View for Address {
    type V = int;

    open spec fn view(&self) -> int {
        self.index as int
    }
}

// ---------------------------------------------------------------------------
// Components and formats
// ---------------------------------------------------------------------------

/// One named move of a format, together with the names it beats and the
/// names it loses to.
#[derive(Debug)]
pub struct Component {
    pub name: String,
    pub wins_against: Vec<String>,
    pub loses_against: Vec<String>,
}

/// The mathematical value of a [`Component`].
#[verifier::ext_equal]
pub struct ComponentView {
    pub name: Seq<char>,
    pub wins_against: Seq<Seq<char>>,
    pub loses_against: Seq<Seq<char>>,
}

impl View for Component {
    type V = ComponentView;

    open spec fn view(&self) -> ComponentView {
        ComponentView {
            name: self.name@,
            wins_against: self.wins_against.deep_view(),
            loses_against: self.loses_against.deep_view(),
        }
    }
}

impl DeepView for Component {
    type V = ComponentView;

    open spec fn deep_view(&self) -> ComponentView {
        self.view()
    }
}

impl Clone for Component {
    fn clone(&self) -> (r: Self)
        ensures
            r@ == self@,
    {
        Component {
            name: self.name.clone(),
            wins_against: clone_strings(&self.wins_against),
            loses_against: clone_strings(&self.loses_against),
        }
    }
}

impl PartialEq for Component {
    fn eq(&self, other: &Self) -> (r: bool) {
        let r = self.name == other.name && string_vecs_eq(&self.wins_against, &other.wins_against)
            && string_vecs_eq(&self.loses_against, &other.loses_against);
        proof {
            if r {
                assert(self@ =~= other@);
            }
        }
        r
    }
}

impl vstd::std_specs::cmp::PartialEqSpecImpl for Component {
    open spec fn obeys_eq_spec() -> bool {
        true
    }

    open spec fn eq_spec(&self, other: &Component) -> bool {
        self@ == other@
    }
}

/// A rule set: the components a game may be played with, each carrying its
/// own "beats" and "loses to" relation.
#[derive(Debug)]
pub struct Format {
    pub moves: Vec<Component>,
}

/// The mathematical value of a [`Format`].
#[verifier::ext_equal]
pub struct FormatView {
    pub moves: Seq<ComponentView>,
}

impl View for Format {
    type V = FormatView;

    open spec fn view(&self) -> FormatView {
        FormatView { moves: self.moves.deep_view() }
    }
}

// ---------------------------------------------------------------------------
// Records
// ---------------------------------------------------------------------------

/// The host's invitation: a named challenger and the format to play under.
#[derive(Debug)]
pub struct Offer {
    pub challenger_id: String,
    pub format_id: String,
}

/// The mathematical value of an [`Offer`].
#[verifier::ext_equal]
pub struct OfferView {
    pub challenger_id: Seq<char>,
    pub format_id: Seq<char>,
}

impl View for Offer {
    type V = OfferView;

    open spec fn view(&self) -> OfferView {
        OfferView { challenger_id: self.challenger_id@, format_id: self.format_id@ }
    }
}

impl Clone for Offer {
    fn clone(&self) -> (r: Self)
        ensures
            r@ == self@,
    {
        Offer { challenger_id: self.challenger_id.clone(), format_id: self.format_id.clone() }
    }
}

/// The challenger's acceptance of an offer, binding a hidden move through
/// the hash of a privately kept [`Reveal`].
#[derive(Debug)]
pub struct Commitment {
    pub hash: Vec<u8>,
    pub offer_address: Address,
    pub host_id: String,
    pub format_id: String,
}

/// The mathematical value of a [`Commitment`].
#[verifier::ext_equal]
pub struct CommitmentView {
    pub hash: Seq<u8>,
    pub offer_address: int,
    pub host_id: Seq<char>,
    pub format_id: Seq<char>,
}

impl View for Commitment {
    type V = CommitmentView;

    open spec fn view(&self) -> CommitmentView {
        CommitmentView {
            hash: self.hash@,
            offer_address: self.offer_address@,
            host_id: self.host_id@,
            format_id: self.format_id@,
        }
    }
}

impl Clone for Commitment {
    fn clone(&self) -> (r: Self)
        ensures
            r@ == self@,
    {
        Commitment {
            hash: clone_bytes(&self.hash),
            offer_address: self.offer_address,
            host_id: self.host_id.clone(),
            format_id: self.format_id.clone(),
        }
    }
}

/// The host's move, played in the open once the challenger is committed.
/// It copies the commitment's hash so that neither side can later swap the
/// committed digest.
#[derive(Debug)]
pub struct Move {
    pub component: Component,
    pub commitment_address: Address,
    pub challenger_id: String,
    pub hash: Vec<u8>,
    pub format_id: String,
}

/// The mathematical value of a [`Move`].
#[verifier::ext_equal]
pub struct MoveView {
    pub component: ComponentView,
    pub commitment_address: int,
    pub challenger_id: Seq<char>,
    pub hash: Seq<u8>,
    pub format_id: Seq<char>,
}

impl View for Move {
    type V = MoveView;

    open spec fn view(&self) -> MoveView {
        MoveView {
            component: self.component@,
            commitment_address: self.commitment_address@,
            challenger_id: self.challenger_id@,
            hash: self.hash@,
            format_id: self.format_id@,
        }
    }
}

impl Clone for Move {
    fn clone(&self) -> (r: Self)
        ensures
            r@ == self@,
    {
        Move {
            component: self.component.clone(),
            commitment_address: self.commitment_address,
            challenger_id: self.challenger_id.clone(),
            hash: clone_bytes(&self.hash),
            format_id: self.format_id.clone(),
        }
    }
}

/// The challenger's plaintext move together with the secret nonce that
/// hashes to the committed digest. Never published on its own: it is kept
/// privately from commitment time and only embedded inside a result.
#[derive(Debug)]
pub struct Reveal {
    pub component: Component,
    pub nonce: String,
}

/// The mathematical value of a [`Reveal`].
#[verifier::ext_equal]
pub struct RevealView {
    pub component: ComponentView,
    pub nonce: Seq<char>,
}

impl View for Reveal {
    type V = RevealView;

    open spec fn view(&self) -> RevealView {
        RevealView { component: self.component@, nonce: self.nonce@ }
    }
}

impl Clone for Reveal {
    fn clone(&self) -> (r: Self)
        ensures
            r@ == self@,
    {
        Reveal { component: self.component.clone(), nonce: self.nonce.clone() }
    }
}

impl PartialEq for Reveal {
    fn eq(&self, other: &Self) -> (r: bool) {
        let r = self.component == other.component && self.nonce == other.nonce;
        proof {
            if r {
                assert(self@ =~= other@);
            }
        }
        r
    }
}

impl vstd::std_specs::cmp::PartialEqSpecImpl for Reveal {
    open spec fn obeys_eq_spec() -> bool {
        true
    }

    open spec fn eq_spec(&self, other: &Reveal) -> bool {
        self@ == other@
    }
}

/// The adjudicated outcome, carrying everything a third party needs to
/// recompute and check it: the reveal, the move it answers, the players, and
/// the format.
#[derive(Debug)]
pub enum GameResult {
    Win {
        reveal: Reveal,
        move_address: Address,
        winner_id: String,
        loser_id: String,
        format_id: String,
    },
    Draw {
        reveal: Reveal,
        move_address: Address,
        players: Vec<String>,
        format_id: String,
    },
}

/// The mathematical value of a [`GameResult`].
#[verifier::ext_equal]
pub enum GameResultView {
    Win {
        reveal: RevealView,
        move_address: int,
        winner_id: Seq<char>,
        loser_id: Seq<char>,
        format_id: Seq<char>,
    },
    Draw {
        reveal: RevealView,
        move_address: int,
        players: Seq<Seq<char>>,
        format_id: Seq<char>,
    },
}

impl View for GameResult {
    type V = GameResultView;

    open spec fn view(&self) -> GameResultView {
        match self {
            GameResult::Win { reveal, move_address, winner_id, loser_id, format_id } => {
                GameResultView::Win {
                    reveal: reveal@,
                    move_address: move_address@,
                    winner_id: winner_id@,
                    loser_id: loser_id@,
                    format_id: format_id@,
                }
            },
            GameResult::Draw { reveal, move_address, players, format_id } => {
                GameResultView::Draw {
                    reveal: reveal@,
                    move_address: move_address@,
                    players: players.deep_view(),
                    format_id: format_id@,
                }
            },
        }
    }
}

impl Clone for GameResult {
    fn clone(&self) -> (r: Self)
        ensures
            r@ == self@,
    {
        match self {
            GameResult::Win { reveal, move_address, winner_id, loser_id, format_id } => {
                GameResult::Win {
                    reveal: reveal.clone(),
                    move_address: *move_address,
                    winner_id: winner_id.clone(),
                    loser_id: loser_id.clone(),
                    format_id: format_id.clone(),
                }
            },
            GameResult::Draw { reveal, move_address, players, format_id } => {
                GameResult::Draw {
                    reveal: reveal.clone(),
                    move_address: *move_address,
                    players: clone_strings(players),
                    format_id: format_id.clone(),
                }
            },
        }
    }
}

impl PartialEq for GameResult {
    fn eq(&self, other: &Self) -> (r: bool) {
        let r = match self {
            GameResult::Win { reveal, move_address, winner_id, loser_id, format_id } => {
                match other {
                    GameResult::Win {
                        reveal: other_reveal,
                        move_address: other_move_address,
                        winner_id: other_winner_id,
                        loser_id: other_loser_id,
                        format_id: other_format_id,
                    } => {
                        *reveal == *other_reveal && *move_address == *other_move_address
                            && *winner_id == *other_winner_id && *loser_id == *other_loser_id
                            && *format_id == *other_format_id
                    },
                    _ => false,
                }
            },
            GameResult::Draw { reveal, move_address, players, format_id } => {
                match other {
                    GameResult::Draw {
                        reveal: other_reveal,
                        move_address: other_move_address,
                        players: other_players,
                        format_id: other_format_id,
                    } => {
                        *reveal == *other_reveal && *move_address == *other_move_address
                            && string_vecs_eq(players, other_players)
                            && *format_id == *other_format_id
                    },
                    _ => false,
                }
            },
        };
        proof {
            if r {
                assert(self@ =~= other@);
            }
        }
        r
    }
}

impl vstd::std_specs::cmp::PartialEqSpecImpl for GameResult {
    open spec fn obeys_eq_spec() -> bool {
        true
    }

    open spec fn eq_spec(&self, other: &GameResult) -> bool {
        self@ == other@
    }
}

/// The reveal a result embeds, whichever variant it is.
pub open spec fn result_reveal(gr: GameResultView) -> RevealView {
    if gr is Win {
        gr->Win_reveal
    } else {
        gr->Draw_reveal
    }
}

/// The move address a result references, whichever variant it is.
pub open spec fn result_move_address(gr: GameResultView) -> int {
    if gr is Win {
        gr->Win_move_address
    } else {
        gr->Draw_move_address
    }
}

/// The format identifier a result carries, whichever variant it is.
pub open spec fn result_format_id(gr: GameResultView) -> Seq<char> {
    if gr is Win {
        gr->Win_format_id
    } else {
        gr->Draw_format_id
    }
}

// ---------------------------------------------------------------------------
// Small executable helpers over strings and bytes
// ---------------------------------------------------------------------------

/// Element-for-element copy of a list of strings.
pub(crate) fn clone_strings(v: &Vec<String>) -> (r: Vec<String>)
    ensures
        r.deep_view() == v.deep_view(),
{
    let mut r: Vec<String> = Vec::new();
    let mut i: usize = 0;
    while i < v.len()
        invariant
            i <= v@.len(),
            r@.len() == i,
            forall|j: int| 0 <= j < i ==> r@[j] == v@[j],
        decreases v@.len() - i,
    {
        r.push(v[i].clone());
        i += 1;
    }
    proof {
        assert(r.deep_view() =~= v.deep_view());
    }
    r
}

/// Element-for-element copy of a byte string.
pub(crate) fn clone_bytes(v: &Vec<u8>) -> (r: Vec<u8>)
    ensures
        r@ == v@,
{
    let mut r: Vec<u8> = Vec::new();
    let mut i: usize = 0;
    while i < v.len()
        invariant
            i <= v@.len(),
            r@.len() == i,
            forall|j: int| 0 <= j < i ==> r@[j] == v@[j],
        decreases v@.len() - i,
    {
        r.push(v[i]);
        i += 1;
    }
    proof {
        assert(r@ =~= v@);
    }
    r
}

/// Whether two lists of strings hold the same strings in the same order.
pub(crate) fn string_vecs_eq(a: &Vec<String>, b: &Vec<String>) -> (r: bool)
    ensures
        r == (a.deep_view() == b.deep_view()),
{
    if a.len() != b.len() {
        proof {
            assert(a.deep_view().len() == a@.len());
            assert(b.deep_view().len() == b@.len());
        }
        return false;
    }
    let mut i: usize = 0;
    while i < a.len()
        invariant
            a@.len() == b@.len(),
            i <= a@.len(),
            forall|j: int| 0 <= j < i ==> a@[j]@ == b@[j]@,
        decreases a@.len() - i,
    {
        if !(a[i] == b[i]) {
            proof {
                assert(a.deep_view()[i as int] != b.deep_view()[i as int]);
            }
            return false;
        }
        i += 1;
    }
    proof {
        assert(a.deep_view() =~= b.deep_view());
    }
    true
}

/// Whether two byte strings are equal.
pub(crate) fn bytes_eq(a: &Vec<u8>, b: &Vec<u8>) -> (r: bool)
    ensures
        r == (a@ == b@),
{
    if a.len() != b.len() {
        return false;
    }
    let mut i: usize = 0;
    while i < a.len()
        invariant
            a@.len() == b@.len(),
            i <= a@.len(),
            forall|j: int| 0 <= j < i ==> a@[j] == b@[j],
        decreases a@.len() - i,
    {
        if a[i] != b[i] {
            return false;
        }
        i += 1;
    }
    proof {
        assert(a@ =~= b@);
    }
    true
}

} // verus!
