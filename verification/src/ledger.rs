//! The append-only ledger the protocol plays over.
//!
//! Every accepted record is appended together with its author identity and
//! is addressed by a stable [`Address`]. Records are never changed or
//! removed, so a read at a given address returns the same record on every
//! call and on every replica holding the same entries — which is what lets
//! each validator re-derive its verdict at any time.

use vstd::prelude::*;

use crate::types::Address;
use crate::types::Commitment;
use crate::types::CommitmentView;
use crate::types::GameResult;
use crate::types::GameResultView;
use crate::types::Move;
use crate::types::MoveView;
use crate::types::Offer;
use crate::types::OfferView;
use crate::types::ValidationError;

verus! {

/// One stored record of any of the four kinds.
#[derive(Debug)]
pub enum Record {
    OfferRecord(Offer),
    CommitmentRecord(Commitment),
    MoveRecord(Move),
    GameResultRecord(GameResult),
}

/// The mathematical value of a [`Record`].
#[verifier::ext_equal]
pub enum RecordView {
    OfferRecord(OfferView),
    CommitmentRecord(CommitmentView),
    MoveRecord(MoveView),
    GameResultRecord(GameResultView),
}

impl View for Record {
    type V = RecordView;

    open spec fn view(&self) -> RecordView {
        match self {
            Record::OfferRecord(o) => RecordView::OfferRecord(o@),
            Record::CommitmentRecord(c) => RecordView::CommitmentRecord(c@),
            Record::MoveRecord(m) => RecordView::MoveRecord(m@),
            Record::GameResultRecord(g) => RecordView::GameResultRecord(g@),
        }
    }
}

/// A stored record together with the identity that authored it, as the
/// store's signed authorship metadata resolves it.
#[derive(Debug)]
pub struct LedgerEntry {
    pub author: String,
    pub record: Record,
}

/// The mathematical value of a [`LedgerEntry`].
#[verifier::ext_equal]
pub struct EntryView {
    pub author: Seq<char>,
    pub record: RecordView,
}

impl View for LedgerEntry {
    type V = EntryView;

    open spec fn view(&self) -> EntryView {
        EntryView { author: self.author@, record: self.record@ }
    }
}

impl DeepView for LedgerEntry {
    type V = EntryView;

    open spec fn deep_view(&self) -> EntryView {
        self.view()
    }
}

/// The append-only, content-addressed store of accepted records. Its value
/// is the sequence of entries in the order they were accepted; an address
/// refers to one position of that sequence and stays valid forever.
#[derive(Debug)]
pub struct Ledger {
    entries: Vec<LedgerEntry>,
}

impl View for Ledger {
    type V = Seq<EntryView>;

    closed spec fn view(&self) -> Seq<EntryView> {
        self.entries.deep_view()
    }
}

/// The entry a ledger holds at an address, if the address is in range.
pub open spec fn entry_at(l: Seq<EntryView>, addr: int) -> Option<EntryView> {
    if 0 <= addr < l.len() {
        Some(l[addr])
    } else {
        None
    }
}

/// The author of the entry at an address, if one is stored there.
pub open spec fn author_at(l: Seq<EntryView>, addr: int) -> Option<Seq<char>> {
    match entry_at(l, addr) {
        Some(e) => Some(e.author),
        None => None,
    }
}

/// The offer at an address, if the entry there is an offer.
pub open spec fn offer_at(l: Seq<EntryView>, addr: int) -> Option<OfferView> {
    match entry_at(l, addr) {
        Some(e) => match e.record {
            RecordView::OfferRecord(o) => Some(o),
            _ => None,
        },
        None => None,
    }
}

/// The commitment at an address, if the entry there is a commitment.
pub open spec fn commitment_at(l: Seq<EntryView>, addr: int) -> Option<CommitmentView> {
    match entry_at(l, addr) {
        Some(e) => match e.record {
            RecordView::CommitmentRecord(c) => Some(c),
            _ => None,
        },
        None => None,
    }
}

/// The move at an address, if the entry there is a move.
pub open spec fn move_at(l: Seq<EntryView>, addr: int) -> Option<MoveView> {
    match entry_at(l, addr) {
        Some(e) => match e.record {
            RecordView::MoveRecord(m) => Some(m),
            _ => None,
        },
        None => None,
    }
}

impl Ledger {
    /// A ledger holding no records yet.
    pub fn new() -> (r: Ledger)
        ensures
            r@ == Seq::<EntryView>::empty(),
    {
        let r = Ledger { entries: Vec::new() };
        proof {
            assert(r@ =~= Seq::<EntryView>::empty());
        }
        r
    }

    /// How many records the ledger holds.
    pub fn len(&self) -> (r: usize)
        ensures
            r == self@.len(),
    {
        self.entries.len()
    }

    /// Appends a record under its author and hands back its address.
    /// Reached only through the protocol operations, which validate first.
    pub(crate) fn put(&mut self, author: String, record: Record) -> (r: Address)
        ensures
            final(self)@ == old(self)@.push((EntryView { author: author@, record: record@ })),
            r@ == old(self)@.len() as int,
    {
        let index = self.entries.len();
        let ghost entry_v = EntryView { author: author@, record: record@ };
        self.entries.push(LedgerEntry { author, record });
        proof {
            assert(self@ =~= old(self)@.push(entry_v));
        }
        Address { index }
    }

    /// A borrow of the entry at an address, if the address is in range.
    pub(crate) fn entry(&self, address: &Address) -> (r: Option<&LedgerEntry>)
        ensures
            match r {
                Some(e) => entry_at(self@, address@) == Some(e@),
                None => entry_at(self@, address@) is None,
            },
    {
        if address.index < self.entries.len() {
            Some(&self.entries[address.index])
        } else {
            None
        }
    }
}

/// The value a read of an offer yields: the stored offer, or `NotFound`
/// when the address does not hold one.
pub open spec fn spec_get_offer(l: Seq<EntryView>, addr: int) -> Result<
    OfferView,
    ValidationError,
> {
    match offer_at(l, addr) {
        Some(o) => Ok(o),
        None => Err(ValidationError::NotFound),
    }
}

/// The value a read of a commitment yields.
pub open spec fn spec_get_commitment(l: Seq<EntryView>, addr: int) -> Result<
    CommitmentView,
    ValidationError,
> {
    match commitment_at(l, addr) {
        Some(c) => Ok(c),
        None => Err(ValidationError::NotFound),
    }
}

/// The value a read of a move yields.
pub open spec fn spec_get_move(l: Seq<EntryView>, addr: int) -> Result<
    MoveView,
    ValidationError,
> {
    match move_at(l, addr) {
        Some(m) => Ok(m),
        None => Err(ValidationError::NotFound),
    }
}

/// Returns the offer stored at an address, or `NotFound` when the address
/// does not hold an offer.
pub fn handle_get_offer(ledger: &Ledger, address: &Address) -> (r: Result<Offer, ValidationError>)
    ensures
        match r {
            Ok(o) => spec_get_offer(ledger@, address@) == Ok::<OfferView, ValidationError>(o@),
            Err(e) => spec_get_offer(ledger@, address@) == Err::<OfferView, ValidationError>(e),
        },
{
    match ledger.entry(address) {
        Some(entry) => match &entry.record {
            Record::OfferRecord(o) => Ok(o.clone()),
            _ => Err(ValidationError::NotFound),
        },
        None => Err(ValidationError::NotFound),
    }
}

/// Returns the commitment stored at an address, or `NotFound`.
pub fn handle_get_commitment(ledger: &Ledger, address: &Address) -> (r: Result<
    Commitment,
    ValidationError,
>)
    ensures
        match r {
            Ok(c) => spec_get_commitment(ledger@, address@) == Ok::<
                CommitmentView,
                ValidationError,
            >(c@),
            Err(e) => spec_get_commitment(ledger@, address@) == Err::<
                CommitmentView,
                ValidationError,
            >(e),
        },
{
    match ledger.entry(address) {
        Some(entry) => match &entry.record {
            Record::CommitmentRecord(c) => Ok(c.clone()),
            _ => Err(ValidationError::NotFound),
        },
        None => Err(ValidationError::NotFound),
    }
}

/// Returns the move stored at an address, or `NotFound`.
pub fn handle_get_move(ledger: &Ledger, address: &Address) -> (r: Result<Move, ValidationError>)
    ensures
        match r {
            Ok(m) => spec_get_move(ledger@, address@) == Ok::<MoveView, ValidationError>(m@),
            Err(e) => spec_get_move(ledger@, address@) == Err::<MoveView, ValidationError>(e),
        },
{
    match ledger.entry(address) {
        Some(entry) => match &entry.record {
            Record::MoveRecord(m) => Ok(m.clone()),
            _ => Err(ValidationError::NotFound),
        },
        None => Err(ValidationError::NotFound),
    }
}

/// Returns the identity that authored the record at an address, resolved
/// from the entry's stored authorship metadata, or `NotFound`.
pub fn get_author(ledger: &Ledger, address: &Address) -> (r: Result<String, ValidationError>)
    ensures
        match r {
            Ok(a) => author_at(ledger@, address@) == Some(a@),
            Err(e) => author_at(ledger@, address@) is None && e == ValidationError::NotFound,
        },
{
    match ledger.entry(address) {
        Some(entry) => Ok(entry.author.clone()),
        None => Err(ValidationError::NotFound),
    }
}

/// Reads are idempotent: any two verdicts of the same read, on one replica
/// or on two replicas holding the same entries, are the same value. This is
/// immediate because a read's result is a function of the ledger's value
/// and the address alone, which the read accessors' contracts pin down.
pub proof fn lemma_idempotent_reads(
    l1: Seq<EntryView>,
    l2: Seq<EntryView>,
    addr: int,
    o1: Result<OfferView, ValidationError>,
    o2: Result<OfferView, ValidationError>,
    c1: Result<CommitmentView, ValidationError>,
    c2: Result<CommitmentView, ValidationError>,
    m1: Result<MoveView, ValidationError>,
    m2: Result<MoveView, ValidationError>,
)
    requires
        l1 == l2,
        o1 == spec_get_offer(l1, addr),
        o2 == spec_get_offer(l2, addr),
        c1 == spec_get_commitment(l1, addr),
        c2 == spec_get_commitment(l2, addr),
        m1 == spec_get_move(l1, addr),
        m2 == spec_get_move(l2, addr),
    ensures
        o1 == o2,
        c1 == c2,
        m1 == m2,
{
}

} // verus!
