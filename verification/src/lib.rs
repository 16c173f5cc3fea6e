//! A commit-reveal game protocol over an append-only, content-addressed ledger.
//!
//! Two mutually distrusting players play a move-based game (rock/paper/scissors
//! generalized to an arbitrary "beats" relation) with no trusted arbiter: the
//! challenger first publishes a hash commitment binding a hidden move, the host
//! then publishes their move in the open, and the challenger finally reveals.
//! Every ledger participant independently re-validates each record from the
//! records it references, so a game's outcome can be checked by any observer.

use vstd::prelude::*;

pub mod commit;
pub mod ledger;
pub mod protocol;
pub mod resolve;
pub mod types;
pub mod validate;

verus! {

/// The fixed length of a freshly generated commitment nonce.
pub const NONCE_LEN: usize = 24;

} // verus!
