//! Why a request was turned down.

use vstd::prelude::*;

verus! {

/// The reasons for which the ledger rejects a request. A rejected request
/// never changes any record.
#[derive(Clone, Copy, Debug, PartialEq, Eq, Structural)]
pub enum ErrorCode {
    /// The wallet already owns a record.
    AlreadyExists,
    /// The wallet owns no record.
    NotFound,
    /// The signer is not the owner of the record.
    Unauthorized,
    /// A counter would leave the range of `u64`.
    Overflow,
    /// The score lies above [`crate::account::MAX_SCORE`].
    InvalidInput,
}

} // verus!
