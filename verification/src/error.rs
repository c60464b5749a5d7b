use vstd::prelude::*;

verus! {

/// Why a call was rejected. Every rejection leaves the state it was given untouched.
#[derive(Clone, Copy, Debug, PartialEq, Eq, Structural)]
pub enum FaucetError {
    /// No bump seed yields an address off the curve for the given seeds.
    DerivationFailure,
    /// The authority record of the ticker is already initialized.
    AlreadyInitialized,
    /// The destination account holds another asset than the authority's mint.
    AssetMismatch,
    /// The authority record was never initialized.
    NotInitialized,
    /// Supply or balance would leave the range of 64 bits.
    NumericOverflow,
    /// A payload that is no encoding of an operation.
    MalformedPayload,
    /// The normalized ticker does not fit the record's ticker buffer.
    TickerTooLong,
    /// An account presented to the call is not the one that the ticker and its records name.
    AccountMismatch,
}

} // verus!
