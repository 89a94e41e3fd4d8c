use vstd::prelude::*;

verus! {

/// Error taxonomy of the settlement engine.
///
/// Synchronous operations report a definite error from this set; background
/// confirmation failures are recorded on the deposit or withdrawal record and
/// surfaced through a status query.
#[derive(Clone, Copy, Debug, PartialEq, Eq, Structural)]
pub enum EngineError {
    /// A bad amount or address in a request; reported to the caller, not retried.
    Validation,
    /// A debit found less balance than it needed; reported, not retried.
    InsufficientFunds,
    /// The target offer is missing, not open, or lacks remaining capacity.
    OfferUnavailable,
    /// An aggregation found nothing to aggregate.
    NoResult,
    /// A concurrent status mutation lost a race, such as registering the same
    /// deposit hash twice; safe to retry the triggering sweep.
    Conflict,
    /// A transient chain-client failure during polling; retried up to the
    /// attempt budget.
    ChainTransient,
    /// The expected transfer event was absent from a deep-enough receipt;
    /// permanent.
    EventNotEmitted,
    /// A receipt lacked the fields confirmation needs; permanent.
    MalformedReceipt,
    /// The attempt budget ran out without a deep-enough receipt.
    ConfirmationTimeout,
    /// The transactional store failed; fatal to the current operation.
    StoreUnavailable,
    /// A ledger amount or aggregate left the machine-representable range.
    Overflow,
}

} // verus!
