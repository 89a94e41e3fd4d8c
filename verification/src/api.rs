use vstd::prelude::*;

verus! {

/// Request to post a new offer.  `rev_tag` is the settlement tag the maker
/// wants counterparties to pay through.
pub struct CreateOfferRequest {
    pub offer_type: String,
    pub amount: i128,
    pub fee: i128,
    pub crypto_type: String,
    pub currency: String,
    pub price_per_unit: i128,
    pub value: i128,
    pub rev_tag: String,
}

/// All numeric fields of an offer request must be non-negative.
pub open spec fn offer_request_valid(r: CreateOfferRequest) -> bool {
    r.amount >= 0 && r.fee >= 0 && r.price_per_unit >= 0 && r.value >= 0
}

/// Request to open a transaction against the offer keyed `offer_id`.
pub struct CreateTransactionRequest {
    pub offer_id: u64,
    pub amount: i128,
    pub crypto_type: String,
    pub price_per_unit: i128,
    pub currency: String,
    pub taker_fee: i128,
    pub maker_fee: i128,
    pub value: i128,
    pub random_title: String,
}

/// All numeric fields of a transaction request must be non-negative.
pub open spec fn transaction_request_valid(r: CreateTransactionRequest) -> bool {
    r.amount >= 0 && r.taker_fee >= 0 && r.maker_fee >= 0 && r.price_per_unit >= 0 && r.value
        >= 0
}

/// Request for the maker-fee aggregate of one offer.
pub struct GetAggregatedFeeRequest {
    pub offer_id: u64,
}

/// The maker-fee aggregate of one offer.
#[derive(Clone, Copy, Debug, PartialEq, Eq, Structural)]
pub struct GetAggregatedFeeResponse {
    pub fee: i128,
}

/// Request to start watching an inbound transfer for confirmation.
pub struct ConfirmDepositRequest {
    pub tx_hash: String,
    pub amount: i128,
}

/// The ledger row a confirmed deposit credited.
#[derive(Clone, Copy, Debug, PartialEq, Eq, Structural)]
pub struct ConfirmDepositResponse {
    pub account_id: u64,
    pub balance: i128,
}

/// Request to withdraw `amount` minor units to `address`.
pub struct WithdrawRequest {
    pub address: String,
    pub amount: i128,
}

/// The spendable balance projected for one account.
#[derive(Clone, Copy, Debug, PartialEq, Eq, Structural)]
pub struct GetBalanceResponse {
    pub balance: i128,
}

/// The platform wallet address deposits should be sent to.
pub struct DepositAddressResponse {
    pub address: String,
}

} // verus!
