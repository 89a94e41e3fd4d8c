use vstd::prelude::*;

use crate::api::{
    offer_request_valid, transaction_request_valid, CreateOfferRequest, CreateTransactionRequest,
    GetAggregatedFeeRequest, GetAggregatedFeeResponse, GetBalanceResponse, WithdrawRequest,
};
use crate::book::{
    account_listing, aggregated_maker_fee, close_all, expire_all, has_matched_tx,
    has_pending, offer_index, open_listing, remaining_capacity, settled_sum, exposure_sum,
    tx_index, Book, Offer, OfferStatus, Transaction, TxStatus,
};
use crate::config::EngineConfig;
use crate::deposit::{
    deposit_index, deposit_step_action, deposit_step_state, ChainObservation, DepositAction,
    DepositAttempt, DepositBook, DepositState,
};
use crate::encoding::{is_tx_hash_literal, parse_tx_hash};
use crate::errors::EngineError;
use crate::ledger::{
    account_index, address_index, apply_ci_credit, apply_op, op_allowed, op_new_balance, Account,
    Ledger, LedgerOp,
};
use crate::withdraw::{
    withdrawal_index, withdrawal_step_action, withdrawal_step_state, WithdrawalAction,
    WithdrawalBook, WithdrawalRequest, WithdrawalStatus,
};

verus! {

/// The settlement and reconciliation engine: the balance ledger, the offer
/// book with its transaction lifecycle, and the deposit and withdrawal
/// reconciliation state, behind one facade.  The surrounding process owns
/// the storage, the identity check and the chain client; it hands every
/// operation an authenticated account key and, for confirmations, what one
/// poll of the chain observed.
pub struct Engine {
    config: EngineConfig,
    ledger: Ledger,
    book: Book,
    deposits: DepositBook,
    withdrawals: WithdrawalBook,
}

/// The ledger rows and the account key allocator are unchanged.
pub open spec fn ledger_unchanged(pre: Engine, post: Engine) -> bool {
    post.spec_accounts() == pre.spec_accounts() && post.spec_next_account_id()
        == pre.spec_next_account_id()
}

/// Offers, transactions and their key allocators are unchanged.
pub open spec fn book_unchanged(pre: Engine, post: Engine) -> bool {
    &&& post.spec_offers() == pre.spec_offers()
    &&& post.spec_transactions() == pre.spec_transactions()
    &&& post.spec_next_offer_id() == pre.spec_next_offer_id()
    &&& post.spec_next_transaction_id() == pre.spec_next_transaction_id()
}

/// The watched deposits are unchanged.
pub open spec fn deposits_unchanged(pre: Engine, post: Engine) -> bool {
    post.spec_deposits() == pre.spec_deposits()
}

/// The withdrawals and their key allocator are unchanged.
pub open spec fn withdrawals_unchanged(pre: Engine, post: Engine) -> bool {
    post.spec_withdrawals() == pre.spec_withdrawals() && post.spec_next_withdrawal_id()
        == pre.spec_next_withdrawal_id()
}

impl Engine {
    pub closed spec fn spec_config(&self) -> EngineConfig {
        self.config
    }

    pub closed spec fn spec_accounts(&self) -> Seq<Account> {
        self.ledger@
    }

    pub closed spec fn spec_next_account_id(&self) -> u64 {
        self.ledger.spec_next_account_id()
    }

    pub closed spec fn spec_offers(&self) -> Seq<Offer> {
        self.book.spec_offers()
    }

    pub closed spec fn spec_transactions(&self) -> Seq<Transaction> {
        self.book.spec_transactions()
    }

    pub closed spec fn spec_next_offer_id(&self) -> u64 {
        self.book.spec_next_offer_id()
    }

    pub closed spec fn spec_next_transaction_id(&self) -> u64 {
        self.book.spec_next_transaction_id()
    }

    pub closed spec fn spec_deposits(&self) -> Seq<DepositAttempt> {
        self.deposits@
    }

    pub closed spec fn spec_withdrawals(&self) -> Seq<WithdrawalRequest> {
        self.withdrawals@
    }

    pub closed spec fn spec_next_withdrawal_id(&self) -> u64 {
        self.withdrawals.spec_next_withdrawal_id()
    }

    /// A fresh engine over the given configuration.
    pub fn new(config: EngineConfig) -> (e: Engine)
        ensures
            e.spec_config() == config,
            e.spec_accounts() == Seq::<Account>::empty(),
            e.spec_offers() == Seq::<Offer>::empty(),
            e.spec_transactions() == Seq::<Transaction>::empty(),
            e.spec_deposits() == Seq::<DepositAttempt>::empty(),
            e.spec_withdrawals() == Seq::<WithdrawalRequest>::empty(),
            e.spec_next_account_id() == 1,
            e.spec_next_offer_id() == 1,
            e.spec_next_transaction_id() == 1,
            e.spec_next_withdrawal_id() == 1,
    {
        Engine {
            config,
            ledger: Ledger::new(),
            book: Book::new(),
            deposits: DepositBook::new(),
            withdrawals: WithdrawalBook::new(),
        }
    }

    /// The engine's configuration.
    pub fn config(&self) -> (c: EngineConfig)
        ensures
            c == self.spec_config(),
    {
        self.config
    }

    /// The account registered under exactly `chain_address`, created with a
    /// zero balance if it is new; returns its key.
    pub fn create_user(&mut self, chain_address: String) -> (r: Result<u64, EngineError>)
        ensures
            final(self).spec_config() == old(self).spec_config(),
            book_unchanged(*old(self), *final(self)),
            deposits_unchanged(*old(self), *final(self)),
            withdrawals_unchanged(*old(self), *final(self)),
            ({
                let i = address_index(old(self).spec_accounts(), chain_address@);
                match r {
                    Ok(id) => {
                        if i >= 0 {
                            &&& ledger_unchanged(*old(self), *final(self))
                            &&& id == old(self).spec_accounts()[i].id
                        } else {
                            &&& id == old(self).spec_next_account_id()
                            &&& final(self).spec_accounts() == old(self).spec_accounts().push(
                                Account { id, chain_address, balance: 0 },
                            )
                            &&& final(self).spec_next_account_id() == old(self).spec_next_account_id() + 1
                        }
                    },
                    Err(e) => e == EngineError::Overflow && i == -1 && old(self).spec_next_account_id() == u64::MAX && ledger_unchanged(
                        *old(self),
                        *final(self),
                    ),
                }
            }),
    {
        self.ledger.ensure_account(chain_address)
    }

    /// Inserts a new open offer owned by `owner_account_id` after the sweep
    /// at time `now`; every numeric field of the request must be
    /// non-negative.
    pub fn create_offer(
        &mut self,
        owner_account_id: u64,
        req: &CreateOfferRequest,
        now: u64,
    ) -> (r: Result<u64, EngineError>)
        ensures
            final(self).spec_config() == old(self).spec_config(),
            ledger_unchanged(*old(self), *final(self)),
            deposits_unchanged(*old(self), *final(self)),
            withdrawals_unchanged(*old(self), *final(self)),
            ({
                let st = expire_all(old(self).spec_transactions(), now);
                let so = close_all(old(self).spec_offers(), st);
                &&& final(self).spec_transactions() == st
                &&& final(self).spec_next_transaction_id() == old(self).spec_next_transaction_id()
                &&& (r is Ok <==> offer_request_valid(*req) && old(self).spec_next_offer_id()
                    < u64::MAX)
                &&& (r == Err::<u64, EngineError>(EngineError::Validation)
                    <==> !offer_request_valid(*req))
                &&& (r == Err::<u64, EngineError>(EngineError::Overflow) <==> offer_request_valid(
                    *req,
                ) && old(self).spec_next_offer_id() == u64::MAX)
                &&& (r matches Ok(id) ==> {
                    &&& id == old(self).spec_next_offer_id()
                    &&& final(self).spec_next_offer_id() == old(self).spec_next_offer_id() + 1
                    &&& final(self).spec_offers() == so.push(
                        Offer {
                            id,
                            owner_account_id,
                            offer_type: req.offer_type,
                            amount: req.amount,
                            fee: req.fee,
                            price_per_unit: req.price_per_unit,
                            value: req.value,
                            currency: req.currency,
                            crypto_type: req.crypto_type,
                            settlement_tag: req.rev_tag,
                            status: OfferStatus::Open,
                        },
                    )
                })
                &&& (r is Err ==> final(self).spec_offers() == so && final(self).spec_next_offer_id() == old(self).spec_next_offer_id())
            }),
    {
        self.book.create_offer(owner_account_id, req, now)
    }

    /// Opens a pending transaction for `taker_account_id` against an open
    /// offer after the sweep at time `now`; it expires after the configured
    /// window.
    pub fn create_transaction(
        &mut self,
        taker_account_id: u64,
        req: &CreateTransactionRequest,
        now: u64,
    ) -> (r: Result<u64, EngineError>)
        requires
            now + old(self).spec_config().spec_expiry_window_secs() <= u64::MAX,
        ensures
            final(self).spec_config() == old(self).spec_config(),
            ledger_unchanged(*old(self), *final(self)),
            deposits_unchanged(*old(self), *final(self)),
            withdrawals_unchanged(*old(self), *final(self)),
            ({
                let st = expire_all(old(self).spec_transactions(), now);
                let so = close_all(old(self).spec_offers(), st);
                let oi = offer_index(so, req.offer_id);
                let available = oi >= 0 && so[oi].status is Open && req.amount + req.taker_fee
                    <= remaining_capacity(so[oi], st);
                &&& final(self).spec_offers() == so
                &&& final(self).spec_next_offer_id() == old(self).spec_next_offer_id()
                &&& (r is Ok <==> transaction_request_valid(*req) && old(self).spec_next_transaction_id() < u64::MAX && available)
                &&& (r == Err::<u64, EngineError>(EngineError::Validation)
                    <==> !transaction_request_valid(*req))
                &&& (r == Err::<u64, EngineError>(EngineError::OfferUnavailable)
                    <==> transaction_request_valid(*req) && old(self).spec_next_transaction_id()
                    < u64::MAX && !available)
                &&& (r matches Ok(id) ==> {
                    &&& id == old(self).spec_next_transaction_id()
                    &&& final(self).spec_next_transaction_id() == old(self).spec_next_transaction_id() + 1
                    &&& final(self).spec_transactions() == st.push(
                        Transaction {
                            id,
                            offer_id: req.offer_id,
                            taker_account_id,
                            amount: req.amount,
                            price_per_unit: req.price_per_unit,
                            taker_fee: req.taker_fee,
                            maker_fee: req.maker_fee,
                            value: req.value,
                            currency: req.currency,
                            crypto_type: req.crypto_type,
                            status: TxStatus::Pending,
                            created_at: now,
                            expires_at: (now + old(self).spec_config().spec_expiry_window_secs()) as u64,
                        },
                    )
                })
                &&& (r is Err ==> final(self).spec_transactions() == st && final(self).spec_next_transaction_id() == old(self).spec_next_transaction_id())
            }),
    {
        let window = self.config.expiry_window_secs();
        self.book.create_transaction(taker_account_id, req, now, window)
    }

    /// The maker-fee aggregate over all non-rejected transactions against
    /// the offer the request names.
    pub fn get_aggregated_fee(&self, req: &GetAggregatedFeeRequest) -> (r: Result<
        GetAggregatedFeeResponse,
        EngineError,
    >)
        ensures
            r is Ok <==> has_matched_tx(self.spec_transactions(), req.offer_id)
                && aggregated_maker_fee(self.spec_transactions(), req.offer_id) <= i128::MAX,
            r matches Ok(resp) ==> resp.fee == aggregated_maker_fee(
                self.spec_transactions(),
                req.offer_id,
            ),
            r == Err::<GetAggregatedFeeResponse, EngineError>(EngineError::NoResult)
                <==> !has_matched_tx(self.spec_transactions(), req.offer_id),
            r == Err::<GetAggregatedFeeResponse, EngineError>(EngineError::Overflow)
                <==> has_matched_tx(self.spec_transactions(), req.offer_id)
                && aggregated_maker_fee(self.spec_transactions(), req.offer_id) > i128::MAX,
    {
        match self.book.aggregate_fee(req.offer_id) {
            Ok(fee) => Ok(GetAggregatedFeeResponse { fee }),
            Err(e) => Err(e),
        }
    }

    /// Every open offer with positive remaining capacity, its `amount`
    /// replaced by that capacity; the sweep runs first.
    pub fn get_offers(&mut self, now: u64) -> (r: Vec<Offer>)
        ensures
            final(self).spec_config() == old(self).spec_config(),
            ledger_unchanged(*old(self), *final(self)),
            deposits_unchanged(*old(self), *final(self)),
            withdrawals_unchanged(*old(self), *final(self)),
            final(self).spec_transactions() == expire_all(old(self).spec_transactions(), now),
            final(self).spec_offers() == close_all(
                old(self).spec_offers(),
                expire_all(old(self).spec_transactions(), now),
            ),
            final(self).spec_next_offer_id() == old(self).spec_next_offer_id(),
            final(self).spec_next_transaction_id() == old(self).spec_next_transaction_id(),
            r@ == open_listing(final(self).spec_offers(), final(self).spec_transactions()),
    {
        self.book.list_open_offers(now)
    }

    /// The account's own offers that are not closed and still have positive
    /// remaining capacity, their `amount` replaced by that capacity.
    pub fn get_user_offers(&self, account_id: u64) -> (r: Vec<Offer>)
        ensures
            r@ == account_listing(self.spec_offers(), self.spec_transactions(), account_id),
    {
        self.book.list_account_offers(account_id)
    }

    /// Marks the offer stopped while a pending transaction stands against
    /// it, otherwise closed; an unknown key changes nothing.
    pub fn delete_offer(&mut self, offer_id: u64)
        ensures
            final(self).spec_config() == old(self).spec_config(),
            ledger_unchanged(*old(self), *final(self)),
            deposits_unchanged(*old(self), *final(self)),
            withdrawals_unchanged(*old(self), *final(self)),
            final(self).spec_transactions() == old(self).spec_transactions(),
            final(self).spec_next_offer_id() == old(self).spec_next_offer_id(),
            final(self).spec_next_transaction_id() == old(self).spec_next_transaction_id(),
            ({
                let i = offer_index(old(self).spec_offers(), offer_id);
                if i >= 0 {
                    final(self).spec_offers() == old(self).spec_offers().update(
                        i,
                        Offer {
                            status: if has_pending(old(self).spec_transactions(), offer_id) {
                                OfferStatus::Stopped
                            } else {
                                OfferStatus::Closed
                            },
                            ..old(self).spec_offers()[i]
                        },
                    )
                } else {
                    final(self).spec_offers() == old(self).spec_offers()
                }
            }),
    {
        self.book.close_or_stop(offer_id)
    }

    /// Resolves the pending transaction keyed `transaction_id` to
    /// successful or rejected; transitions are forward-only.
    pub fn resolve_transaction(&mut self, transaction_id: u64, success: bool) -> (r: Result<
        (),
        EngineError,
    >)
        ensures
            final(self).spec_config() == old(self).spec_config(),
            ledger_unchanged(*old(self), *final(self)),
            deposits_unchanged(*old(self), *final(self)),
            withdrawals_unchanged(*old(self), *final(self)),
            final(self).spec_offers() == old(self).spec_offers(),
            final(self).spec_next_offer_id() == old(self).spec_next_offer_id(),
            final(self).spec_next_transaction_id() == old(self).spec_next_transaction_id(),
            ({
                let i = tx_index(old(self).spec_transactions(), transaction_id);
                match r {
                    Ok(()) => i >= 0 && old(self).spec_transactions()[i].status is Pending
                        && final(self).spec_transactions() == old(self).spec_transactions().update(
                        i,
                        Transaction {
                            status: if success {
                                TxStatus::Successful
                            } else {
                                TxStatus::Rejected
                            },
                            ..old(self).spec_transactions()[i]
                        },
                    ),
                    Err(e) => {
                        &&& e == EngineError::Conflict
                        &&& final(self).spec_transactions() == old(self).spec_transactions()
                        &&& (i == -1 || !(old(self).spec_transactions()[i].status is Pending))
                    },
                }
            }),
    {
        self.book.resolve_transaction(transaction_id, success)
    }

    /// The spendable balance projected for the account: its ledger balance,
    /// minus what its open positions commit, minus what its settled closed
    /// positions cost.
    pub fn get_balance(&self, account_id: u64) -> (r: Result<GetBalanceResponse, EngineError>)
        ensures
            ({
                let i = account_index(self.spec_accounts(), account_id);
                let bal = self.spec_accounts()[i].balance as int;
                let expo = exposure_sum(self.spec_offers(), account_id);
                let settled = settled_sum(
                    self.spec_offers(),
                    self.spec_transactions(),
                    account_id,
                );
                &&& (r is Ok <==> i >= 0 && expo <= i128::MAX && settled <= i128::MAX && bal
                    - expo - settled >= i128::MIN)
                &&& match r {
                    Ok(resp) => resp.balance == bal - expo - settled,
                    Err(e) => {
                        &&& (e == EngineError::Validation <==> i == -1)
                        &&& (e == EngineError::Overflow <==> i >= 0 && (expo > i128::MAX
                            || settled > i128::MAX || bal - expo - settled < i128::MIN))
                    },
                }
            }),
    {
        let bal = match self.ledger.get_balance(account_id) {
            Ok(b) => b,
            Err(e) => {
                return Err(e);
            },
        };
        let expo = match self.book.exposure_amount(account_id) {
            Ok(v) => v,
            Err(e) => {
                return Err(e);
            },
        };
        let settled = match self.book.settled_amount(account_id) {
            Ok(v) => v,
            Err(e) => {
                return Err(e);
            },
        };
        let d1 = bal - expo;
        if d1 < i128::MIN + settled {
            return Err(EngineError::Overflow);
        }
        Ok(GetBalanceResponse { balance: d1 - settled })
    }

    /// Starts watching the inbound transfer the request names for
    /// confirmation.  The hash must be a `0x`-prefixed 64-digit literal;
    /// registering a hash already watched is a lost race and fails with
    /// `Conflict`, so a hash can confirm — and credit — at most once.
    pub fn confirm_deposit(&mut self, req: &crate::api::ConfirmDepositRequest) -> (r: Result<
        (),
        EngineError,
    >)
        ensures
            final(self).spec_config() == old(self).spec_config(),
            ledger_unchanged(*old(self), *final(self)),
            book_unchanged(*old(self), *final(self)),
            withdrawals_unchanged(*old(self), *final(self)),
            ({
                let i = deposit_index(old(self).spec_deposits(), req.tx_hash@);
                &&& (r is Ok <==> is_tx_hash_literal(req.tx_hash@) && i == -1)
                &&& match r {
                    Ok(()) => {
                        final(self).spec_deposits() == old(self).spec_deposits().push(
                            DepositAttempt {
                                tx_hash: req.tx_hash,
                                expected_amount: Some(req.amount),
                                state: DepositState::Watching,
                                attempts_made: 0,
                            },
                        )
                    },
                    Err(e) => {
                        &&& deposits_unchanged(*old(self), *final(self))
                        &&& (e == EngineError::Validation <==> !is_tx_hash_literal(
                            req.tx_hash@,
                        ))
                        &&& (e == EngineError::Conflict <==> is_tx_hash_literal(req.tx_hash@)
                            && i >= 0)
                    },
                }
            }),
    {
        match parse_tx_hash(req.tx_hash.as_str()) {
            None => Err(EngineError::Validation),
            Some(_) => self.deposits.register(req.tx_hash.clone(), req.amount),
        }
    }

    /// The reconciliation state of the deposit watching `tx_hash`, for
    /// status queries.
    pub fn get_deposit_state(&self, tx_hash: &String) -> (r: Option<DepositState>)
        ensures
            ({
                let i = deposit_index(self.spec_deposits(), tx_hash@);
                match r {
                    Some(st) => i >= 0 && st == self.spec_deposits()[i].state,
                    None => i == -1,
                }
            }),
    {
        self.deposits.get_state(tx_hash)
    }

    /// Applies what one poll of the chain observed to the deposit watching
    /// `tx_hash`.  On the step that confirms the attempt, the decoded
    /// sender's account is credited with the unit-scaled amount — and on no
    /// other step, so re-processing the same hash never credits again.  The
    /// returned action tells the poller whether to go on polling.
    pub fn deposit_observation(&mut self, tx_hash: &String, obs: &ChainObservation) -> (r:
        Result<DepositAction, EngineError>)
        ensures
            final(self).spec_config() == old(self).spec_config(),
            book_unchanged(*old(self), *final(self)),
            withdrawals_unchanged(*old(self), *final(self)),
            final(self).spec_next_account_id() == old(self).spec_next_account_id(),
            ({
                let i = deposit_index(old(self).spec_deposits(), tx_hash@);
                match r {
                    Err(e) => {
                        &&& e == EngineError::Validation
                        &&& i == -1
                        &&& deposits_unchanged(*old(self), *final(self))
                        &&& ledger_unchanged(*old(self), *final(self))
                    },
                    Ok(a) => {
                        &&& i >= 0
                        &&& a == deposit_step_action(
                            old(self).spec_deposits()[i],
                            *obs,
                            old(self).spec_config(),
                        )
                        &&& final(self).spec_deposits() == old(self).spec_deposits().update(
                            i,
                            deposit_step_state(
                                old(self).spec_deposits()[i],
                                *obs,
                                old(self).spec_config(),
                            ),
                        )
                        &&& final(self).spec_accounts() == (match a {
                            DepositAction::Credit { sender, amount_minor } => apply_ci_credit(
                                old(self).spec_accounts(),
                                sender@,
                                amount_minor,
                            ),
                            _ => old(self).spec_accounts(),
                        })
                    },
                }
            }),
    {
        let action = match self.deposits.step_observation(tx_hash, obs, &self.config) {
            Err(e) => {
                return Err(e);
            },
            Ok(a) => a,
        };
        if let DepositAction::Credit { sender, amount_minor } = &action {
            let _ = self.ledger.credit_by_address(sender, *amount_minor);
        }
        Ok(action)
    }

    /// Requests a withdrawal for the account: after validation, the amount
    /// is debited — reserved — before anything touches the chain, so the
    /// same funds cannot be withdrawn twice; then the request is recorded as
    /// reserved.  When the balance is short the request is recorded but
    /// stays `Requested` and the caller sees `InsufficientFunds`.
    pub fn withdraw(&mut self, account_id: u64, req: &WithdrawRequest) -> (r: Result<
        u64,
        EngineError,
    >)
        ensures
            final(self).spec_config() == old(self).spec_config(),
            book_unchanged(*old(self), *final(self)),
            deposits_unchanged(*old(self), *final(self)),
            final(self).spec_next_account_id() == old(self).spec_next_account_id(),
            ({
                let i = account_index(old(self).spec_accounts(), account_id);
                let op = LedgerOp { credit: false, account_id, amount: req.amount };
                let record_status = if op_allowed(old(self).spec_accounts(), op) {
                    WithdrawalStatus::Reserved
                } else {
                    WithdrawalStatus::Requested
                };
                let record = WithdrawalRequest {
                    id: old(self).spec_next_withdrawal_id(),
                    account_id,
                    amount: req.amount,
                    destination_address: req.address,
                    status: record_status,
                    attempts_made: 0,
                };
                &&& (r == Err::<u64, EngineError>(EngineError::Validation) <==> (req.amount < 0
                    || i == -1))
                &&& (r == Err::<u64, EngineError>(EngineError::Overflow) <==> (req.amount >= 0
                    && i >= 0 && old(self).spec_next_withdrawal_id() == u64::MAX))
                &&& (r is Err && !(r == Err::<u64, EngineError>(
                    EngineError::InsufficientFunds,
                )) ==> ledger_unchanged(*old(self), *final(self)) && withdrawals_unchanged(
                    *old(self),
                    *final(self),
                ))
                &&& (r == Err::<u64, EngineError>(EngineError::InsufficientFunds) <==> (
                req.amount >= 0 && i >= 0 && old(self).spec_next_withdrawal_id() < u64::MAX
                    && old(self).spec_accounts()[i].balance < req.amount))
                &&& (r == Err::<u64, EngineError>(EngineError::InsufficientFunds) ==> {
                    &&& ledger_unchanged(*old(self), *final(self))
                    &&& final(self).spec_withdrawals() == old(self).spec_withdrawals().push(
                        record,
                    )
                    &&& final(self).spec_next_withdrawal_id() == old(
                        self,
                    ).spec_next_withdrawal_id() + 1
                })
                &&& (r is Ok <==> (req.amount >= 0 && i >= 0 && old(
                    self,
                ).spec_next_withdrawal_id() < u64::MAX && old(self).spec_accounts()[i].balance
                    >= req.amount))
                &&& (r matches Ok(id) ==> {
                    &&& id == old(self).spec_next_withdrawal_id()
                    &&& final(self).spec_accounts() == apply_op(old(self).spec_accounts(), op)
                    &&& final(self).spec_withdrawals() == old(self).spec_withdrawals().push(
                        record,
                    )
                    &&& final(self).spec_next_withdrawal_id() == old(
                        self,
                    ).spec_next_withdrawal_id() + 1
                })
            }),
    {
        if req.amount < 0 {
            return Err(EngineError::Validation);
        }
        match self.ledger.get_balance(account_id) {
            Err(_) => {
                return Err(EngineError::Validation);
            },
            Ok(_) => {},
        }
        if !self.withdrawals.can_allocate() {
            return Err(EngineError::Overflow);
        }
        match self.ledger.debit(account_id, req.amount) {
            Ok(_) => {
                match self.withdrawals.create(
                    account_id,
                    req.amount,
                    req.address.clone(),
                    WithdrawalStatus::Reserved,
                ) {
                    Ok(id) => Ok(id),
                    Err(e) => Err(e),
                }
            },
            Err(EngineError::InsufficientFunds) => {
                let _ = self.withdrawals.create(
                    account_id,
                    req.amount,
                    req.address.clone(),
                    WithdrawalStatus::Requested,
                );
                Err(EngineError::InsufficientFunds)
            },
            Err(e) => Err(e),
        }
    }

    /// Records that the outbound transfer for the reserved withdrawal was
    /// submitted to the chain; any other current status is a lost race.
    pub fn withdrawal_submitted(&mut self, id: u64) -> (r: Result<(), EngineError>)
        ensures
            final(self).spec_config() == old(self).spec_config(),
            ledger_unchanged(*old(self), *final(self)),
            book_unchanged(*old(self), *final(self)),
            deposits_unchanged(*old(self), *final(self)),
            final(self).spec_next_withdrawal_id() == old(self).spec_next_withdrawal_id(),
            ({
                let i = withdrawal_index(old(self).spec_withdrawals(), id);
                match r {
                    Ok(()) => i >= 0 && old(self).spec_withdrawals()[i].status is Reserved
                        && final(self).spec_withdrawals() == old(
                        self,
                    ).spec_withdrawals().update(
                        i,
                        WithdrawalRequest {
                            status: WithdrawalStatus::Submitted,
                            ..old(self).spec_withdrawals()[i]
                        },
                    ),
                    Err(e) => e == EngineError::Conflict && final(self).spec_withdrawals()
                        == old(self).spec_withdrawals() && (i == -1 || !(old(
                        self,
                    ).spec_withdrawals()[i].status is Reserved)),
                }
            }),
    {
        self.withdrawals.transition(id, WithdrawalStatus::Reserved, WithdrawalStatus::Submitted)
    }

    /// Records that signing, estimation or submission failed for the
    /// reserved withdrawal: the request ends `Failed` and the debited amount
    /// is credited back — the compensating action is mandatory because the
    /// debit already happened.  Returns the refunded account's new balance.
    pub fn withdrawal_submission_failed(&mut self, id: u64) -> (r: Result<i128, EngineError>)
        ensures
            final(self).spec_config() == old(self).spec_config(),
            book_unchanged(*old(self), *final(self)),
            deposits_unchanged(*old(self), *final(self)),
            final(self).spec_next_account_id() == old(self).spec_next_account_id(),
            final(self).spec_next_withdrawal_id() == old(self).spec_next_withdrawal_id(),
            ({
                let i = withdrawal_index(old(self).spec_withdrawals(), id);
                let w = old(self).spec_withdrawals()[i];
                let op = LedgerOp { credit: true, account_id: w.account_id, amount: w.amount };
                if i == -1 || !(w.status is Reserved) {
                    &&& r == Err::<i128, EngineError>(EngineError::Conflict)
                    &&& ledger_unchanged(*old(self), *final(self))
                    &&& withdrawals_unchanged(*old(self), *final(self))
                } else {
                    &&& final(self).spec_withdrawals() == old(self).spec_withdrawals().update(
                        i,
                        WithdrawalRequest { status: WithdrawalStatus::Failed, ..w },
                    )
                    &&& final(self).spec_accounts() == apply_op(old(self).spec_accounts(), op)
                    &&& (r is Ok <==> op_allowed(old(self).spec_accounts(), op))
                    &&& (r matches Ok(b) ==> b == op_new_balance(old(self).spec_accounts(), op))
                    &&& ({
                        let ai = account_index(old(self).spec_accounts(), w.account_id);
                        &&& (r == Err::<i128, EngineError>(EngineError::Validation) <==> (
                        w.amount < 0 || ai == -1))
                        &&& (r == Err::<i128, EngineError>(EngineError::Overflow) <==> (w.amount
                            >= 0 && ai >= 0 && old(self).spec_accounts()[ai].balance + w.amount
                            > i128::MAX))
                    })
                }
            }),
    {
        let (account_id, amount) = match self.withdrawals.get_request(id) {
            None => {
                return Err(EngineError::Conflict);
            },
            Some(p) => p,
        };
        match self.withdrawals.transition(
            id,
            WithdrawalStatus::Reserved,
            WithdrawalStatus::Failed,
        ) {
            Err(e) => {
                return Err(e);
            },
            Ok(()) => {},
        }
        self.ledger.credit(account_id, amount)
    }

    /// Applies what one poll of the chain observed to the submitted
    /// withdrawal keyed `id`.  On confirmation nothing further touches the
    /// ledger — the debit from reservation stands; on exhaustion the funds
    /// also stay debited, for manual reconciliation.
    pub fn withdrawal_observation(&mut self, id: u64, obs: &ChainObservation) -> (r: Result<
        WithdrawalAction,
        EngineError,
    >)
        ensures
            final(self).spec_config() == old(self).spec_config(),
            ledger_unchanged(*old(self), *final(self)),
            book_unchanged(*old(self), *final(self)),
            deposits_unchanged(*old(self), *final(self)),
            final(self).spec_next_withdrawal_id() == old(self).spec_next_withdrawal_id(),
            ({
                let i = withdrawal_index(old(self).spec_withdrawals(), id);
                match r {
                    Err(e) => e == EngineError::Validation && i == -1
                        && withdrawals_unchanged(*old(self), *final(self)),
                    Ok(a) => i >= 0 && a == withdrawal_step_action(
                        old(self).spec_withdrawals()[i],
                        *obs,
                        old(self).spec_config(),
                    ) && final(self).spec_withdrawals() == old(self).spec_withdrawals().update(
                        i,
                        withdrawal_step_state(
                            old(self).spec_withdrawals()[i],
                            *obs,
                            old(self).spec_config(),
                        ),
                    ),
                }
            }),
    {
        self.withdrawals.step_observation(id, obs, &self.config)
    }

    /// The status of the offer keyed `id`, for status queries.
    pub fn get_offer_status(&self, id: u64) -> (r: Option<OfferStatus>)
        ensures
            ({
                let i = offer_index(self.spec_offers(), id);
                match r {
                    Some(st) => i >= 0 && st == self.spec_offers()[i].status,
                    None => i == -1,
                }
            }),
    {
        self.book.get_offer_status(id)
    }

    /// The status of the transaction keyed `id`, for status queries.
    pub fn get_transaction_status(&self, id: u64) -> (r: Option<TxStatus>)
        ensures
            ({
                let i = tx_index(self.spec_transactions(), id);
                match r {
                    Some(st) => i >= 0 && st == self.spec_transactions()[i].status,
                    None => i == -1,
                }
            }),
    {
        self.book.get_transaction_status(id)
    }

    /// The status of the withdrawal keyed `id`, for status queries.
    pub fn get_withdrawal_status(&self, id: u64) -> (r: Option<WithdrawalStatus>)
        ensures
            ({
                let i = withdrawal_index(self.spec_withdrawals(), id);
                match r {
                    Some(st) => i >= 0 && st == self.spec_withdrawals()[i].status,
                    None => i == -1,
                }
            }),
    {
        self.withdrawals.get_status(id)
    }
}

} // verus!
