use vstd::prelude::*;

use crate::api::{
    offer_request_valid, transaction_request_valid, CreateOfferRequest, CreateTransactionRequest,
};
use crate::errors::EngineError;
use crate::util::{
    first_where, lemma_first_where, lemma_first_where_is, lemma_sum_of_map_values,
    lemma_sum_of_nonneg, lemma_sum_of_pointwise_le, lemma_sum_of_push, lemma_sum_of_take_le,
    lemma_sum_of_take_step, lemma_sum_of_zero, sum_of,
};

verus! {

/// Lifecycle of an offer: open to new matches, stopped (capacity frozen,
/// existing pending transactions still resolve), or closed.
#[derive(Clone, Copy, Debug, PartialEq, Eq, Structural)]
pub enum OfferStatus {
    Open,
    Stopped,
    Closed,
}

/// Lifecycle of a transaction; transitions are forward-only, from `Pending`
/// to exactly one of `Successful` or `Rejected`.
#[derive(Clone, Copy, Debug, PartialEq, Eq, Structural)]
pub enum TxStatus {
    Pending,
    Successful,
    Rejected,
}

/// A standing intent to buy or sell a fixed amount at a fixed price.
/// `settlement_tag` is the tag counterparties settle fiat through.
pub struct Offer {
    pub id: u64,
    pub owner_account_id: u64,
    pub offer_type: String,
    pub amount: i128,
    pub fee: i128,
    pub price_per_unit: i128,
    pub value: i128,
    pub currency: String,
    pub crypto_type: String,
    pub settlement_tag: String,
    pub status: OfferStatus,
}

/// A specific match against an offer, pending until it settles or times out.
pub struct Transaction {
    pub id: u64,
    pub offer_id: u64,
    pub taker_account_id: u64,
    pub amount: i128,
    pub price_per_unit: i128,
    pub taker_fee: i128,
    pub maker_fee: i128,
    pub value: i128,
    pub currency: String,
    pub crypto_type: String,
    pub status: TxStatus,
    pub created_at: u64,
    pub expires_at: u64,
}

/// Index of the offer keyed `id`, or `-1`.
pub open spec fn offer_index(offers: Seq<Offer>, id: u64) -> int {
    first_where(offers, |o: Offer| o.id == id)
}

/// Index of the transaction keyed `id`, or `-1`.
pub open spec fn tx_index(txs: Seq<Transaction>, id: u64) -> int {
    first_where(txs, |t: Transaction| t.id == id)
}

/// Whether `t` counts against the capacity of the offer keyed `offer_id`:
/// rejected transactions count as if they never existed.
pub open spec fn tx_counts_against(t: Transaction, offer_id: u64) -> bool {
    t.offer_id == offer_id && !(t.status is Rejected)
}

/// Capacity contribution of one transaction to the offer keyed `offer_id`.
pub open spec fn tx_commitment(offer_id: u64) -> spec_fn(Transaction) -> int {
    |t: Transaction|
        if tx_counts_against(t, offer_id) {
            t.amount + t.taker_fee
        } else {
            0
        }
}

/// Capacity already committed against the offer keyed `offer_id`: the sum of
/// `amount + taker_fee` over its non-rejected transactions.
pub open spec fn committed(txs: Seq<Transaction>, offer_id: u64) -> int {
    sum_of(txs, tx_commitment(offer_id))
}

/// Remaining capacity of an offer: its amount minus what non-rejected
/// transactions have committed against it.
pub open spec fn remaining_capacity(o: Offer, txs: Seq<Transaction>) -> int {
    o.amount - committed(txs, o.id)
}

/// Contribution of one transaction to the maker-fee aggregate of the offer
/// keyed `offer_id`.
pub open spec fn tx_maker_fee(offer_id: u64) -> spec_fn(Transaction) -> int {
    |t: Transaction|
        if tx_counts_against(t, offer_id) {
            t.maker_fee as int
        } else {
            0
        }
}

/// The maker-fee aggregate of the offer keyed `offer_id`: the sum of
/// `maker_fee` over its non-rejected transactions.
pub open spec fn aggregated_maker_fee(txs: Seq<Transaction>, offer_id: u64) -> int {
    sum_of(txs, tx_maker_fee(offer_id))
}

/// Whether any non-rejected transaction is matched against the offer keyed
/// `offer_id`.
pub open spec fn has_matched_tx(txs: Seq<Transaction>, offer_id: u64) -> bool {
    exists|i: int| 0 <= i < txs.len() && tx_counts_against(#[trigger] txs[i], offer_id)
}

/// Whether `t` has outlived `expires_at` while still pending.
pub open spec fn tx_expired(t: Transaction, now: u64) -> bool {
    t.status is Pending && t.expires_at < now
}

/// The expiry step of the sweep on one transaction.
pub open spec fn expire_tx(t: Transaction, now: u64) -> Transaction {
    if tx_expired(t, now) {
        Transaction { status: TxStatus::Rejected, ..t }
    } else {
        t
    }
}

/// All transactions after the expiry phase of a sweep at time `now`.
pub open spec fn expire_all(txs: Seq<Transaction>, now: u64) -> Seq<Transaction> {
    txs.map_values(|t: Transaction| expire_tx(t, now))
}

/// Whether any pending transaction stands against the offer keyed `offer_id`.
pub open spec fn has_pending(txs: Seq<Transaction>, offer_id: u64) -> bool {
    exists|i: int|
        0 <= i < txs.len() && (#[trigger] txs[i]).offer_id == offer_id && txs[i].status
            is Pending
}

/// The closure step of the sweep on one offer: a stopped offer with no
/// pending transaction left becomes closed.
pub open spec fn close_offer(o: Offer, txs: Seq<Transaction>) -> Offer {
    if o.status is Stopped && !has_pending(txs, o.id) {
        Offer { status: OfferStatus::Closed, ..o }
    } else {
        o
    }
}

/// All offers after the closure phase of a sweep over transactions `txs`.
pub open spec fn close_all(offers: Seq<Offer>, txs: Seq<Transaction>) -> Seq<Offer> {
    offers.map_values(|o: Offer| close_offer(o, txs))
}

/// Validity of the offer table: unique keys below the allocator mark and
/// non-negative numeric fields.
pub open spec fn offers_wf(offers: Seq<Offer>, next_offer_id: u64) -> bool {
    &&& forall|i: int| 0 <= i < offers.len() ==> (#[trigger] offers[i]).id < next_offer_id
    &&& forall|i: int, j: int|
        0 <= i < j < offers.len() ==> (#[trigger] offers[i]).id != (#[trigger] offers[j]).id
    &&& forall|i: int|
        0 <= i < offers.len() ==> (#[trigger] offers[i]).amount >= 0 && offers[i].fee >= 0
            && offers[i].price_per_unit >= 0 && offers[i].value >= 0
}

/// Validity of the transaction table: unique keys below the allocator mark,
/// non-negative numeric fields, and offer references below the offer mark.
pub open spec fn txs_wf(txs: Seq<Transaction>, next_tx_id: u64, next_offer_id: u64) -> bool {
    &&& forall|i: int| 0 <= i < txs.len() ==> (#[trigger] txs[i]).id < next_tx_id
    &&& forall|i: int, j: int|
        0 <= i < j < txs.len() ==> (#[trigger] txs[i]).id != (#[trigger] txs[j]).id
    &&& forall|i: int|
        0 <= i < txs.len() ==> (#[trigger] txs[i]).amount >= 0 && txs[i].taker_fee >= 0
            && txs[i].maker_fee >= 0 && txs[i].price_per_unit >= 0 && txs[i].value >= 0
    &&& forall|i: int| 0 <= i < txs.len() ==> (#[trigger] txs[i]).offer_id < next_offer_id
}

/// No offer is ever committed past its amount.
pub open spec fn capacity_wf(offers: Seq<Offer>, txs: Seq<Transaction>) -> bool {
    forall|i: int|
        0 <= i < offers.len() ==> committed(txs, (#[trigger] offers[i]).id) <= offers[i].amount
}

/// Validity of a whole book snapshot.
pub open spec fn book_wf(
    offers: Seq<Offer>,
    txs: Seq<Transaction>,
    next_offer_id: u64,
    next_tx_id: u64,
) -> bool {
    &&& offers_wf(offers, next_offer_id)
    &&& txs_wf(txs, next_tx_id, next_offer_id)
    &&& capacity_wf(offers, txs)
}

/// An open offer of a well-formed book still has non-negative remaining
/// capacity — committed transactions never exceed the offered amount.
pub proof fn lemma_capacity_nonnegative(
    offers: Seq<Offer>,
    txs: Seq<Transaction>,
    next_offer_id: u64,
    next_tx_id: u64,
    i: int,
)
    requires
        book_wf(offers, txs, next_offer_id, next_tx_id),
        0 <= i < offers.len(),
    ensures
        remaining_capacity(offers[i], txs) >= 0,
{
}

/// After the sweep at time `now`, every transaction that was pending past
/// its expiry is rejected, and every offer's remaining capacity counts the
/// expired ones as if they never existed: what stays committed is exactly
/// the contribution of the transactions that were neither rejected before
/// nor expired now.
pub proof fn lemma_sweep_expires_and_frees_capacity(txs: Seq<Transaction>, now: u64, o: Offer)
    ensures
        forall|i: int|
            0 <= i < txs.len() && tx_expired(#[trigger] txs[i], now) ==> (expire_all(
                txs,
                now,
            )[i].status is Rejected),
        remaining_capacity(o, expire_all(txs, now)) == o.amount - sum_of(
            txs,
            |t: Transaction|
                if tx_counts_against(t, o.id) && !tx_expired(t, now) {
                    t.amount + t.taker_fee
                } else {
                    0
                },
        ),
{
    let g = |t: Transaction| expire_tx(t, now);
    let h = |t: Transaction|
        if tx_counts_against(t, o.id) && !tx_expired(t, now) {
            t.amount + t.taker_fee
        } else {
            0
        };
    lemma_sum_of_map_values(txs, g, tx_commitment(o.id), h);
}

/// A stopped offer becomes closed exactly when no pending transaction is
/// left against it after the expiry phase, and never earlier: with a pending
/// transaction still unresolved it stays stopped.
pub proof fn lemma_stopped_closes_exactly_without_pending(
    offers: Seq<Offer>,
    txs: Seq<Transaction>,
    now: u64,
    i: int,
)
    requires
        0 <= i < offers.len(),
        offers[i].status is Stopped,
    ensures
        close_all(offers, expire_all(txs, now))[i].status is Closed <==> !has_pending(
            expire_all(txs, now),
            offers[i].id,
        ),
        close_all(offers, expire_all(txs, now))[i].status is Stopped <==> has_pending(
            expire_all(txs, now),
            offers[i].id,
        ),
{
}

/// Index of the offer keyed `offer_id`, if any.
fn find_offer(offers: &Vec<Offer>, offer_id: u64) -> (r: Option<usize>)
    ensures
        match r {
            Some(i) => i == offer_index(offers@, offer_id) && i < offers@.len(),
            None => offer_index(offers@, offer_id) == -1,
        },
{
    let ghost p = |o: Offer| o.id == offer_id;
    let n = offers.len();
    for i in 0..n
        invariant
            forall|j: int| 0 <= j < i ==> !p(#[trigger] offers@[j]),
    {
        if offers[i].id == offer_id {
            proof {
                lemma_first_where_is(offers@, p, i as int);
            }
            return Some(i);
        }
    }
    proof {
        lemma_first_where(offers@, p);
    }
    None
}

/// Index of the transaction keyed `id`, if any.
fn find_tx(txs: &Vec<Transaction>, id: u64) -> (r: Option<usize>)
    ensures
        match r {
            Some(i) => i == tx_index(txs@, id) && i < txs@.len(),
            None => tx_index(txs@, id) == -1,
        },
{
    let ghost p = |t: Transaction| t.id == id;
    let n = txs.len();
    for i in 0..n
        invariant
            forall|j: int| 0 <= j < i ==> !p(#[trigger] txs@[j]),
    {
        if txs[i].id == id {
            proof {
                lemma_first_where_is(txs@, p, i as int);
            }
            return Some(i);
        }
    }
    proof {
        lemma_first_where(txs@, p);
    }
    None
}

/// Whether any pending transaction stands against the offer keyed
/// `offer_id`.
fn any_pending(txs: &Vec<Transaction>, offer_id: u64) -> (r: bool)
    ensures
        r == has_pending(txs@, offer_id),
{
    let n = txs.len();
    for i in 0..n
        invariant
            forall|j: int|
                0 <= j < i ==> !((#[trigger] txs@[j]).offer_id == offer_id && txs@[j].status
                    is Pending),
    {
        if txs[i].offer_id == offer_id && txs[i].status == TxStatus::Pending {
            assert(has_pending(txs@, offer_id)) by {
                assert((#[trigger] txs@[i as int]).offer_id == offer_id && txs@[i as int].status
                    is Pending);
            }
            return true;
        }
    }
    false
}

/// Capacity committed against the offer keyed `offer_id`.
fn committed_amount(txs: &Vec<Transaction>, offer_id: u64) -> (c: i128)
    requires
        committed(txs@, offer_id) <= i128::MAX,
        forall|k: int|
            0 <= k < txs@.len() ==> (#[trigger] txs@[k]).amount >= 0 && txs@[k].taker_fee >= 0,
    ensures
        c == committed(txs@, offer_id),
{
    let ghost f = tx_commitment(offer_id);
    proof {
        assert forall|k: int| 0 <= k < txs@.len() implies f(#[trigger] txs@[k]) >= 0 by {}
    }
    let n = txs.len();
    let mut acc: i128 = 0;
    for i in 0..n
        invariant
            acc == sum_of(txs@.take(i as int), f),
            0 <= acc,
    {
        proof {
            lemma_sum_of_take_step(txs@, f, i as int);
            lemma_sum_of_take_le(txs@, f, i as int + 1);
            lemma_sum_of_nonneg(txs@.take(i as int), f);
        }
        if txs[i].offer_id == offer_id && !(txs[i].status == TxStatus::Rejected) {
            acc = acc + txs[i].amount + txs[i].taker_fee;
        }
    }
    proof {
        assert(txs@.take(n as int) =~= txs@);
    }
    acc
}

/// The offer book and transaction lifecycle: offers, the transactions
/// matched against them, and the lazy sweep that expires stale transactions
/// and closes emptied offers on every mutation.
pub struct Book {
    offers: Vec<Offer>,
    transactions: Vec<Transaction>,
    next_offer_id: u64,
    next_transaction_id: u64,
}

impl Book {
    #[verifier::type_invariant]
    pub closed spec fn wf(&self) -> bool {
        book_wf(self.offers@, self.transactions@, self.next_offer_id, self.next_transaction_id)
    }

    pub closed spec fn spec_offers(&self) -> Seq<Offer> {
        self.offers@
    }

    pub closed spec fn spec_transactions(&self) -> Seq<Transaction> {
        self.transactions@
    }

    pub closed spec fn spec_next_offer_id(&self) -> u64 {
        self.next_offer_id
    }

    pub closed spec fn spec_next_transaction_id(&self) -> u64 {
        self.next_transaction_id
    }

    /// An empty book.
    pub fn new() -> (b: Book)
        ensures
            b.spec_offers() == Seq::<Offer>::empty(),
            b.spec_transactions() == Seq::<Transaction>::empty(),
            b.spec_next_offer_id() == 1,
            b.spec_next_transaction_id() == 1,
    {
        Book { offers: Vec::new(), transactions: Vec::new(), next_offer_id: 1, next_transaction_id: 1 }
    }

    /// The lazy sweep: reject every pending transaction past its expiry,
    /// then close every stopped offer left with no pending transaction.
    pub fn sweep(&mut self, now: u64)
        ensures
            final(self).spec_transactions() == expire_all(old(self).spec_transactions(), now),
            final(self).spec_offers() == close_all(
                old(self).spec_offers(),
                expire_all(old(self).spec_transactions(), now),
            ),
            final(self).spec_next_offer_id() == old(self).spec_next_offer_id(),
            final(self).spec_next_transaction_id() == old(self).spec_next_transaction_id(),
            book_wf(
                final(self).spec_offers(),
                final(self).spec_transactions(),
                final(self).spec_next_offer_id(),
                final(self).spec_next_transaction_id(),
            ),
    {
        proof {
            use_type_invariant(&*self);
        }
        let ghost o0 = self.offers@;
        let ghost t0 = self.transactions@;
        proof {
            assert forall|i: int| 0 <= i < o0.len() implies committed(
                Seq::<Transaction>::empty(),
                (#[trigger] o0[i]).id,
            ) <= o0[i].amount by {
                assert(committed(Seq::<Transaction>::empty(), o0[i].id) == 0);
            }
        }
        let mut txs: Vec<Transaction> = Vec::new();
        std::mem::swap(&mut txs, &mut self.transactions);
        let n = txs.len();
        for i in 0..n
            invariant
                txs@.len() == n,
                n == t0.len(),
                forall|k: int| 0 <= k < i ==> txs@[k] == expire_tx(#[trigger] t0[k], now),
                forall|k: int| i <= k < n ==> txs@[k] == #[trigger] t0[k],
        {
            if txs[i].status == TxStatus::Pending && txs[i].expires_at < now {
                txs[i].status = TxStatus::Rejected;
                proof {
                    assert(txs@[i as int] == expire_tx(t0[i as int], now));
                }
            }
        }
        proof {
            assert(txs@ =~= expire_all(t0, now));
            assert forall|i: int| 0 <= i < o0.len() implies committed(
                txs@,
                (#[trigger] o0[i]).id,
            ) <= o0[i].amount by {
                lemma_sum_of_pointwise_le(txs@, t0, tx_commitment(o0[i].id));
            }
        }
        self.transactions = txs;
        let mut offers: Vec<Offer> = Vec::new();
        std::mem::swap(&mut offers, &mut self.offers);
        let m = offers.len();
        for i in 0..m
            invariant
                offers@.len() == m,
                m == o0.len(),
                self.transactions@ == expire_all(t0, now),
                forall|k: int|
                    0 <= k < i ==> offers@[k] == close_offer(
                        #[trigger] o0[k],
                        expire_all(t0, now),
                    ),
                forall|k: int| i <= k < m ==> offers@[k] == #[trigger] o0[k],
        {
            if offers[i].status == OfferStatus::Stopped {
                if !any_pending(&self.transactions, offers[i].id) {
                    offers[i].status = OfferStatus::Closed;
                }
            }
            proof {
                assert(offers@[i as int] == close_offer(o0[i as int], expire_all(t0, now)));
            }
        }
        proof {
            assert(offers@ =~= close_all(o0, expire_all(t0, now)));
            assert forall|i: int| 0 <= i < offers@.len() implies committed(
                self.transactions@,
                (#[trigger] offers@[i]).id,
            ) <= offers@[i].amount by {
                assert(offers@[i].id == o0[i].id && offers@[i].amount == o0[i].amount);
            }
        }
        self.offers = offers;
    }

    /// Inserts a new open offer after the sweep, validating that every
    /// numeric field is non-negative; returns the new offer's key.
    pub fn create_offer(
        &mut self,
        owner_account_id: u64,
        req: &CreateOfferRequest,
        now: u64,
    ) -> (r: Result<u64, EngineError>)
        ensures
            ({
                let st = expire_all(old(self).spec_transactions(), now);
                let so = close_all(old(self).spec_offers(), st);
                &&& final(self).spec_transactions() == st
                &&& final(self).spec_next_transaction_id() == old(self).spec_next_transaction_id()
                &&& (r is Ok <==> offer_request_valid(*req) && old(self).spec_next_offer_id()
                    < u64::MAX)
                &&& (r == Err::<u64, EngineError>(EngineError::Validation) <==> !offer_request_valid(
                    *req,
                ))
                &&& (r == Err::<u64, EngineError>(EngineError::Overflow) <==> offer_request_valid(
                    *req,
                ) && old(self).spec_next_offer_id() == u64::MAX)
                &&& (r matches Ok(id) ==> {
                    &&& id == old(self).spec_next_offer_id()
                    &&& final(self).spec_next_offer_id() == old(self).spec_next_offer_id() + 1
                    &&& final(self).spec_offers() == so.push(
                        Offer {
                            id,
                            owner_account_id,
                            offer_type: req.offer_type,
                            amount: req.amount,
                            fee: req.fee,
                            price_per_unit: req.price_per_unit,
                            value: req.value,
                            currency: req.currency,
                            crypto_type: req.crypto_type,
                            settlement_tag: req.rev_tag,
                            status: OfferStatus::Open,
                        },
                    )
                })
                &&& (r is Err ==> final(self).spec_offers() == so && final(self).spec_next_offer_id() == old(self).spec_next_offer_id())
            }),
    {
        self.sweep(now);
        if !(req.amount >= 0 && req.fee >= 0 && req.price_per_unit >= 0 && req.value >= 0) {
            return Err(EngineError::Validation);
        }
        if self.next_offer_id == u64::MAX {
            return Err(EngineError::Overflow);
        }
        proof {
            use_type_invariant(&*self);
        }
        let id = self.next_offer_id;
        let offer = Offer {
            id,
            owner_account_id,
            offer_type: req.offer_type.clone(),
            amount: req.amount,
            fee: req.fee,
            price_per_unit: req.price_per_unit,
            value: req.value,
            currency: req.currency.clone(),
            crypto_type: req.crypto_type.clone(),
            settlement_tag: req.rev_tag.clone(),
            status: OfferStatus::Open,
        };
        let ghost o1 = self.offers@;
        let mut offers: Vec<Offer> = Vec::new();
        std::mem::swap(&mut offers, &mut self.offers);
        offers.push(offer);
        proof {
            lemma_sum_of_zero(self.transactions@, tx_commitment(id));
            assert(committed(self.transactions@, id) == 0);
            assert forall|i: int| 0 <= i < offers@.len() implies committed(
                self.transactions@,
                (#[trigger] offers@[i]).id,
            ) <= offers@[i].amount by {
                if i < o1.len() {
                    assert(offers@[i] == o1[i]);
                }
            }
        }
        self.next_offer_id = id + 1;
        self.offers = offers;
        Ok(id)
    }

    /// Opens a pending transaction against an open offer after the sweep,
    /// validating the numeric fields and that the offer has capacity for
    /// `amount + taker_fee`; the new transaction expires `expiry_window_secs`
    /// after `now`.
    pub fn create_transaction(
        &mut self,
        taker_account_id: u64,
        req: &CreateTransactionRequest,
        now: u64,
        expiry_window_secs: u64,
    ) -> (r: Result<u64, EngineError>)
        requires
            now + expiry_window_secs <= u64::MAX,
        ensures
            ({
                let st = expire_all(old(self).spec_transactions(), now);
                let so = close_all(old(self).spec_offers(), st);
                let oi = offer_index(so, req.offer_id);
                let available = oi >= 0 && so[oi].status is Open && req.amount + req.taker_fee
                    <= remaining_capacity(so[oi], st);
                &&& final(self).spec_offers() == so
                &&& final(self).spec_next_offer_id() == old(self).spec_next_offer_id()
                &&& (r is Ok <==> transaction_request_valid(*req) && old(self).spec_next_transaction_id() < u64::MAX && available)
                &&& (r == Err::<u64, EngineError>(EngineError::Validation)
                    <==> !transaction_request_valid(*req))
                &&& (r == Err::<u64, EngineError>(EngineError::Overflow)
                    <==> transaction_request_valid(*req) && old(self).spec_next_transaction_id()
                    == u64::MAX)
                &&& (r == Err::<u64, EngineError>(EngineError::OfferUnavailable)
                    <==> transaction_request_valid(*req) && old(self).spec_next_transaction_id()
                    < u64::MAX && !available)
                &&& (r matches Ok(id) ==> {
                    &&& id == old(self).spec_next_transaction_id()
                    &&& final(self).spec_next_transaction_id() == old(self).spec_next_transaction_id() + 1
                    &&& final(self).spec_transactions() == st.push(
                        Transaction {
                            id,
                            offer_id: req.offer_id,
                            taker_account_id,
                            amount: req.amount,
                            price_per_unit: req.price_per_unit,
                            taker_fee: req.taker_fee,
                            maker_fee: req.maker_fee,
                            value: req.value,
                            currency: req.currency,
                            crypto_type: req.crypto_type,
                            status: TxStatus::Pending,
                            created_at: now,
                            expires_at: (now + expiry_window_secs) as u64,
                        },
                    )
                })
                &&& (r is Err ==> final(self).spec_transactions() == st && final(self).spec_next_transaction_id() == old(self).spec_next_transaction_id())
            }),
    {
        self.sweep(now);
        if !(req.amount >= 0 && req.taker_fee >= 0 && req.maker_fee >= 0 && req.price_per_unit
            >= 0 && req.value >= 0) {
            return Err(EngineError::Validation);
        }
        if self.next_transaction_id == u64::MAX {
            return Err(EngineError::Overflow);
        }
        proof {
            use_type_invariant(&*self);
        }
        let oi = match find_offer(&self.offers, req.offer_id) {
            None => {
                return Err(EngineError::OfferUnavailable);
            },
            Some(oi) => oi,
        };
        if !(self.offers[oi].status == OfferStatus::Open) {
            return Err(EngineError::OfferUnavailable);
        }
        proof {
            lemma_first_where(self.offers@, |o: Offer| o.id == req.offer_id);
            assert(self.offers@[oi as int].id == req.offer_id);
            assert(committed(self.transactions@, self.offers@[oi as int].id) <= self.offers@[
                oi as int
            ].amount);
        }
        proof {
            let f = tx_commitment(req.offer_id);
            assert forall|k: int| 0 <= k < self.transactions@.len() implies f(
                #[trigger] self.transactions@[k],
            ) >= 0 by {}
            lemma_sum_of_nonneg(self.transactions@, f);
        }
        let already = committed_amount(&self.transactions, req.offer_id);
        let remaining = self.offers[oi].amount - already;
        if req.taker_fee > remaining || req.amount > remaining - req.taker_fee {
            return Err(EngineError::OfferUnavailable);
        }
        let id = self.next_transaction_id;
        let tx = Transaction {
            id,
            offer_id: req.offer_id,
            taker_account_id,
            amount: req.amount,
            price_per_unit: req.price_per_unit,
            taker_fee: req.taker_fee,
            maker_fee: req.maker_fee,
            value: req.value,
            currency: req.currency.clone(),
            crypto_type: req.crypto_type.clone(),
            status: TxStatus::Pending,
            created_at: now,
            expires_at: now + expiry_window_secs,
        };
        let ghost t1 = self.transactions@;
        let mut txs: Vec<Transaction> = Vec::new();
        std::mem::swap(&mut txs, &mut self.transactions);
        txs.push(tx);
        proof {
            assert forall|i: int| 0 <= i < self.offers@.len() implies committed(
                txs@,
                (#[trigger] self.offers@[i]).id,
            ) <= self.offers@[i].amount by {
                lemma_sum_of_push(t1, tx_commitment(self.offers@[i].id), tx);
                if i != oi as int {
                    if i < oi as int {
                        assert(self.offers@[i].id != self.offers@[oi as int].id);
                    } else {
                        assert(self.offers@[oi as int].id != self.offers@[i].id);
                    }
                }
            }
        }
        self.next_transaction_id = id + 1;
        self.transactions = txs;
        Ok(id)
    }

    /// Sums `maker_fee` over all non-rejected transactions against the offer
    /// keyed `offer_id`; `NoResult` when the offer has no matched
    /// transaction, `Overflow` when the aggregate leaves the machine range.
    pub fn aggregate_fee(&self, offer_id: u64) -> (r: Result<i128, EngineError>)
        ensures
            r is Ok <==> has_matched_tx(self.spec_transactions(), offer_id)
                && aggregated_maker_fee(self.spec_transactions(), offer_id) <= i128::MAX,
            r matches Ok(f) ==> f == aggregated_maker_fee(self.spec_transactions(), offer_id),
            r == Err::<i128, EngineError>(EngineError::NoResult) <==> !has_matched_tx(
                self.spec_transactions(),
                offer_id,
            ),
            r == Err::<i128, EngineError>(EngineError::Overflow) <==> has_matched_tx(
                self.spec_transactions(),
                offer_id,
            ) && aggregated_maker_fee(self.spec_transactions(), offer_id) > i128::MAX,
    {
        proof {
            use_type_invariant(&*self);
        }
        let ghost ts = self.spec_transactions();
        let ghost f = tx_maker_fee(offer_id);
        proof {
            assert forall|k: int| 0 <= k < ts.len() implies f(#[trigger] ts[k]) >= 0 by {}
        }
        let n = self.transactions.len();
        let mut acc: i128 = 0;
        let mut matched = false;
        for i in 0..n
            invariant
                acc == sum_of(ts.take(i as int), f),
                0 <= acc,
                matched == exists|k: int|
                    0 <= k < i && tx_counts_against(#[trigger] ts[k], offer_id),
        {
            proof {
                lemma_sum_of_take_step(ts, f, i as int);
                lemma_sum_of_nonneg(ts.take(i as int), f);
            }
            let t = &self.transactions[i];
            if t.offer_id == offer_id && !(t.status == TxStatus::Rejected) {
                assert(tx_counts_against(ts[i as int], offer_id));
                matched = true;
                if acc > i128::MAX - t.maker_fee {
                    proof {
                        lemma_sum_of_take_le(ts, f, i as int + 1);
                        assert(has_matched_tx(ts, offer_id));
                        assert(aggregated_maker_fee(ts, offer_id) > i128::MAX);
                    }
                    return Err(EngineError::Overflow);
                }
                acc = acc + t.maker_fee;
            }
        }
        proof {
            assert(ts.take(n as int) =~= ts);
        }
        if matched {
            proof {
                assert(has_matched_tx(ts, offer_id));
            }
            Ok(acc)
        } else {
            proof {
                assert(!has_matched_tx(ts, offer_id)) by {
                    if has_matched_tx(ts, offer_id) {
                        let k = choose|k: int|
                            0 <= k < ts.len() && tx_counts_against(#[trigger] ts[k], offer_id);
                        assert(tx_counts_against(ts[k], offer_id));
                    }
                }
            }
            Err(EngineError::NoResult)
        }
    }

    /// Marks the offer stopped while any pending transaction stands against
    /// it, otherwise closed; an unknown key changes nothing.  Transactions
    /// are untouched.
    pub fn close_or_stop(&mut self, offer_id: u64)
        ensures
            final(self).spec_transactions() == old(self).spec_transactions(),
            final(self).spec_next_offer_id() == old(self).spec_next_offer_id(),
            final(self).spec_next_transaction_id() == old(self).spec_next_transaction_id(),
            ({
                let i = offer_index(old(self).spec_offers(), offer_id);
                if i >= 0 {
                    final(self).spec_offers() == old(self).spec_offers().update(
                        i,
                        Offer {
                            status: if has_pending(old(self).spec_transactions(), offer_id) {
                                OfferStatus::Stopped
                            } else {
                                OfferStatus::Closed
                            },
                            ..old(self).spec_offers()[i]
                        },
                    )
                } else {
                    final(self).spec_offers() == old(self).spec_offers()
                }
            }),
    {
        proof {
            use_type_invariant(&*self);
        }
        let i = match find_offer(&self.offers, offer_id) {
            None => {
                return ;
            },
            Some(i) => i,
        };
        let pending = any_pending(&self.transactions, offer_id);
        let ghost o1 = self.offers@;
        let mut offers: Vec<Offer> = Vec::new();
        std::mem::swap(&mut offers, &mut self.offers);
        if pending {
            offers[i].status = OfferStatus::Stopped;
        } else {
            offers[i].status = OfferStatus::Closed;
        }
        proof {
            assert forall|k: int| 0 <= k < offers@.len() implies committed(
                self.transactions@,
                (#[trigger] offers@[k]).id,
            ) <= offers@[k].amount && offers@[k].amount >= 0 && offers@[k].fee >= 0 && offers@[k].price_per_unit >= 0 && offers@[k].value >= 0 && offers@[k].id
                == o1[k].id by {
                if k != i as int {
                    assert(offers@[k] == o1[k]);
                }
            }
        }
        self.offers = offers;
    }

    /// Resolves the pending transaction keyed `transaction_id` to
    /// `Successful` or `Rejected`.  Transitions are forward-only: any other
    /// current status is a lost race and fails with `Conflict`.  Offers are
    /// untouched here; the sweep on the next mutation closes a stopped offer
    /// this resolution emptied.
    pub fn resolve_transaction(&mut self, transaction_id: u64, success: bool) -> (r: Result<
        (),
        EngineError,
    >)
        ensures
            final(self).spec_offers() == old(self).spec_offers(),
            final(self).spec_next_offer_id() == old(self).spec_next_offer_id(),
            final(self).spec_next_transaction_id() == old(self).spec_next_transaction_id(),
            ({
                let i = tx_index(old(self).spec_transactions(), transaction_id);
                match r {
                    Ok(()) => i >= 0 && old(self).spec_transactions()[i].status is Pending
                        && final(self).spec_transactions() == old(
                        self,
                    ).spec_transactions().update(
                        i,
                        Transaction {
                            status: if success {
                                TxStatus::Successful
                            } else {
                                TxStatus::Rejected
                            },
                            ..old(self).spec_transactions()[i]
                        },
                    ),
                    Err(e) => {
                        &&& e == EngineError::Conflict
                        &&& final(self).spec_transactions() == old(self).spec_transactions()
                        &&& (i == -1 || !(old(self).spec_transactions()[i].status is Pending))
                    },
                }
            }),
    {
        proof {
            use_type_invariant(&*self);
        }
        let i = match find_tx(&self.transactions, transaction_id) {
            None => {
                return Err(EngineError::Conflict);
            },
            Some(i) => i,
        };
        if !(self.transactions[i].status == TxStatus::Pending) {
            return Err(EngineError::Conflict);
        }
        let ghost t1 = self.transactions@;
        let mut txs: Vec<Transaction> = Vec::new();
        std::mem::swap(&mut txs, &mut self.transactions);
        if success {
            txs[i].status = TxStatus::Successful;
        } else {
            txs[i].status = TxStatus::Rejected;
        }
        proof {
            assert forall|x: int| 0 <= x < txs@.len() implies (#[trigger] txs@[x]).id == t1[x].id && txs@[x].offer_id == t1[x].offer_id && txs@[x].amount >= 0 && txs@[x].taker_fee >= 0 && txs@[x].maker_fee >= 0 && txs@[x].price_per_unit >= 0 && txs@[x].value >= 0 by {
                if x != i as int {
                    assert(txs@[x] == t1[x]);
                }
            }
            assert forall|k: int| 0 <= k < self.offers@.len() implies committed(
                txs@,
                (#[trigger] self.offers@[k]).id,
            ) <= self.offers@[k].amount by {
                let f = tx_commitment(self.offers@[k].id);
                assert forall|x: int| 0 <= x < txs@.len() implies f(#[trigger] txs@[x]) <= f(
                    t1[x],
                ) by {
                    if x != i as int {
                        assert(txs@[x] == t1[x]);
                    }
                }
                lemma_sum_of_pointwise_le(txs@, t1, f);
            }
        }
        self.transactions = txs;
        Ok(())
    }

    /// The status of the offer keyed `id`, for status queries.
    pub fn get_offer_status(&self, id: u64) -> (r: Option<OfferStatus>)
        ensures
            ({
                let i = offer_index(self.spec_offers(), id);
                match r {
                    Some(st) => i >= 0 && st == self.spec_offers()[i].status,
                    None => i == -1,
                }
            }),
    {
        match find_offer(&self.offers, id) {
            Some(i) => Some(self.offers[i].status),
            None => None,
        }
    }

    /// The status of the transaction keyed `id`, for status queries.
    pub fn get_transaction_status(&self, id: u64) -> (r: Option<TxStatus>)
        ensures
            ({
                let i = tx_index(self.spec_transactions(), id);
                match r {
                    Some(st) => i >= 0 && st == self.spec_transactions()[i].status,
                    None => i == -1,
                }
            }),
    {
        match find_tx(&self.transactions, id) {
            Some(i) => Some(self.transactions[i].status),
            None => None,
        }
    }

    /// Every offer of the book, with each `amount` replaced by the remaining
    /// capacity, restricted to `status = open` and positive remaining
    /// capacity; the sweep runs first.
    pub fn list_open_offers(&mut self, now: u64) -> (r: Vec<Offer>)
        ensures
            final(self).spec_transactions() == expire_all(old(self).spec_transactions(), now),
            final(self).spec_offers() == close_all(
                old(self).spec_offers(),
                expire_all(old(self).spec_transactions(), now),
            ),
            final(self).spec_next_offer_id() == old(self).spec_next_offer_id(),
            final(self).spec_next_transaction_id() == old(self).spec_next_transaction_id(),
            r@ == open_listing(final(self).spec_offers(), final(self).spec_transactions()),
    {
        self.sweep(now);
        proof {
            use_type_invariant(&*self);
        }
        let ghost os = self.spec_offers();
        let ghost ts = self.spec_transactions();
        let mut out: Vec<Offer> = Vec::new();
        let m = self.offers.len();
        for i in 0..m
            invariant
                out@ == open_listing(os.take(i as int), ts),
        {
            proof {
                assert(os.take(i as int + 1).drop_last() =~= os.take(i as int));
                assert(os.take(i as int + 1).last() == os[i as int]);
                let f = tx_commitment(os[i as int].id);
                assert forall|k: int| 0 <= k < ts.len() implies f(#[trigger] ts[k]) >= 0 by {}
                lemma_sum_of_nonneg(ts, f);
            }
            let already = committed_amount(&self.transactions, self.offers[i].id);
            let remaining = self.offers[i].amount - already;
            if self.offers[i].status == OfferStatus::Open && remaining > 0 {
                let summary = self.offers[i].with_amount(remaining);
                out.push(summary);
            }
        }
        proof {
            assert(os.take(m as int) =~= os);
        }
        out
    }

    /// The offers owned by `owner_account_id` that are not closed and still
    /// have positive remaining capacity, with each `amount` replaced by that
    /// remaining capacity; no sweep runs.
    pub fn list_account_offers(&self, owner_account_id: u64) -> (r: Vec<Offer>)
        ensures
            r@ == account_listing(
                self.spec_offers(),
                self.spec_transactions(),
                owner_account_id,
            ),
    {
        proof {
            use_type_invariant(&*self);
        }
        let ghost os = self.spec_offers();
        let ghost ts = self.spec_transactions();
        let mut out: Vec<Offer> = Vec::new();
        let m = self.offers.len();
        for i in 0..m
            invariant
                out@ == account_listing(os.take(i as int), ts, owner_account_id),
        {
            proof {
                assert(os.take(i as int + 1).drop_last() =~= os.take(i as int));
                assert(os.take(i as int + 1).last() == os[i as int]);
                let f = tx_commitment(os[i as int].id);
                assert forall|k: int| 0 <= k < ts.len() implies f(#[trigger] ts[k]) >= 0 by {}
                lemma_sum_of_nonneg(ts, f);
            }
            let already = committed_amount(&self.transactions, self.offers[i].id);
            let remaining = self.offers[i].amount - already;
            if self.offers[i].owner_account_id == owner_account_id && !(self.offers[i].status
                == OfferStatus::Closed) && remaining > 0 {
                let summary = self.offers[i].with_amount(remaining);
                out.push(summary);
            }
        }
        proof {
            assert(os.take(m as int) =~= os);
        }
        out
    }

    /// The funds `owner_account_id` has committed to open positions: the sum
    /// of `amount + fee` over its own offers that are not closed.
    pub fn exposure_amount(&self, owner_account_id: u64) -> (r: Result<i128, EngineError>)
        ensures
            r is Ok <==> exposure_sum(self.spec_offers(), owner_account_id) <= i128::MAX,
            r matches Ok(v) ==> v == exposure_sum(self.spec_offers(), owner_account_id) && v
                >= 0,
            r matches Err(e) ==> e == EngineError::Overflow,
    {
        proof {
            use_type_invariant(&*self);
        }
        let ghost os = self.spec_offers();
        let ghost f = offer_exposure(owner_account_id);
        proof {
            assert forall|k: int| 0 <= k < os.len() implies f(#[trigger] os[k]) >= 0 by {}
        }
        let m = self.offers.len();
        let mut acc: i128 = 0;
        for i in 0..m
            invariant
                acc == sum_of(os.take(i as int), f),
                0 <= acc,
        {
            proof {
                lemma_sum_of_take_step(os, f, i as int);
                lemma_sum_of_take_le(os, f, i as int + 1);
                lemma_sum_of_nonneg(os.take(i as int), f);
            }
            let o = &self.offers[i];
            if o.owner_account_id == owner_account_id && !(o.status == OfferStatus::Closed) {
                if o.amount > i128::MAX - o.fee || acc > i128::MAX - (o.amount + o.fee) {
                    return Err(EngineError::Overflow);
                }
                acc = acc + (o.amount + o.fee);
            }
        }
        proof {
            assert(os.take(m as int) =~= os);
        }
        Ok(acc)
    }

    /// The funds `owner_account_id` has settled in closed positions: the sum
    /// of `amount + taker_fee + maker_fee` over successful transactions
    /// whose offer it owns and is closed.
    pub fn settled_amount(&self, owner_account_id: u64) -> (r: Result<i128, EngineError>)
        ensures
            r is Ok <==> settled_sum(
                self.spec_offers(),
                self.spec_transactions(),
                owner_account_id,
            ) <= i128::MAX,
            r matches Ok(v) ==> v == settled_sum(
                self.spec_offers(),
                self.spec_transactions(),
                owner_account_id,
            ) && v >= 0,
            r matches Err(e) ==> e == EngineError::Overflow,
    {
        proof {
            use_type_invariant(&*self);
        }
        let ghost os = self.spec_offers();
        let ghost ts = self.spec_transactions();
        let ghost f = tx_settled_cost(os, owner_account_id);
        proof {
            assert forall|k: int| 0 <= k < ts.len() implies f(#[trigger] ts[k]) >= 0 by {}
        }
        let n = self.transactions.len();
        let mut acc: i128 = 0;
        for i in 0..n
            invariant
                acc == sum_of(ts.take(i as int), f),
                0 <= acc,
        {
            proof {
                lemma_sum_of_take_step(ts, f, i as int);
                lemma_sum_of_take_le(ts, f, i as int + 1);
                lemma_sum_of_nonneg(ts.take(i as int), f);
            }
            let t = &self.transactions[i];
            let mut cost: i128 = 0;
            if t.status == TxStatus::Successful {
                match find_offer(&self.offers, t.offer_id) {
                    Some(oi) => {
                        let o = &self.offers[oi];
                        if o.owner_account_id == owner_account_id && o.status
                            == OfferStatus::Closed {
                            if t.amount > i128::MAX - t.taker_fee || t.amount + t.taker_fee
                                > i128::MAX - t.maker_fee {
                                return Err(EngineError::Overflow);
                            }
                            cost = t.amount + t.taker_fee + t.maker_fee;
                        }
                    },
                    None => {},
                }
            }
            assert(cost == f(ts[i as int]));
            if acc > i128::MAX - cost {
                return Err(EngineError::Overflow);
            }
            acc = acc + cost;
        }
        proof {
            assert(ts.take(n as int) =~= ts);
        }
        Ok(acc)
    }
}

/// An offer as listed: its `amount` replaced by its remaining capacity.
pub open spec fn offer_summary(o: Offer, txs: Seq<Transaction>) -> Offer {
    Offer { amount: remaining_capacity(o, txs) as i128, ..o }
}

/// The public listing: every open offer with positive remaining capacity,
/// summarized.
pub open spec fn open_listing(offers: Seq<Offer>, txs: Seq<Transaction>) -> Seq<Offer>
    decreases offers.len(),
{
    if offers.len() == 0 {
        Seq::empty()
    } else {
        let rest = open_listing(offers.drop_last(), txs);
        if offers.last().status is Open && remaining_capacity(offers.last(), txs) > 0 {
            rest.push(offer_summary(offers.last(), txs))
        } else {
            rest
        }
    }
}

/// One account's listing: its own offers that are not closed and still have
/// positive remaining capacity, summarized.
pub open spec fn account_listing(
    offers: Seq<Offer>,
    txs: Seq<Transaction>,
    owner_account_id: u64,
) -> Seq<Offer>
    decreases offers.len(),
{
    if offers.len() == 0 {
        Seq::empty()
    } else {
        let rest = account_listing(offers.drop_last(), txs, owner_account_id);
        let o = offers.last();
        if o.owner_account_id == owner_account_id && !(o.status is Closed) && remaining_capacity(
            o,
            txs,
        ) > 0 {
            rest.push(offer_summary(o, txs))
        } else {
            rest
        }
    }
}

/// Exposure contribution of one offer for `owner`: `amount + fee` while the
/// offer is the owner's and not closed.
pub open spec fn offer_exposure(owner: u64) -> spec_fn(Offer) -> int {
    |o: Offer|
        if o.owner_account_id == owner && !(o.status is Closed) {
            o.amount + o.fee
        } else {
            0
        }
}

/// The funds `owner` has committed to its open or stopped offers.
pub open spec fn exposure_sum(offers: Seq<Offer>, owner: u64) -> int {
    sum_of(offers, offer_exposure(owner))
}

/// Settled-cost contribution of one transaction for `owner`:
/// `amount + taker_fee + maker_fee` for a successful transaction whose
/// offer `owner` owns and is closed.
pub open spec fn tx_settled_cost(offers: Seq<Offer>, owner: u64) -> spec_fn(Transaction) -> int {
    |t: Transaction|
        if t.status is Successful && ({
            let i = offer_index(offers, t.offer_id);
            i >= 0 && offers[i].owner_account_id == owner && offers[i].status is Closed
        }) {
            t.amount + t.taker_fee + t.maker_fee
        } else {
            0
        }
}

/// The funds `owner` has settled through successful transactions on its own
/// closed offers.
pub open spec fn settled_sum(offers: Seq<Offer>, txs: Seq<Transaction>, owner: u64) -> int {
    sum_of(txs, tx_settled_cost(offers, owner))
}

impl Offer {
    /// A copy of this offer with its `amount` replaced.
    fn with_amount(&self, amount: i128) -> (o: Offer)
        ensures
            o == (Offer { amount, ..*self }),
    {
        Offer {
            id: self.id,
            owner_account_id: self.owner_account_id,
            offer_type: self.offer_type.clone(),
            amount,
            fee: self.fee,
            price_per_unit: self.price_per_unit,
            value: self.value,
            currency: self.currency.clone(),
            crypto_type: self.crypto_type.clone(),
            settlement_tag: self.settlement_tag.clone(),
            status: self.status,
        }
    }
}

} // verus!
