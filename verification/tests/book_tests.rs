use settlement::api::{CreateOfferRequest, CreateTransactionRequest, GetAggregatedFeeRequest};
use settlement::book::{OfferStatus, TxStatus};
use settlement::config::EngineConfig;
use settlement::engine::Engine;
use settlement::errors::EngineError;

fn engine() -> Engine {
    Engine::new(EngineConfig::new(6, 20, 15, 1_000_000_000_000, 300).unwrap())
}

fn offer_request(amount: i128, fee: i128, price_per_unit: i128) -> CreateOfferRequest {
    CreateOfferRequest {
        offer_type: String::from("sell"),
        amount,
        fee,
        crypto_type: String::from("USDT"),
        currency: String::from("EUR"),
        price_per_unit,
        value: amount.saturating_mul(price_per_unit),
        rev_tag: String::from("maker-tag"),
    }
}

fn tx_request(offer_id: u64, amount: i128, taker_fee: i128, maker_fee: i128) -> CreateTransactionRequest {
    CreateTransactionRequest {
        offer_id,
        amount,
        crypto_type: String::from("USDT"),
        price_per_unit: 5,
        currency: String::from("EUR"),
        taker_fee,
        maker_fee,
        value: amount.saturating_mul(5),
        random_title: String::from("pair"),
    }
}

#[test]
fn open_offer_is_listed_with_full_capacity() {
    let mut e = engine();
    let maker = e.create_user(String::from("0x01")).unwrap();
    let id = e.create_offer(maker, &offer_request(1000, 10, 5), 100).unwrap();
    let listing = e.get_offers(100);
    assert_eq!(listing.len(), 1);
    assert_eq!(listing[0].id, id);
    assert_eq!(listing[0].amount, 1000);
    assert_eq!(listing[0].fee, 10);
    assert_eq!(listing[0].price_per_unit, 5);
}

#[test]
fn negative_offer_fields_are_rejected() {
    let mut e = engine();
    let maker = e.create_user(String::from("0x01")).unwrap();
    assert_eq!(e.create_offer(maker, &offer_request(-1, 10, 5), 100), Err(EngineError::Validation));
    assert_eq!(e.create_offer(maker, &offer_request(1000, -1, 5), 100), Err(EngineError::Validation));
    assert!(e.get_offers(100).is_empty());
}

#[test]
fn transaction_reduces_listed_capacity() {
    let mut e = engine();
    let maker = e.create_user(String::from("0x01")).unwrap();
    let taker = e.create_user(String::from("0x02")).unwrap();
    let offer = e.create_offer(maker, &offer_request(1000, 10, 5), 100).unwrap();
    e.create_transaction(taker, &tx_request(offer, 300, 7, 3), 110).unwrap();
    let listing = e.get_offers(110);
    assert_eq!(listing.len(), 1);
    // 1000 - (300 + 7)
    assert_eq!(listing[0].amount, 693);
}

#[test]
fn capacity_overrun_is_offer_unavailable() {
    // A transaction whose amount + taker_fee would drive the remaining
    // capacity negative is rejected outright.
    let mut e = engine();
    let maker = e.create_user(String::from("0x01")).unwrap();
    let taker = e.create_user(String::from("0x02")).unwrap();
    let offer = e.create_offer(maker, &offer_request(1000, 10, 5), 100).unwrap();
    assert_eq!(
        e.create_transaction(taker, &tx_request(offer, 1000, 2, 0), 110),
        Err(EngineError::OfferUnavailable)
    );
    // Capacity is untouched by the rejected attempt.
    assert_eq!(e.get_offers(110)[0].amount, 1000);
}

#[test]
fn exhausted_offer_leaves_the_listing() {
    // Filling the capacity to exactly zero: the offer no longer shows up.
    let mut e = engine();
    let maker = e.create_user(String::from("0x01")).unwrap();
    let taker = e.create_user(String::from("0x02")).unwrap();
    let offer = e.create_offer(maker, &offer_request(1000, 10, 5), 100).unwrap();
    e.create_transaction(taker, &tx_request(offer, 998, 2, 0), 110).unwrap();
    assert!(e.get_offers(110).is_empty());
    assert_eq!(e.get_offer_status(offer), Some(OfferStatus::Open));
}

#[test]
fn missing_or_closed_offer_is_unavailable() {
    let mut e = engine();
    let maker = e.create_user(String::from("0x01")).unwrap();
    let taker = e.create_user(String::from("0x02")).unwrap();
    assert_eq!(
        e.create_transaction(taker, &tx_request(42, 10, 0, 0), 100),
        Err(EngineError::OfferUnavailable)
    );
    let offer = e.create_offer(maker, &offer_request(100, 0, 5), 100).unwrap();
    e.delete_offer(offer);
    assert_eq!(e.get_offer_status(offer), Some(OfferStatus::Closed));
    assert_eq!(
        e.create_transaction(taker, &tx_request(offer, 10, 0, 0), 110),
        Err(EngineError::OfferUnavailable)
    );
}

#[test]
fn expired_pending_transaction_is_rejected_by_next_sweep() {
    let mut e = engine();
    let maker = e.create_user(String::from("0x01")).unwrap();
    let taker = e.create_user(String::from("0x02")).unwrap();
    let offer = e.create_offer(maker, &offer_request(1000, 10, 5), 100).unwrap();
    // Expires at 100 + 300 = 400.
    let tx = e.create_transaction(taker, &tx_request(offer, 400, 0, 0), 100).unwrap();
    assert_eq!(e.get_transaction_status(tx), Some(TxStatus::Pending));
    // Not yet expired at 400: the sweep keeps it and capacity stays down.
    assert_eq!(e.get_offers(400)[0].amount, 600);
    assert_eq!(e.get_transaction_status(tx), Some(TxStatus::Pending));
    // Past 400 the next sweep rejects it, and capacity reads as if the
    // transaction never existed.
    assert_eq!(e.get_offers(401)[0].amount, 1000);
    assert_eq!(e.get_transaction_status(tx), Some(TxStatus::Rejected));
}

#[test]
fn stopped_offer_closes_exactly_when_last_pending_resolves() {
    let mut e = engine();
    let maker = e.create_user(String::from("0x01")).unwrap();
    let taker = e.create_user(String::from("0x02")).unwrap();
    let offer = e.create_offer(maker, &offer_request(1000, 10, 5), 100).unwrap();
    let tx = e.create_transaction(taker, &tx_request(offer, 300, 0, 0), 100).unwrap();
    // Deleting with a pending transaction only stops the offer.
    e.delete_offer(offer);
    assert_eq!(e.get_offer_status(offer), Some(OfferStatus::Stopped));
    // Sweeps while the transaction is still pending never close it.
    let _ = e.get_offers(150);
    assert_eq!(e.get_offer_status(offer), Some(OfferStatus::Stopped));
    // The transaction resolves; the very next sweep closes the offer.
    e.resolve_transaction(tx, true).unwrap();
    assert_eq!(e.get_offer_status(offer), Some(OfferStatus::Stopped));
    let _ = e.get_offers(160);
    assert_eq!(e.get_offer_status(offer), Some(OfferStatus::Closed));
}

#[test]
fn stopped_offer_closes_after_expiry_too() {
    let mut e = engine();
    let maker = e.create_user(String::from("0x01")).unwrap();
    let taker = e.create_user(String::from("0x02")).unwrap();
    let offer = e.create_offer(maker, &offer_request(1000, 10, 5), 100).unwrap();
    let tx = e.create_transaction(taker, &tx_request(offer, 300, 0, 0), 100).unwrap();
    e.delete_offer(offer);
    // One sweep past the expiry both rejects the transaction and closes
    // the emptied stopped offer.
    let _ = e.get_offers(500);
    assert_eq!(e.get_transaction_status(tx), Some(TxStatus::Rejected));
    assert_eq!(e.get_offer_status(offer), Some(OfferStatus::Closed));
}

#[test]
fn resolution_is_forward_only() {
    let mut e = engine();
    let maker = e.create_user(String::from("0x01")).unwrap();
    let taker = e.create_user(String::from("0x02")).unwrap();
    let offer = e.create_offer(maker, &offer_request(1000, 10, 5), 100).unwrap();
    let tx = e.create_transaction(taker, &tx_request(offer, 300, 0, 0), 100).unwrap();
    e.resolve_transaction(tx, false).unwrap();
    assert_eq!(e.get_transaction_status(tx), Some(TxStatus::Rejected));
    assert_eq!(e.resolve_transaction(tx, true), Err(EngineError::Conflict));
    assert_eq!(e.get_transaction_status(tx), Some(TxStatus::Rejected));
    assert_eq!(e.resolve_transaction(999, true), Err(EngineError::Conflict));
}

#[test]
fn aggregated_fee_sums_non_rejected_only() {
    let mut e = engine();
    let maker = e.create_user(String::from("0x01")).unwrap();
    let taker = e.create_user(String::from("0x02")).unwrap();
    let offer = e.create_offer(maker, &offer_request(1000, 10, 5), 100).unwrap();
    let t1 = e.create_transaction(taker, &tx_request(offer, 100, 0, 7), 100).unwrap();
    let t2 = e.create_transaction(taker, &tx_request(offer, 100, 0, 11), 100).unwrap();
    let _t3 = e.create_transaction(taker, &tx_request(offer, 100, 0, 13), 100).unwrap();
    e.resolve_transaction(t1, true).unwrap();
    e.resolve_transaction(t2, false).unwrap();
    // 7 (successful) + 13 (still pending); the rejected 11 never counts.
    let resp = e.get_aggregated_fee(&GetAggregatedFeeRequest { offer_id: offer }).unwrap();
    assert_eq!(resp.fee, 20);
}

#[test]
fn aggregated_fee_without_matches_is_no_result() {
    let mut e = engine();
    let maker = e.create_user(String::from("0x01")).unwrap();
    let offer = e.create_offer(maker, &offer_request(1000, 10, 5), 100).unwrap();
    assert_eq!(
        e.get_aggregated_fee(&GetAggregatedFeeRequest { offer_id: offer }),
        Err(EngineError::NoResult)
    );
}

#[test]
fn user_offers_show_stopped_but_not_closed() {
    let mut e = engine();
    let maker = e.create_user(String::from("0x01")).unwrap();
    let taker = e.create_user(String::from("0x02")).unwrap();
    let visible = e.create_offer(maker, &offer_request(500, 5, 2), 100).unwrap();
    let stopped = e.create_offer(maker, &offer_request(800, 0, 2), 100).unwrap();
    let closed = e.create_offer(maker, &offer_request(900, 0, 2), 100).unwrap();
    e.create_transaction(taker, &tx_request(stopped, 100, 0, 0), 100).unwrap();
    e.delete_offer(stopped);
    e.delete_offer(closed);
    let mine = e.get_user_offers(maker);
    assert_eq!(mine.len(), 2);
    assert_eq!(mine[0].id, visible);
    assert_eq!(mine[0].amount, 500);
    assert_eq!(mine[1].id, stopped);
    assert_eq!(mine[1].amount, 700);
    // The public listing shows only the open one.
    let public = e.get_offers(100);
    assert_eq!(public.len(), 1);
    assert_eq!(public[0].id, visible);
}

#[test]
fn balance_projection_subtracts_open_positions() {
    let mut e = engine();
    let maker = e.create_user(String::from("0x01")).unwrap();
    // The projection of an unfunded account with one open offer goes
    // negative: funds committed to the position are not spendable.
    e.create_offer(maker, &offer_request(200, 10, 5), 100).unwrap();
    let resp = e.get_balance(maker).unwrap();
    // 0 - (200 + 10) - 0
    assert_eq!(resp.balance, -210);
}

#[test]
fn balance_projection_counts_settled_closed_offers() {
    let mut e = engine();
    let maker = e.create_user(String::from("0x01")).unwrap();
    let taker = e.create_user(String::from("0x02")).unwrap();
    let offer = e.create_offer(maker, &offer_request(100, 10, 5), 100).unwrap();
    let tx = e.create_transaction(taker, &tx_request(offer, 60, 5, 3), 100).unwrap();
    e.resolve_transaction(tx, true).unwrap();
    e.delete_offer(offer);
    assert_eq!(e.get_offer_status(offer), Some(OfferStatus::Closed));
    // The offer no longer counts as exposure once closed, but its
    // successful transaction costs amount + taker_fee + maker_fee.
    let resp = e.get_balance(maker).unwrap();
    // 0 - 0 - (60 + 5 + 3)
    assert_eq!(resp.balance, -68);
}

#[test]
fn balance_projection_unknown_account() {
    let e = engine();
    assert_eq!(e.get_balance(77), Err(EngineError::Validation));
}

#[test]
fn aggregated_fee_overflow_is_reported() {
    let mut e = engine();
    let maker = e.create_user(String::from("0x01")).unwrap();
    let taker = e.create_user(String::from("0x02")).unwrap();
    let offer = e.create_offer(maker, &offer_request(10, 0, 1), 100).unwrap();
    e.create_transaction(taker, &tx_request(offer, 1, 0, i128::MAX - 1), 100).unwrap();
    e.create_transaction(taker, &tx_request(offer, 1, 0, 5), 100).unwrap();
    assert_eq!(
        e.get_aggregated_fee(&GetAggregatedFeeRequest { offer_id: offer }),
        Err(EngineError::Overflow)
    );
}

#[test]
fn balance_projection_overflow_is_reported() {
    let mut e = engine();
    let maker = e.create_user(String::from("0x01")).unwrap();
    e.create_offer(maker, &offer_request(i128::MAX - 5, 0, 1), 100).unwrap();
    e.create_offer(maker, &offer_request(10, 0, 1), 100).unwrap();
    assert_eq!(e.get_balance(maker), Err(EngineError::Overflow));
}

#[test]
fn aggregated_fee_with_only_rejected_matches_is_no_result() {
    // Rejected transactions count as if they never existed, so an offer
    // whose only match was rejected aggregates to nothing.
    let mut e = engine();
    let maker = e.create_user(String::from("0x01")).unwrap();
    let taker = e.create_user(String::from("0x02")).unwrap();
    let offer = e.create_offer(maker, &offer_request(1000, 10, 5), 100).unwrap();
    let tx = e.create_transaction(taker, &tx_request(offer, 100, 0, 7), 100).unwrap();
    e.resolve_transaction(tx, false).unwrap();
    assert_eq!(
        e.get_aggregated_fee(&GetAggregatedFeeRequest { offer_id: offer }),
        Err(EngineError::NoResult)
    );
}

#[test]
fn stopped_offer_accepts_no_new_matches() {
    let mut e = engine();
    let maker = e.create_user(String::from("0x01")).unwrap();
    let taker = e.create_user(String::from("0x02")).unwrap();
    let offer = e.create_offer(maker, &offer_request(1000, 10, 5), 100).unwrap();
    e.create_transaction(taker, &tx_request(offer, 100, 0, 0), 100).unwrap();
    e.delete_offer(offer);
    assert_eq!(e.get_offer_status(offer), Some(OfferStatus::Stopped));
    assert_eq!(
        e.create_transaction(taker, &tx_request(offer, 100, 0, 0), 110),
        Err(EngineError::OfferUnavailable)
    );
}
