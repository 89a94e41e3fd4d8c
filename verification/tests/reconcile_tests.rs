use settlement::api::{ConfirmDepositRequest, WithdrawRequest};
use settlement::config::EngineConfig;
use settlement::deposit::{ChainObservation, DepositAction, DepositState, TransferEvent};
use settlement::encoding::{parse_tx_hash, str_ci_equal};
use settlement::engine::Engine;
use settlement::errors::EngineError;
use settlement::withdraw::{WithdrawalAction, WithdrawalStatus};

const THRESHOLD: u64 = 6;
const SCALING: u128 = 1_000_000_000_000;

fn engine() -> Engine {
    Engine::new(EngineConfig::new(THRESHOLD, 20, 15, SCALING, 300).unwrap())
}

fn hash(word: &str) -> String {
    let mut h = String::from("0x");
    h.push_str(word);
    while h.len() < 66 {
        h.push('0');
    }
    h
}

fn transfer(from: &str, value: u128) -> Option<TransferEvent> {
    Some(TransferEvent { from: String::from(from), to: String::from("0xwallet"), value })
}

fn deep_receipt(from: &str, value: u128) -> ChainObservation {
    ChainObservation::Receipt {
        block_number: Some(100),
        transfer: transfer(from, value),
        current_height: 100 + THRESHOLD,
    }
}

#[test]
fn config_rejects_zero_budget_and_zero_scaling() {
    assert!(EngineConfig::new(6, 20, 0, SCALING, 300).is_err());
    assert!(EngineConfig::new(6, 20, 15, 0, 300).is_err());
    assert!(EngineConfig::new(0, 0, 1, 1, 0).is_ok());
}

#[test]
fn tx_hash_parsing_reads_exact_bytes() {
    let h = hash("abc");
    let bytes = parse_tx_hash(h.as_str()).unwrap();
    assert_eq!(bytes.len(), 32);
    assert_eq!(bytes[0], 0xab);
    assert_eq!(bytes[1], 0xc0);
    assert_eq!(bytes[2], 0x00);
    let upper = parse_tx_hash(hash("ABC").as_str()).unwrap();
    assert_eq!(upper[0], 0xab);
}

#[test]
fn tx_hash_parsing_rejects_malformed_literals() {
    assert!(parse_tx_hash("0xabc").is_none());
    assert!(parse_tx_hash(hash("xyz").as_str()).is_none());
    assert!(parse_tx_hash("").is_none());
    let mut no_prefix = hash("abc");
    no_prefix.replace_range(0..2, "00");
    assert!(parse_tx_hash(no_prefix.as_str()).is_none());
    let mut too_long = hash("abc");
    too_long.push('0');
    assert!(parse_tx_hash(too_long.as_str()).is_none());
}

#[test]
fn case_folded_comparison() {
    assert!(str_ci_equal("0xAbCd", "0xabcd"));
    assert!(!str_ci_equal("0xabcd", "0xabce"));
    assert!(!str_ci_equal("0xabc", "0xabcd"));
}

#[test]
fn deposit_confirms_and_credits_scaled_amount() {
    let mut e = engine();
    let user = e.create_user(String::from("0xSender")).unwrap();
    let h = hash("abc");
    e.confirm_deposit(&ConfirmDepositRequest { tx_hash: h.clone(), amount: 5 }).unwrap();
    assert_eq!(e.get_deposit_state(&h), Some(DepositState::Watching));
    // The decoded value is in chain-native units; 5 ledger units.
    let action = e.deposit_observation(&h, &deep_receipt("0xsender", 5 * SCALING)).unwrap();
    match action {
        DepositAction::Credit { sender, amount_minor } => {
            assert_eq!(sender, String::from("0xsender"));
            assert_eq!(amount_minor, 5);
        },
        _ => panic!("expected a credit"),
    }
    assert_eq!(e.get_deposit_state(&h), Some(DepositState::Confirmed));
    assert_eq!(e.get_balance(user).unwrap().balance, 5);
}

#[test]
fn reprocessing_a_confirmed_hash_credits_exactly_once() {
    let mut e = engine();
    let user = e.create_user(String::from("0xsender")).unwrap();
    let h = hash("abc");
    e.confirm_deposit(&ConfirmDepositRequest { tx_hash: h.clone(), amount: 5 }).unwrap();
    let obs = deep_receipt("0xsender", 5 * SCALING);
    let first = e.deposit_observation(&h, &obs).unwrap();
    assert!(matches!(first, DepositAction::Credit { .. }));
    assert_eq!(e.get_balance(user).unwrap().balance, 5);
    // A second confirmation pass for the same hash changes nothing.
    let second = e.deposit_observation(&h, &obs).unwrap();
    assert!(matches!(second, DepositAction::Ignore));
    assert_eq!(e.get_balance(user).unwrap().balance, 5);
    // Submitting the hash again is refused outright.
    assert_eq!(
        e.confirm_deposit(&ConfirmDepositRequest { tx_hash: h.clone(), amount: 5 }),
        Err(EngineError::Conflict)
    );
    assert_eq!(e.get_balance(user).unwrap().balance, 5);
}

#[test]
fn deposit_rejects_malformed_hash() {
    let mut e = engine();
    assert_eq!(
        e.confirm_deposit(&ConfirmDepositRequest { tx_hash: String::from("0xabc"), amount: 5 }),
        Err(EngineError::Validation)
    );
}

#[test]
fn shallow_receipt_waits_without_consuming_attempts() {
    let mut e = engine();
    e.create_user(String::from("0xsender")).unwrap();
    let h = hash("abc");
    e.confirm_deposit(&ConfirmDepositRequest { tx_hash: h.clone(), amount: 5 }).unwrap();
    let shallow = ChainObservation::Receipt {
        block_number: Some(100),
        transfer: transfer("0xsender", 5 * SCALING),
        current_height: 100 + THRESHOLD - 1,
    };
    let action = e.deposit_observation(&h, &shallow).unwrap();
    assert!(matches!(action, DepositAction::Wait));
    assert_eq!(e.get_deposit_state(&h), Some(DepositState::Watching));
}

#[test]
fn missing_transfer_event_fails_permanently() {
    let mut e = engine();
    let user = e.create_user(String::from("0xsender")).unwrap();
    let h = hash("abc");
    e.confirm_deposit(&ConfirmDepositRequest { tx_hash: h.clone(), amount: 5 }).unwrap();
    let no_event = ChainObservation::Receipt {
        block_number: Some(100),
        transfer: None,
        current_height: 100 + THRESHOLD,
    };
    let action = e.deposit_observation(&h, &no_event).unwrap();
    assert!(matches!(action, DepositAction::Fail { error: EngineError::EventNotEmitted }));
    assert_eq!(e.get_deposit_state(&h), Some(DepositState::Failed));
    // A later, complete receipt no longer changes anything.
    let late = e.deposit_observation(&h, &deep_receipt("0xsender", 5 * SCALING)).unwrap();
    assert!(matches!(late, DepositAction::Ignore));
    assert_eq!(e.get_balance(user).unwrap().balance, 0);
}

#[test]
fn receipt_without_block_number_is_malformed() {
    let mut e = engine();
    let h = hash("abc");
    e.confirm_deposit(&ConfirmDepositRequest { tx_hash: h.clone(), amount: 5 }).unwrap();
    let obs = ChainObservation::Receipt {
        block_number: None,
        transfer: transfer("0xsender", 5 * SCALING),
        current_height: 500,
    };
    let action = e.deposit_observation(&h, &obs).unwrap();
    assert!(matches!(action, DepositAction::Fail { error: EngineError::MalformedReceipt }));
    assert_eq!(e.get_deposit_state(&h), Some(DepositState::Failed));
}

#[test]
fn transient_misses_exhaust_the_attempt_budget() {
    let mut e = Engine::new(EngineConfig::new(THRESHOLD, 20, 3, SCALING, 300).unwrap());
    let h = hash("abc");
    e.confirm_deposit(&ConfirmDepositRequest { tx_hash: h.clone(), amount: 5 }).unwrap();
    let a1 = e.deposit_observation(&h, &ChainObservation::Transient).unwrap();
    assert!(matches!(a1, DepositAction::Retry));
    let a2 = e.deposit_observation(&h, &ChainObservation::NoReceipt).unwrap();
    assert!(matches!(a2, DepositAction::Retry));
    let a3 = e.deposit_observation(&h, &ChainObservation::Transient).unwrap();
    assert!(matches!(a3, DepositAction::Fail { error: EngineError::ConfirmationTimeout }));
    assert_eq!(e.get_deposit_state(&h), Some(DepositState::Failed));
}

#[test]
fn unknown_hash_observation_is_rejected() {
    let mut e = engine();
    assert!(matches!(
        e.deposit_observation(&hash("abc"), &ChainObservation::Transient),
        Err(EngineError::Validation)
    ));
}

#[test]
fn concurrent_withdrawals_reserve_at_most_once() {
    let mut e = engine();
    let user = e.create_user(String::from("0xsender")).unwrap();
    let h = hash("abc");
    e.confirm_deposit(&ConfirmDepositRequest { tx_hash: h.clone(), amount: 500 }).unwrap();
    e.deposit_observation(&h, &deep_receipt("0xsender", 500 * SCALING)).unwrap();
    assert_eq!(e.get_balance(user).unwrap().balance, 500);
    let req = WithdrawRequest { address: String::from("0xdest"), amount: 500 };
    // Two requests race for the same funds; the reservation debit is one
    // conditional step, so exactly one wins.
    let first = e.withdraw(user, &req);
    let second = e.withdraw(user, &req);
    let id = first.unwrap();
    assert_eq!(e.get_withdrawal_status(id), Some(WithdrawalStatus::Reserved));
    assert_eq!(second, Err(EngineError::InsufficientFunds));
    assert_eq!(e.get_balance(user).unwrap().balance, 0);
}

#[test]
fn withdrawal_validation() {
    let mut e = engine();
    let user = e.create_user(String::from("0xsender")).unwrap();
    assert_eq!(
        e.withdraw(user, &WithdrawRequest { address: String::from("0xdest"), amount: -1 }),
        Err(EngineError::Validation)
    );
    assert_eq!(
        e.withdraw(99, &WithdrawRequest { address: String::from("0xdest"), amount: 1 }),
        Err(EngineError::Validation)
    );
}

#[test]
fn submission_failure_refunds_the_reservation() {
    let mut e = engine();
    let user = e.create_user(String::from("0xsender")).unwrap();
    let h = hash("abc");
    e.confirm_deposit(&ConfirmDepositRequest { tx_hash: h.clone(), amount: 300 }).unwrap();
    e.deposit_observation(&h, &deep_receipt("0xsender", 300 * SCALING)).unwrap();
    let id = e.withdraw(user, &WithdrawRequest { address: String::from("0xdest"), amount: 120 })
        .unwrap();
    assert_eq!(e.get_balance(user).unwrap().balance, 180);
    // Signing or submission failed: terminal failure, refund mandatory.
    assert_eq!(e.withdrawal_submission_failed(id).unwrap(), 300);
    assert_eq!(e.get_withdrawal_status(id), Some(WithdrawalStatus::Failed));
    assert_eq!(e.get_balance(user).unwrap().balance, 300);
    // The terminal state cannot fail or move again.
    assert_eq!(e.withdrawal_submission_failed(id), Err(EngineError::Conflict));
    assert_eq!(e.withdrawal_submitted(id), Err(EngineError::Conflict));
    assert_eq!(e.get_balance(user).unwrap().balance, 300);
}

#[test]
fn confirmed_withdrawal_stays_debited() {
    let mut e = engine();
    let user = e.create_user(String::from("0xsender")).unwrap();
    let h = hash("abc");
    e.confirm_deposit(&ConfirmDepositRequest { tx_hash: h.clone(), amount: 300 }).unwrap();
    e.deposit_observation(&h, &deep_receipt("0xsender", 300 * SCALING)).unwrap();
    let id = e.withdraw(user, &WithdrawRequest { address: String::from("0xdest"), amount: 120 })
        .unwrap();
    e.withdrawal_submitted(id).unwrap();
    assert_eq!(e.get_withdrawal_status(id), Some(WithdrawalStatus::Submitted));
    // Shallow receipt: wait without consuming the budget.
    let shallow = ChainObservation::Receipt {
        block_number: Some(200),
        transfer: transfer("0xwallet", 120 * SCALING),
        current_height: 200,
    };
    assert!(matches!(e.withdrawal_observation(id, &shallow).unwrap(), WithdrawalAction::Wait));
    // Deep receipt with the decoded event: confirmed, no further ledger
    // mutation — the debit from reservation stands.
    let deep = ChainObservation::Receipt {
        block_number: Some(200),
        transfer: transfer("0xwallet", 120 * SCALING),
        current_height: 200 + THRESHOLD,
    };
    assert!(matches!(e.withdrawal_observation(id, &deep).unwrap(), WithdrawalAction::Confirm));
    assert_eq!(e.get_withdrawal_status(id), Some(WithdrawalStatus::Confirmed));
    assert_eq!(e.get_balance(user).unwrap().balance, 180);
}

#[test]
fn exhausted_withdrawal_confirmation_keeps_funds_debited() {
    let mut e = Engine::new(EngineConfig::new(THRESHOLD, 20, 2, SCALING, 300).unwrap());
    let user = e.create_user(String::from("0xsender")).unwrap();
    let h = hash("abc");
    e.confirm_deposit(&ConfirmDepositRequest { tx_hash: h.clone(), amount: 300 }).unwrap();
    e.deposit_observation(&h, &deep_receipt("0xsender", 300 * SCALING)).unwrap();
    let id = e.withdraw(user, &WithdrawRequest { address: String::from("0xdest"), amount: 120 })
        .unwrap();
    e.withdrawal_submitted(id).unwrap();
    assert!(matches!(
        e.withdrawal_observation(id, &ChainObservation::Transient).unwrap(),
        WithdrawalAction::Retry
    ));
    assert!(matches!(
        e.withdrawal_observation(id, &ChainObservation::NoReceipt).unwrap(),
        WithdrawalAction::Fail { error: EngineError::ConfirmationTimeout }
    ));
    assert_eq!(e.get_withdrawal_status(id), Some(WithdrawalStatus::FailedUnconfirmed));
    // The transfer may have landed on-chain, so nothing is refunded.
    assert_eq!(e.get_balance(user).unwrap().balance, 180);
}

#[test]
fn unscalable_transfer_value_fails_the_deposit() {
    // With a unit scaling of one, a chain value beyond the ledger's range
    // cannot be credited; the attempt fails for good instead.
    let mut e = Engine::new(EngineConfig::new(THRESHOLD, 20, 15, 1, 300).unwrap());
    e.create_user(String::from("0xsender")).unwrap();
    let h = hash("abc");
    e.confirm_deposit(&ConfirmDepositRequest { tx_hash: h.clone(), amount: 5 }).unwrap();
    let obs = ChainObservation::Receipt {
        block_number: Some(100),
        transfer: transfer("0xsender", u128::MAX),
        current_height: 100 + THRESHOLD,
    };
    let action = e.deposit_observation(&h, &obs).unwrap();
    assert!(matches!(action, DepositAction::Fail { error: EngineError::Overflow }));
    assert_eq!(e.get_deposit_state(&h), Some(DepositState::Failed));
}

#[test]
fn deposit_from_unregistered_sender_confirms_without_crediting() {
    // The hash resolves exactly once either way; with no account registered
    // under the decoded sender, no balance anywhere changes.
    let mut e = engine();
    let user = e.create_user(String::from("0xsender")).unwrap();
    let h = hash("abc");
    e.confirm_deposit(&ConfirmDepositRequest { tx_hash: h.clone(), amount: 5 }).unwrap();
    let action = e.deposit_observation(&h, &deep_receipt("0xnobody", 5 * SCALING)).unwrap();
    assert!(matches!(action, DepositAction::Credit { .. }));
    assert_eq!(e.get_deposit_state(&h), Some(DepositState::Confirmed));
    assert_eq!(e.get_balance(user).unwrap().balance, 0);
}
