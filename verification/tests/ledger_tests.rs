use settlement::errors::EngineError;
use settlement::ledger::Ledger;

fn ledger_with(address: &str) -> (Ledger, u64) {
    let mut ledger = Ledger::new();
    let id = ledger.ensure_account(String::from(address)).unwrap();
    (ledger, id)
}

#[test]
fn balance_starts_at_zero() {
    let (ledger, id) = ledger_with("0xaa");
    assert_eq!(ledger.get_balance(id).unwrap(), 0);
}

#[test]
fn credit_then_debit_runs_the_balance() {
    let (mut ledger, id) = ledger_with("0xaa");
    assert_eq!(ledger.credit(id, 700).unwrap(), 700);
    assert_eq!(ledger.debit(id, 250).unwrap(), 450);
    assert_eq!(ledger.get_balance(id).unwrap(), 450);
}

#[test]
fn balance_never_negative_across_a_sequence() {
    // A sequence of conditional credits and debits, some of which must
    // fail: after every step the balance reads non-negative.
    let (mut ledger, id) = ledger_with("0xaa");
    let steps: [(bool, i128); 7] =
        [(true, 100), (false, 40), (false, 100), (true, 10), (false, 70), (false, 1), (true, 5)];
    for (credit, amount) in steps {
        let _ = if credit { ledger.credit(id, amount) } else { ledger.debit(id, amount) };
        assert!(ledger.get_balance(id).unwrap() >= 0);
    }
    // 100 - 40, the 100 refused, + 10, - 70, the 1 refused, + 5
    assert_eq!(ledger.get_balance(id).unwrap(), 5);
}

#[test]
fn debit_over_balance_is_insufficient_funds() {
    let (mut ledger, id) = ledger_with("0xaa");
    ledger.credit(id, 10).unwrap();
    assert_eq!(ledger.debit(id, 11), Err(EngineError::InsufficientFunds));
    assert_eq!(ledger.get_balance(id).unwrap(), 10);
}

#[test]
fn negative_amounts_are_rejected() {
    let (mut ledger, id) = ledger_with("0xaa");
    assert_eq!(ledger.credit(id, -1), Err(EngineError::Validation));
    assert_eq!(ledger.debit(id, -1), Err(EngineError::Validation));
}

#[test]
fn unknown_account_is_rejected() {
    let (mut ledger, _) = ledger_with("0xaa");
    assert_eq!(ledger.credit(99, 5), Err(EngineError::Validation));
    assert_eq!(ledger.debit(99, 5), Err(EngineError::Validation));
    assert_eq!(ledger.get_balance(99), Err(EngineError::Validation));
}

#[test]
fn credit_overflow_is_reported_and_changes_nothing() {
    let (mut ledger, id) = ledger_with("0xaa");
    ledger.credit(id, i128::MAX).unwrap();
    assert_eq!(ledger.credit(id, 1), Err(EngineError::Overflow));
    assert_eq!(ledger.get_balance(id).unwrap(), i128::MAX);
}

#[test]
fn ensure_account_finds_instead_of_duplicating() {
    let mut ledger = Ledger::new();
    let a = ledger.ensure_account(String::from("0xaa")).unwrap();
    let b = ledger.ensure_account(String::from("0xbb")).unwrap();
    let a_again = ledger.ensure_account(String::from("0xaa")).unwrap();
    assert_eq!(a, a_again);
    assert_ne!(a, b);
}

#[test]
fn credit_by_address_folds_ascii_case() {
    let (mut ledger, id) = ledger_with("0xAbCd");
    assert_eq!(ledger.credit_by_address(&String::from("0xaBcD"), 30).unwrap(), 30);
    assert_eq!(ledger.get_balance(id).unwrap(), 30);
}

#[test]
fn credit_by_unknown_address_is_rejected() {
    let (mut ledger, id) = ledger_with("0xaa");
    assert_eq!(ledger.credit_by_address(&String::from("0xbb"), 30), Err(EngineError::Validation));
    assert_eq!(ledger.get_balance(id).unwrap(), 0);
}
