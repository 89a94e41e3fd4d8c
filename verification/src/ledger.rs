use vstd::prelude::*;

use crate::encoding::{ci_equal, str_ci_equal};
use crate::errors::EngineError;
use crate::util::{first_where, lemma_first_where, lemma_first_where_is};

verus! {

/// One ledger row: the account's numeric key, the chain address it deposits
/// from, and its balance in minor units, never negative.
pub struct Account {
    pub id: u64,
    pub chain_address: String,
    pub balance: i128,
}

/// One conditional ledger mutation: a credit or a debit of `amount` against
/// the account keyed `account_id`.
pub struct LedgerOp {
    pub credit: bool,
    pub account_id: u64,
    pub amount: i128,
}

/// Index of the account keyed `id`, or `-1`.
pub open spec fn account_index(s: Seq<Account>, id: u64) -> int {
    first_where(s, |a: Account| a.id == id)
}

/// Index of the first account registered under exactly `address`, or `-1`.
pub open spec fn address_index(s: Seq<Account>, address: Seq<char>) -> int {
    first_where(s, |a: Account| a.chain_address@ == address)
}

/// Index of the first account whose address matches `address` up to ASCII
/// case, or `-1`.
pub open spec fn address_ci_index(s: Seq<Account>, address: Seq<char>) -> int {
    first_where(s, |a: Account| ci_equal(a.chain_address@, address))
}

/// Whether crediting `amount` to the first account matching `address` up to
/// ASCII case would succeed.
pub open spec fn ci_credit_allowed(s: Seq<Account>, address: Seq<char>, amount: i128) -> bool {
    let i = address_ci_index(s, address);
    amount >= 0 && i >= 0 && s[i].balance + amount <= i128::MAX
}

/// The snapshot after crediting `amount` by address: the matched row grows
/// on success, nothing changes otherwise.
pub open spec fn apply_ci_credit(s: Seq<Account>, address: Seq<char>, amount: i128) -> Seq<
    Account,
> {
    if ci_credit_allowed(s, address, amount) {
        let i = address_ci_index(s, address);
        s.update(i, Account { balance: (s[i].balance + amount) as i128, ..s[i] })
    } else {
        s
    }
}

/// Validity of a ledger snapshot: keys are unique and below the allocator
/// mark, and no balance is negative.
pub open spec fn accounts_wf(s: Seq<Account>, next_id: u64) -> bool {
    &&& forall|i: int| 0 <= i < s.len() ==> (#[trigger] s[i].id) < next_id
    &&& forall|i: int, j: int|
        0 <= i < j < s.len() ==> (#[trigger] s[i].id) != (#[trigger] s[j].id)
    &&& forall|i: int| 0 <= i < s.len() ==> (#[trigger] s[i].balance) >= 0
}

/// Every balance of the snapshot is non-negative.
pub open spec fn balances_nonnegative(s: Seq<Account>) -> bool {
    forall|i: int| 0 <= i < s.len() ==> (#[trigger] s[i].balance) >= 0
}

/// Whether the single conditional check-and-update step of `op` succeeds on
/// the snapshot `s`: the account must exist, the amount must not be negative,
/// a credit must fit the machine range, and a debit must find at least the
/// debited amount.
pub open spec fn op_allowed(s: Seq<Account>, op: LedgerOp) -> bool {
    let i = account_index(s, op.account_id);
    &&& op.amount >= 0
    &&& i >= 0
    &&& if op.credit {
        s[i].balance + op.amount <= i128::MAX
    } else {
        op.amount <= s[i].balance
    }
}

/// The balance the mutated account holds after an allowed `op`.
pub open spec fn op_new_balance(s: Seq<Account>, op: LedgerOp) -> int {
    let i = account_index(s, op.account_id);
    if op.credit {
        s[i].balance + op.amount
    } else {
        s[i].balance - op.amount
    }
}

/// The snapshot after `op`: the mutated row on success, unchanged otherwise.
pub open spec fn apply_op(s: Seq<Account>, op: LedgerOp) -> Seq<Account> {
    if op_allowed(s, op) {
        let i = account_index(s, op.account_id);
        s.update(i, Account { balance: op_new_balance(s, op) as i128, ..s[i] })
    } else {
        s
    }
}

/// The snapshot after a whole sequence of conditional mutations.
pub open spec fn apply_ops(s: Seq<Account>, ops: Seq<LedgerOp>) -> Seq<Account>
    decreases ops.len(),
{
    if ops.len() == 0 {
        s
    } else {
        apply_ops(apply_op(s, ops[0]), ops.drop_first())
    }
}

/// One conditional mutation cannot drive any balance negative.
pub proof fn lemma_apply_op_nonnegative(s: Seq<Account>, op: LedgerOp)
    requires
        balances_nonnegative(s),
    ensures
        balances_nonnegative(apply_op(s, op)),
{
    if op_allowed(s, op) {
        lemma_first_where(s, |a: Account| a.id == op.account_id);
    }
}

/// For all accounts, the balance is never negative after any sequence of
/// credits and debits: each one is a single conditional check-and-update, so
/// any interleaving of them — including debits racing for the same funds —
/// only ever applies steps that keep every balance at or above zero.
pub proof fn lemma_balances_nonnegative_after_ops(s: Seq<Account>, ops: Seq<LedgerOp>)
    requires
        balances_nonnegative(s),
    ensures
        balances_nonnegative(apply_ops(s, ops)),
    decreases ops.len(),
{
    if ops.len() > 0 {
        lemma_apply_op_nonnegative(s, ops[0]);
        lemma_balances_nonnegative_after_ops(apply_op(s, ops[0]), ops.drop_first());
    }
}

/// Of two debits racing for the same funds, at most one can pass: the
/// conditional check-and-update is a single step, so once the first has
/// taken the full balance the second finds too little and is refused,
/// leaving the balance at zero rather than negative.
pub proof fn lemma_racing_debits_one_winner(s: Seq<Account>, id: u64, amount: i128)
    requires
        amount > 0,
        account_index(s, id) >= 0,
        s[account_index(s, id)].balance == amount,
    ensures
        op_allowed(s, LedgerOp { credit: false, account_id: id, amount }),
        !op_allowed(
            apply_op(s, LedgerOp { credit: false, account_id: id, amount }),
            LedgerOp { credit: false, account_id: id, amount },
        ),
        apply_op(s, LedgerOp { credit: false, account_id: id, amount })[account_index(
            s,
            id,
        )].balance == 0,
{
    let p = |a: Account| a.id == id;
    let op = LedgerOp { credit: false, account_id: id, amount };
    lemma_first_where(s, p);
    let i = account_index(s, id);
    let s2 = apply_op(s, op);
    assert forall|j: int| 0 <= j < i implies !p(#[trigger] s2[j]) by {
        assert(s2[j] == s[j]);
    }
    lemma_first_where_is(s2, p, i);
}

/// The balance ledger: atomic, non-negative per-user balance storage with
/// conditional increment and decrement.  Each mutation is one conditional
/// check-and-update step; callers decide retry policy.
pub struct Ledger {
    accounts: Vec<Account>,
    next_account_id: u64,
}

impl View for Ledger {
    type V = Seq<Account>;

    closed spec fn view(&self) -> Seq<Account> {
        self.accounts@
    }
}

impl Ledger {
    #[verifier::type_invariant]
    pub closed spec fn wf(&self) -> bool {
        accounts_wf(self.accounts@, self.next_account_id)
    }

    pub closed spec fn spec_next_account_id(&self) -> u64 {
        self.next_account_id
    }

    /// An empty ledger.
    pub fn new() -> (l: Ledger)
        ensures
            l@ == Seq::<Account>::empty(),
            l.spec_next_account_id() == 1,
    {
        Ledger { accounts: Vec::new(), next_account_id: 1 }
    }

    /// Index of the account keyed `account_id`, if any.
    fn find_by_id(&self, account_id: u64) -> (r: Option<usize>)
        ensures
            match r {
                Some(i) => i == account_index(self@, account_id) && i < self@.len(),
                None => account_index(self@, account_id) == -1,
            },
    {
        let ghost p = |a: Account| a.id == account_id;
        let n = self.accounts.len();
        for i in 0..n
            invariant
                n == self@.len(),
                forall|j: int| 0 <= j < i ==> !p(#[trigger] self@[j]),
        {
            if self.accounts[i].id == account_id {
                proof {
                    lemma_first_where_is(self@, p, i as int);
                }
                return Some(i);
            }
        }
        proof {
            lemma_first_where(self@, p);
        }
        None
    }

    /// The current committed balance of the account, or `Validation` if no
    /// such account exists.
    pub fn get_balance(&self, account_id: u64) -> (r: Result<i128, EngineError>)
        ensures
            ({
                let i = account_index(self@, account_id);
                match r {
                    Ok(b) => i >= 0 && b == self@[i].balance && b >= 0,
                    Err(e) => i == -1 && e == EngineError::Validation,
                }
            }),
    {
        proof {
            use_type_invariant(&*self);
        }
        match self.find_by_id(account_id) {
            Some(i) => Ok(self.accounts[i].balance),
            None => Err(EngineError::Validation),
        }
    }

    /// The account registered under exactly `chain_address`, creating it with
    /// a zero balance if it is new; returns its key.
    pub fn ensure_account(&mut self, chain_address: String) -> (r: Result<
        u64,
        EngineError,
    >)
        ensures
            ({
                let i = address_index(old(self)@, chain_address@);
                match r {
                    Ok(id) => {
                        if i >= 0 {
                            &&& *final(self) == *old(self)
                            &&& id == old(self)@[i].id
                        } else {
                            &&& id == old(self).spec_next_account_id()
                            &&& final(self)@ == old(self)@.push(
                                Account { id, chain_address, balance: 0 },
                            )
                            &&& final(self).spec_next_account_id() == old(
                                self,
                            ).spec_next_account_id() + 1
                        }
                    },
                    Err(e) => {
                        &&& e == EngineError::Overflow
                        &&& i == -1
                        &&& old(self).spec_next_account_id() == u64::MAX
                        &&& *final(self) == *old(self)
                    },
                }
            }),
    {
        proof {
            use_type_invariant(&*self);
        }
        let ghost p = |a: Account| a.chain_address@ == chain_address@;
        let n = self.accounts.len();
        for i in 0..n
            invariant
                n == self@.len(),
                forall|j: int| 0 <= j < i ==> !p(#[trigger] self@[j]),
        {
            if self.accounts[i].chain_address == chain_address {
                proof {
                    lemma_first_where_is(self@, p, i as int);
                }
                return Ok(self.accounts[i].id);
            }
        }
        proof {
            lemma_first_where(self@, p);
        }
        if self.next_account_id == u64::MAX {
            return Err(EngineError::Overflow);
        }
        let id = self.next_account_id;
        let mut accounts: Vec<Account> = Vec::new();
        std::mem::swap(&mut accounts, &mut self.accounts);
        accounts.push(Account { id, chain_address, balance: 0 });
        self.next_account_id = id + 1;
        self.accounts = accounts;
        Ok(id)
    }

    /// Atomic conditional increment: adds `amount` to the account's balance
    /// and returns the new balance.  Fails with `Validation` on a negative
    /// amount or an unknown account and with `Overflow` when the new balance
    /// would not be representable; a failed call changes nothing.
    pub fn credit(&mut self, account_id: u64, amount: i128) -> (r: Result<i128, EngineError>)
        ensures
            ({
                let op = LedgerOp { credit: true, account_id, amount };
                let i = account_index(old(self)@, account_id);
                &&& final(self)@ == apply_op(old(self)@, op)
                &&& final(self).spec_next_account_id() == old(self).spec_next_account_id()
                &&& (r is Ok <==> op_allowed(old(self)@, op))
                &&& (r matches Ok(b) ==> b == op_new_balance(old(self)@, op))
                &&& (r == Err::<i128, EngineError>(EngineError::Validation) <==> (amount < 0
                    || i == -1))
                &&& (r == Err::<i128, EngineError>(EngineError::Overflow) <==> (amount >= 0 && i
                    >= 0 && old(self)@[i].balance + amount > i128::MAX))
            }),
    {
        proof {
            use_type_invariant(&*self);
        }
        if amount < 0 {
            return Err(EngineError::Validation);
        }
        match self.find_by_id(account_id) {
            None => Err(EngineError::Validation),
            Some(i) => {
                let balance = self.accounts[i].balance;
                if balance > i128::MAX - amount {
                    return Err(EngineError::Overflow);
                }
                let nb = balance + amount;
                let ghost s = self@;
                let mut accounts: Vec<Account> = Vec::new();
                std::mem::swap(&mut accounts, &mut self.accounts);
                accounts[i].balance = nb;
                proof {
                    let s2 = s.update(i as int, Account { balance: nb, ..s[i as int] });
                    assert(accounts@ == s2);
                    assert forall|j: int| 0 <= j < s2.len() implies (#[trigger] s2[j]).id == s[j].id
                        && s2[j].balance >= 0 by {
                        if j != i as int {
                            assert(s2[j] == s[j]);
                        }
                    }
                    assert(accounts_wf(s2, self.next_account_id));
                }
                self.accounts = accounts;
                Ok(nb)
            },
        }
    }

    /// Atomic conditional decrement: the check that the balance covers
    /// `amount` and the subtraction are one step, so two debits racing for
    /// the same funds cannot both pass.  Fails with `InsufficientFunds` when
    /// the balance is short and with `Validation` on a negative amount or an
    /// unknown account; a failed call changes nothing.
    pub fn debit(&mut self, account_id: u64, amount: i128) -> (r: Result<i128, EngineError>)
        ensures
            ({
                let op = LedgerOp { credit: false, account_id, amount };
                let i = account_index(old(self)@, account_id);
                &&& final(self)@ == apply_op(old(self)@, op)
                &&& final(self).spec_next_account_id() == old(self).spec_next_account_id()
                &&& (r is Ok <==> op_allowed(old(self)@, op))
                &&& (r matches Ok(b) ==> b == op_new_balance(old(self)@, op))
                &&& (r == Err::<i128, EngineError>(EngineError::Validation) <==> (amount < 0
                    || i == -1))
                &&& (r == Err::<i128, EngineError>(EngineError::InsufficientFunds) <==> (amount
                    >= 0 && i >= 0 && old(self)@[i].balance < amount))
            }),
    {
        proof {
            use_type_invariant(&*self);
        }
        if amount < 0 {
            return Err(EngineError::Validation);
        }
        match self.find_by_id(account_id) {
            None => Err(EngineError::Validation),
            Some(i) => {
                let balance = self.accounts[i].balance;
                if balance < amount {
                    return Err(EngineError::InsufficientFunds);
                }
                let nb = balance - amount;
                let ghost s = self@;
                let mut accounts: Vec<Account> = Vec::new();
                std::mem::swap(&mut accounts, &mut self.accounts);
                accounts[i].balance = nb;
                proof {
                    let s2 = s.update(i as int, Account { balance: nb, ..s[i as int] });
                    assert(accounts@ == s2);
                    assert forall|j: int| 0 <= j < s2.len() implies (#[trigger] s2[j]).id == s[j].id
                        && s2[j].balance >= 0 by {
                        if j != i as int {
                            assert(s2[j] == s[j]);
                        }
                    }
                    assert(accounts_wf(s2, self.next_account_id));
                }
                self.accounts = accounts;
                Ok(nb)
            },
        }
    }

    /// Atomic conditional increment keyed by chain address, matched with
    /// ASCII case folded, the way confirmed deposits are credited to their
    /// sender.  Fails with `Validation` on a negative amount or an unmatched
    /// address and with `Overflow` when the new balance would not be
    /// representable; a failed call changes nothing.
    pub fn credit_by_address(&mut self, chain_address: &String, amount: i128) -> (r: Result<
        i128,
        EngineError,
    >)
        ensures
            final(self)@ == apply_ci_credit(old(self)@, chain_address@, amount),
            final(self).spec_next_account_id() == old(self).spec_next_account_id(),
            r is Ok <==> ci_credit_allowed(old(self)@, chain_address@, amount),
            r matches Ok(b) ==> ({
                let i = address_ci_index(old(self)@, chain_address@);
                b == old(self)@[i].balance + amount
            }),
            ({
                let i = address_ci_index(old(self)@, chain_address@);
                &&& (r == Err::<i128, EngineError>(EngineError::Validation) <==> (amount < 0
                    || i == -1))
                &&& (r == Err::<i128, EngineError>(EngineError::Overflow) <==> (amount >= 0 && i
                    >= 0 && old(self)@[i].balance + amount > i128::MAX))
            }),
    {
        proof {
            use_type_invariant(&*self);
        }
        if amount < 0 {
            return Err(EngineError::Validation);
        }
        let ghost p = |a: Account| ci_equal(a.chain_address@, chain_address@);
        let n = self.accounts.len();
        let mut found: usize = n;
        for i in 0..n
            invariant
                found == n,
                forall|j: int| 0 <= j < i ==> !p(#[trigger] self@[j]),
        {
            if str_ci_equal(self.accounts[i].chain_address.as_str(), chain_address.as_str()) {
                proof {
                    lemma_first_where_is(self@, p, i as int);
                }
                found = i;
                break ;
            }
        }
        if found == n {
            proof {
                lemma_first_where(self@, p);
            }
            return Err(EngineError::Validation);
        }
        let i = found;
        let balance = self.accounts[i].balance;
        if balance > i128::MAX - amount {
            return Err(EngineError::Overflow);
        }
        let nb = balance + amount;
        let ghost s = self@;
        let mut accounts: Vec<Account> = Vec::new();
        std::mem::swap(&mut accounts, &mut self.accounts);
        accounts[i].balance = nb;
        proof {
            let s2 = s.update(i as int, Account { balance: nb, ..s[i as int] });
            assert(accounts@ == s2);
            assert forall|j: int| 0 <= j < s2.len() implies (#[trigger] s2[j]).id == s[j].id
                && s2[j].balance >= 0 by {
                if j != i as int {
                    assert(s2[j] == s[j]);
                }
            }
            assert(accounts_wf(s2, self.next_account_id));
        }
        self.accounts = accounts;
        Ok(nb)
    }
}

} // verus!
