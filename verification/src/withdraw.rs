use vstd::prelude::*;

use crate::config::EngineConfig;
use crate::deposit::{deep_enough, ChainObservation};
use crate::errors::EngineError;
use crate::util::{first_where, lemma_first_where, lemma_first_where_is};

verus! {

/// Lifecycle of a withdrawal.  The ledger is debited at the move to
/// `Reserved`, before anything touches the chain, so the same funds cannot
/// be withdrawn twice.  `Failed` means submission failed and the reservation
/// was refunded; `FailedUnconfirmed` means the attempt budget ran out after
/// submission — the transfer may or may not have landed, so the funds stay
/// debited for manual reconciliation.
#[derive(Clone, Copy, Debug, PartialEq, Eq, Structural)]
pub enum WithdrawalStatus {
    Requested,
    Reserved,
    Submitted,
    Confirmed,
    FailedUnconfirmed,
    Failed,
}

/// One withdrawal, keyed by `id`.
pub struct WithdrawalRequest {
    pub id: u64,
    pub account_id: u64,
    pub amount: i128,
    pub destination_address: String,
    pub status: WithdrawalStatus,
    pub attempts_made: u32,
}

/// Index of the withdrawal keyed `id`, or `-1`.
pub open spec fn withdrawal_index(s: Seq<WithdrawalRequest>, id: u64) -> int {
    first_where(s, |w: WithdrawalRequest| w.id == id)
}

/// Unique keys below the allocator mark, and no negative amount.
pub open spec fn withdrawals_wf(s: Seq<WithdrawalRequest>, next_id: u64) -> bool {
    &&& forall|i: int| 0 <= i < s.len() ==> (#[trigger] s[i]).id < next_id
    &&& forall|i: int, j: int|
        0 <= i < j < s.len() ==> (#[trigger] s[i]).id != (#[trigger] s[j]).id
    &&& forall|i: int| 0 <= i < s.len() ==> (#[trigger] s[i]).amount >= 0
}

/// What the confirmation poller decides from one observation.
pub enum WithdrawalAction {
    /// The outbound transfer confirmed; the debit from reservation stands
    /// and nothing further is owed to the ledger.
    Confirm,
    /// Still watching: poll again after the interval; one attempt consumed.
    Retry,
    /// The receipt is not buried deep enough yet: poll again without
    /// consuming an attempt.
    Wait,
    /// The confirmation failed for good, with the reason; funds stay
    /// debited.
    Fail { error: EngineError },
    /// The withdrawal was not awaiting confirmation; nothing happens.
    Ignore,
}

/// The withdrawal after one confirmation observation: the polling protocol
/// of the deposit reconciler, with every permanent failure ending in
/// `FailedUnconfirmed` — the transfer may have landed, so nothing is
/// refunded.
pub open spec fn withdrawal_step_state(
    w: WithdrawalRequest,
    obs: ChainObservation,
    cfg: EngineConfig,
) -> WithdrawalRequest {
    if !(w.status is Submitted) {
        w
    } else {
        match obs {
            ChainObservation::Transient => withdrawal_consume_attempt(w, cfg),
            ChainObservation::NoReceipt => withdrawal_consume_attempt(w, cfg),
            ChainObservation::Receipt { block_number, transfer, current_height } => {
                match block_number {
                    None => WithdrawalRequest {
                        status: WithdrawalStatus::FailedUnconfirmed,
                        ..w
                    },
                    Some(b) => {
                        if !deep_enough(b, current_height, cfg.spec_confirmation_threshold()) {
                            w
                        } else {
                            match transfer {
                                None => WithdrawalRequest {
                                    status: WithdrawalStatus::FailedUnconfirmed,
                                    ..w
                                },
                                Some(ev) => WithdrawalRequest {
                                    status: WithdrawalStatus::Confirmed,
                                    ..w
                                },
                            }
                        }
                    },
                }
            },
        }
    }
}

/// A transient miss burns one attempt; with the budget used up the
/// withdrawal ends `FailedUnconfirmed`.
pub open spec fn withdrawal_consume_attempt(
    w: WithdrawalRequest,
    cfg: EngineConfig,
) -> WithdrawalRequest {
    if w.attempts_made >= cfg.spec_max_attempts() {
        WithdrawalRequest { status: WithdrawalStatus::FailedUnconfirmed, ..w }
    } else if w.attempts_made + 1 >= cfg.spec_max_attempts() {
        WithdrawalRequest {
            status: WithdrawalStatus::FailedUnconfirmed,
            attempts_made: (w.attempts_made + 1) as u32,
            ..w
        }
    } else {
        WithdrawalRequest { attempts_made: (w.attempts_made + 1) as u32, ..w }
    }
}

/// The action one observation directs, matching `withdrawal_step_state`.
pub open spec fn withdrawal_step_action(
    w: WithdrawalRequest,
    obs: ChainObservation,
    cfg: EngineConfig,
) -> WithdrawalAction {
    if !(w.status is Submitted) {
        WithdrawalAction::Ignore
    } else {
        match obs {
            ChainObservation::Transient => withdrawal_consume_action(w, cfg),
            ChainObservation::NoReceipt => withdrawal_consume_action(w, cfg),
            ChainObservation::Receipt { block_number, transfer, current_height } => {
                match block_number {
                    None => WithdrawalAction::Fail { error: EngineError::MalformedReceipt },
                    Some(b) => {
                        if !deep_enough(b, current_height, cfg.spec_confirmation_threshold()) {
                            WithdrawalAction::Wait
                        } else {
                            match transfer {
                                None => WithdrawalAction::Fail {
                                    error: EngineError::EventNotEmitted,
                                },
                                Some(ev) => WithdrawalAction::Confirm,
                            }
                        }
                    },
                }
            },
        }
    }
}

/// The action that goes with `withdrawal_consume_attempt`.
pub open spec fn withdrawal_consume_action(
    w: WithdrawalRequest,
    cfg: EngineConfig,
) -> WithdrawalAction {
    if w.attempts_made >= cfg.spec_max_attempts() || w.attempts_made + 1
        >= cfg.spec_max_attempts() {
        WithdrawalAction::Fail { error: EngineError::ConfirmationTimeout }
    } else {
        WithdrawalAction::Retry
    }
}

/// Applies one confirmation observation to the withdrawal and returns the
/// directed action.
pub fn withdrawal_step(
    w: &mut WithdrawalRequest,
    obs: &ChainObservation,
    cfg: &EngineConfig,
) -> (a: WithdrawalAction)
    ensures
        *final(w) == withdrawal_step_state(*old(w), *obs, *cfg),
        a == withdrawal_step_action(*old(w), *obs, *cfg),
{
    if !(w.status == WithdrawalStatus::Submitted) {
        return WithdrawalAction::Ignore;
    }
    let max_attempts = cfg.max_attempts();
    match obs {
        ChainObservation::Transient | ChainObservation::NoReceipt => {
            if w.attempts_made >= max_attempts {
                w.status = WithdrawalStatus::FailedUnconfirmed;
                WithdrawalAction::Fail { error: EngineError::ConfirmationTimeout }
            } else if w.attempts_made + 1 >= max_attempts {
                w.attempts_made = w.attempts_made + 1;
                w.status = WithdrawalStatus::FailedUnconfirmed;
                WithdrawalAction::Fail { error: EngineError::ConfirmationTimeout }
            } else {
                w.attempts_made = w.attempts_made + 1;
                WithdrawalAction::Retry
            }
        },
        ChainObservation::Receipt { block_number, transfer, current_height } => {
            let b = match block_number {
                None => {
                    w.status = WithdrawalStatus::FailedUnconfirmed;
                    return WithdrawalAction::Fail { error: EngineError::MalformedReceipt };
                },
                Some(b) => *b,
            };
            if *current_height < b || *current_height - b < cfg.confirmation_threshold() {
                return WithdrawalAction::Wait;
            }
            match transfer {
                None => {
                    w.status = WithdrawalStatus::FailedUnconfirmed;
                    WithdrawalAction::Fail { error: EngineError::EventNotEmitted }
                },
                Some(_) => {
                    w.status = WithdrawalStatus::Confirmed;
                    WithdrawalAction::Confirm
                },
            }
        },
    }
}

/// The table of withdrawals, keyed uniquely by `id`.
pub struct WithdrawalBook {
    requests: Vec<WithdrawalRequest>,
    next_withdrawal_id: u64,
}

impl View for WithdrawalBook {
    type V = Seq<WithdrawalRequest>;

    closed spec fn view(&self) -> Seq<WithdrawalRequest> {
        self.requests@
    }
}

impl WithdrawalBook {
    #[verifier::type_invariant]
    pub closed spec fn wf(&self) -> bool {
        withdrawals_wf(self.requests@, self.next_withdrawal_id)
    }

    pub closed spec fn spec_next_withdrawal_id(&self) -> u64 {
        self.next_withdrawal_id
    }

    /// An empty table.
    pub fn new() -> (b: WithdrawalBook)
        ensures
            b@ == Seq::<WithdrawalRequest>::empty(),
            b.spec_next_withdrawal_id() == 1,
    {
        WithdrawalBook { requests: Vec::new(), next_withdrawal_id: 1 }
    }

    /// Whether another withdrawal can still be keyed.
    pub fn can_allocate(&self) -> (r: bool)
        ensures
            r == (self.spec_next_withdrawal_id() < u64::MAX),
    {
        self.next_withdrawal_id < u64::MAX
    }

    /// Index of the withdrawal keyed `id`, if any.
    fn find(&self, id: u64) -> (r: Option<usize>)
        ensures
            match r {
                Some(i) => i == withdrawal_index(self@, id) && i < self@.len(),
                None => withdrawal_index(self@, id) == -1,
            },
    {
        let ghost p = |w: WithdrawalRequest| w.id == id;
        let n = self.requests.len();
        for i in 0..n
            invariant
                forall|j: int| 0 <= j < i ==> !p(#[trigger] self@[j]),
        {
            if self.requests[i].id == id {
                proof {
                    lemma_first_where_is(self@, p, i as int);
                }
                return Some(i);
            }
        }
        proof {
            lemma_first_where(self@, p);
        }
        None
    }

    /// The status of the withdrawal keyed `id`, for status queries.
    pub fn get_status(&self, id: u64) -> (r: Option<WithdrawalStatus>)
        ensures
            ({
                let i = withdrawal_index(self@, id);
                match r {
                    Some(st) => i >= 0 && st == self@[i].status,
                    None => i == -1,
                }
            }),
    {
        match self.find(id) {
            Some(i) => Some(self.requests[i].status),
            None => None,
        }
    }

    /// The account and amount of the withdrawal keyed `id`.
    pub fn get_request(&self, id: u64) -> (r: Option<(u64, i128)>)
        ensures
            ({
                let i = withdrawal_index(self@, id);
                match r {
                    Some(p) => i >= 0 && p.0 == self@[i].account_id && p.1 == self@[i].amount,
                    None => i == -1,
                }
            }),
    {
        match self.find(id) {
            Some(i) => Some((self.requests[i].account_id, self.requests[i].amount)),
            None => None,
        }
    }

    /// Records a withdrawal in the given starting status and returns its
    /// key.  A negative amount is rejected, and a full key space reports
    /// `Overflow`.
    pub fn create(
        &mut self,
        account_id: u64,
        amount: i128,
        destination_address: String,
        status: WithdrawalStatus,
    ) -> (r: Result<u64, EngineError>)
        ensures
            ({
                match r {
                    Ok(id) => {
                        &&& amount >= 0
                        &&& old(self).spec_next_withdrawal_id() < u64::MAX
                        &&& id == old(self).spec_next_withdrawal_id()
                        &&& final(self)@ == old(self)@.push(
                            WithdrawalRequest {
                                id,
                                account_id,
                                amount,
                                destination_address,
                                status,
                                attempts_made: 0,
                            },
                        )
                        &&& final(self).spec_next_withdrawal_id() == old(
                            self,
                        ).spec_next_withdrawal_id() + 1
                    },
                    Err(e) => {
                        &&& final(self)@ == old(self)@ && final(self).spec_next_withdrawal_id()
                            == old(self).spec_next_withdrawal_id()
                        &&& (e == EngineError::Validation <==> amount < 0)
                        &&& (e == EngineError::Overflow <==> amount >= 0 && old(
                            self,
                        ).spec_next_withdrawal_id() == u64::MAX)
                    },
                }
            }),
            r is Ok <==> amount >= 0 && old(self).spec_next_withdrawal_id() < u64::MAX,
    {
        proof {
            use_type_invariant(&*self);
        }
        if amount < 0 {
            return Err(EngineError::Validation);
        }
        if self.next_withdrawal_id == u64::MAX {
            return Err(EngineError::Overflow);
        }
        let id = self.next_withdrawal_id;
        let w = WithdrawalRequest {
            id,
            account_id,
            amount,
            destination_address,
            status,
            attempts_made: 0,
        };
        let mut requests: Vec<WithdrawalRequest> = Vec::new();
        std::mem::swap(&mut requests, &mut self.requests);
        requests.push(w);
        self.next_withdrawal_id = id + 1;
        self.requests = requests;
        Ok(id)
    }

    /// Moves the withdrawal keyed `id` from `expect` to `to`; any other
    /// current status is a lost race and fails with `Conflict`.
    pub fn transition(
        &mut self,
        id: u64,
        expect: WithdrawalStatus,
        to: WithdrawalStatus,
    ) -> (r: Result<(), EngineError>)
        ensures
            ({
                let i = withdrawal_index(old(self)@, id);
                match r {
                    Ok(()) => i >= 0 && old(self)@[i].status == expect && final(self)@ == old(
                        self,
                    )@.update(i, WithdrawalRequest { status: to, ..old(self)@[i] }),
                    Err(e) => e == EngineError::Conflict && final(self)@ == old(self)@ && (i
                        == -1 || old(self)@[i].status != expect),
                }
            }),
            final(self).spec_next_withdrawal_id() == old(self).spec_next_withdrawal_id(),
    {
        proof {
            use_type_invariant(&*self);
        }
        let i = match self.find(id) {
            None => {
                return Err(EngineError::Conflict);
            },
            Some(i) => i,
        };
        if !(self.requests[i].status == expect) {
            return Err(EngineError::Conflict);
        }
        let ghost s = self@;
        let mut requests: Vec<WithdrawalRequest> = Vec::new();
        std::mem::swap(&mut requests, &mut self.requests);
        requests[i].status = to;
        proof {
            let s2 = s.update(i as int, WithdrawalRequest { status: to, ..s[i as int] });
            assert(requests@ == s2);
            assert forall|x: int| 0 <= x < s2.len() implies (#[trigger] s2[x]).id == s[x].id
                && s2[x].amount >= 0 by {
                if x != i as int {
                    assert(s2[x] == s[x]);
                }
            }
        }
        self.requests = requests;
        Ok(())
    }

    /// Applies one confirmation observation to the withdrawal keyed `id` and
    /// returns the directed action; an unknown key fails with `Validation`.
    pub fn step_observation(
        &mut self,
        id: u64,
        obs: &ChainObservation,
        cfg: &EngineConfig,
    ) -> (r: Result<WithdrawalAction, EngineError>)
        ensures
            ({
                let i = withdrawal_index(old(self)@, id);
                match r {
                    Err(e) => e == EngineError::Validation && i == -1 && final(self)@ == old(
                        self,
                    )@,
                    Ok(a) => i >= 0 && a == withdrawal_step_action(old(self)@[i], *obs, *cfg)
                        && final(self)@ == old(self)@.update(
                        i,
                        withdrawal_step_state(old(self)@[i], *obs, *cfg),
                    ),
                }
            }),
            final(self).spec_next_withdrawal_id() == old(self).spec_next_withdrawal_id(),
    {
        proof {
            use_type_invariant(&*self);
        }
        let i = match self.find(id) {
            None => {
                return Err(EngineError::Validation);
            },
            Some(i) => i,
        };
        let ghost s = self@;
        let mut requests: Vec<WithdrawalRequest> = Vec::new();
        std::mem::swap(&mut requests, &mut self.requests);
        let a = withdrawal_step(&mut requests[i], obs, cfg);
        proof {
            let s2 = s.update(i as int, withdrawal_step_state(s[i as int], *obs, *cfg));
            assert(requests@ == s2);
            assert forall|x: int| 0 <= x < s2.len() implies (#[trigger] s2[x]).id == s[x].id
                && s2[x].amount >= 0 by {
                if x != i as int {
                    assert(s2[x] == s[x]);
                }
            }
        }
        self.requests = requests;
        Ok(a)
    }
}

} // verus!
