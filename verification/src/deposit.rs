use vstd::prelude::*;

use crate::config::EngineConfig;
use crate::errors::EngineError;
use crate::util::{first_where, lemma_first_where, lemma_first_where_is};

verus! {

/// Reconciliation state of one watched deposit: `Watching` until the
/// confirmation either succeeds or fails for good.
#[derive(Clone, Copy, Debug, PartialEq, Eq, Structural)]
pub enum DepositState {
    Watching,
    Confirmed,
    Failed,
}

/// One watched inbound transfer, keyed uniquely by its transaction hash.
/// `expected_amount` is what the submitter announced; the credited amount
/// comes from the decoded transfer event instead.
pub struct DepositAttempt {
    pub tx_hash: String,
    pub expected_amount: Option<i128>,
    pub state: DepositState,
    pub attempts_made: u32,
}

/// A transfer event decoded from a receipt: sender, recipient, and value in
/// chain-native units.
pub struct TransferEvent {
    pub from: String,
    pub to: String,
    pub value: u128,
}

/// What one poll of the chain client observed.  The poller gathers the
/// receipt lookup, the chain height and the decoded transfer events into one
/// observation; any transient chain-client failure along the way is
/// `Transient`, distinguishable from a receipt that simply is not there yet.
pub enum ChainObservation {
    /// The chain client failed; nothing is known about the receipt.
    Transient,
    /// The node answered but knows no receipt for the hash yet.
    NoReceipt,
    /// A receipt, with the chain height read in the same poll and the
    /// decoded transfer event, if one was present.
    Receipt { block_number: Option<u64>, transfer: Option<TransferEvent>, current_height: u64 },
}

/// What the reconciler decides from one observation.
pub enum DepositAction {
    /// Credit the sender's account with the unit-scaled amount.
    Credit { sender: String, amount_minor: i128 },
    /// Still watching: poll again after the interval; one attempt consumed.
    Retry,
    /// The receipt is not buried deep enough yet: poll again without
    /// consuming an attempt.
    Wait,
    /// The confirmation failed for good, with the reason.
    Fail { error: EngineError },
    /// The attempt had already resolved; nothing happens.
    Ignore,
}

/// Whether a receipt in block `block_number` is buried at least `threshold`
/// blocks deep when the chain stands at `current_height`.
pub open spec fn deep_enough(block_number: u64, current_height: u64, threshold: u64) -> bool {
    current_height >= block_number + threshold
}

/// The attempt after one observation is applied: still watching after a
/// transient miss with budget left, timed out when the budget is gone,
/// failed for good on a receipt that cannot ever confirm, confirmed on a
/// deep-enough receipt with a decodable transfer, and untouched in every
/// other case.
pub open spec fn deposit_step_state(
    d: DepositAttempt,
    obs: ChainObservation,
    cfg: EngineConfig,
) -> DepositAttempt {
    if !(d.state is Watching) {
        d
    } else {
        match obs {
            ChainObservation::Transient => deposit_consume_attempt(d, cfg),
            ChainObservation::NoReceipt => deposit_consume_attempt(d, cfg),
            ChainObservation::Receipt { block_number, transfer, current_height } => {
                match block_number {
                    None => DepositAttempt { state: DepositState::Failed, ..d },
                    Some(b) => {
                        if !deep_enough(b, current_height, cfg.spec_confirmation_threshold()) {
                            d
                        } else {
                            match transfer {
                                None => DepositAttempt { state: DepositState::Failed, ..d },
                                Some(ev) => {
                                    if ev.value / cfg.spec_unit_scaling() > i128::MAX as u128 {
                                        DepositAttempt { state: DepositState::Failed, ..d }
                                    } else {
                                        DepositAttempt { state: DepositState::Confirmed, ..d }
                                    }
                                },
                            }
                        }
                    },
                }
            },
        }
    }
}

/// A transient miss burns one attempt; with the budget used up the attempt
/// fails for good.
pub open spec fn deposit_consume_attempt(d: DepositAttempt, cfg: EngineConfig) -> DepositAttempt {
    if d.attempts_made >= cfg.spec_max_attempts() {
        DepositAttempt { state: DepositState::Failed, ..d }
    } else if d.attempts_made + 1 >= cfg.spec_max_attempts() {
        DepositAttempt {
            state: DepositState::Failed,
            attempts_made: (d.attempts_made + 1) as u32,
            ..d
        }
    } else {
        DepositAttempt { attempts_made: (d.attempts_made + 1) as u32, ..d }
    }
}

/// The action one observation directs, matching `deposit_step_state`.
pub open spec fn deposit_step_action(
    d: DepositAttempt,
    obs: ChainObservation,
    cfg: EngineConfig,
) -> DepositAction {
    if !(d.state is Watching) {
        DepositAction::Ignore
    } else {
        match obs {
            ChainObservation::Transient => deposit_consume_action(d, cfg),
            ChainObservation::NoReceipt => deposit_consume_action(d, cfg),
            ChainObservation::Receipt { block_number, transfer, current_height } => {
                match block_number {
                    None => DepositAction::Fail { error: EngineError::MalformedReceipt },
                    Some(b) => {
                        if !deep_enough(b, current_height, cfg.spec_confirmation_threshold()) {
                            DepositAction::Wait
                        } else {
                            match transfer {
                                None => DepositAction::Fail {
                                    error: EngineError::EventNotEmitted,
                                },
                                Some(ev) => {
                                    if ev.value / cfg.spec_unit_scaling() > i128::MAX as u128 {
                                        DepositAction::Fail { error: EngineError::Overflow }
                                    } else {
                                        DepositAction::Credit {
                                            sender: ev.from,
                                            amount_minor: (ev.value
                                                / cfg.spec_unit_scaling()) as i128,
                                        }
                                    }
                                },
                            }
                        }
                    },
                }
            },
        }
    }
}

/// The action that goes with `deposit_consume_attempt`.
pub open spec fn deposit_consume_action(d: DepositAttempt, cfg: EngineConfig) -> DepositAction {
    if d.attempts_made >= cfg.spec_max_attempts() || d.attempts_made + 1
        >= cfg.spec_max_attempts() {
        DepositAction::Fail { error: EngineError::ConfirmationTimeout }
    } else {
        DepositAction::Retry
    }
}

/// A resolved deposit attempt never moves again and never directs another
/// credit: whatever else the confirmation task observes for that hash, the
/// attempt stays as it is and the action is to ignore it — the ledger is
/// credited at most once per transaction hash.
pub proof fn lemma_deposit_credits_at_most_once(
    d: DepositAttempt,
    obs: ChainObservation,
    cfg: EngineConfig,
)
    requires
        !(d.state is Watching),
    ensures
        deposit_step_state(d, obs, cfg) == d,
        deposit_step_action(d, obs, cfg) is Ignore,
{
}

/// A credit is directed only on the step that moves a watching attempt to
/// `Confirmed`; every other step directs none.
pub proof fn lemma_credit_only_when_confirming(
    d: DepositAttempt,
    obs: ChainObservation,
    cfg: EngineConfig,
)
    ensures
        deposit_step_action(d, obs, cfg) is Credit ==> d.state is Watching
            && deposit_step_state(d, obs, cfg).state is Confirmed,
{
}

/// Applies one observation to the attempt and returns the directed action.
pub fn deposit_step(
    attempt: &mut DepositAttempt,
    obs: &ChainObservation,
    cfg: &EngineConfig,
) -> (a: DepositAction)
    ensures
        *final(attempt) == deposit_step_state(*old(attempt), *obs, *cfg),
        a == deposit_step_action(*old(attempt), *obs, *cfg),
{
    if !(attempt.state == DepositState::Watching) {
        return DepositAction::Ignore;
    }
    let max_attempts = cfg.max_attempts();
    match obs {
        ChainObservation::Transient | ChainObservation::NoReceipt => {
            if attempt.attempts_made >= max_attempts {
                attempt.state = DepositState::Failed;
                DepositAction::Fail { error: EngineError::ConfirmationTimeout }
            } else if attempt.attempts_made + 1 >= max_attempts {
                attempt.attempts_made = attempt.attempts_made + 1;
                attempt.state = DepositState::Failed;
                DepositAction::Fail { error: EngineError::ConfirmationTimeout }
            } else {
                attempt.attempts_made = attempt.attempts_made + 1;
                DepositAction::Retry
            }
        },
        ChainObservation::Receipt { block_number, transfer, current_height } => {
            let b = match block_number {
                None => {
                    attempt.state = DepositState::Failed;
                    return DepositAction::Fail { error: EngineError::MalformedReceipt };
                },
                Some(b) => *b,
            };
            if *current_height < b || *current_height - b < cfg.confirmation_threshold() {
                return DepositAction::Wait;
            }
            match transfer {
                None => {
                    attempt.state = DepositState::Failed;
                    DepositAction::Fail { error: EngineError::EventNotEmitted }
                },
                Some(ev) => {
                    let scaled = ev.value / cfg.unit_scaling();
                    if scaled > i128::MAX as u128 {
                        attempt.state = DepositState::Failed;
                        DepositAction::Fail { error: EngineError::Overflow }
                    } else {
                        attempt.state = DepositState::Confirmed;
                        DepositAction::Credit {
                            sender: ev.from.clone(),
                            amount_minor: scaled as i128,
                        }
                    }
                },
            }
        },
    }
}

/// Index of the attempt watching `hash`, or `-1`.
pub open spec fn deposit_index(s: Seq<DepositAttempt>, hash: Seq<char>) -> int {
    first_where(s, |d: DepositAttempt| d.tx_hash@ == hash)
}

/// No two attempts watch the same hash.
pub open spec fn deposits_wf(s: Seq<DepositAttempt>) -> bool {
    forall|i: int, j: int|
        0 <= i < j < s.len() ==> (#[trigger] s[i]).tx_hash@ != (#[trigger] s[j]).tx_hash@
}

/// The registry of watched deposits, keyed uniquely by transaction hash.
/// The key is unique by construction, so a hash can resolve — and credit —
/// at most once however often it is submitted or observed.
pub struct DepositBook {
    attempts: Vec<DepositAttempt>,
}

impl View for DepositBook {
    type V = Seq<DepositAttempt>;

    closed spec fn view(&self) -> Seq<DepositAttempt> {
        self.attempts@
    }
}

impl DepositBook {
    #[verifier::type_invariant]
    pub closed spec fn wf(&self) -> bool {
        deposits_wf(self.attempts@)
    }

    /// An empty registry.
    pub fn new() -> (b: DepositBook)
        ensures
            b@ == Seq::<DepositAttempt>::empty(),
    {
        DepositBook { attempts: Vec::new() }
    }

    /// Index of the attempt watching `tx_hash`, if any.
    fn find(&self, tx_hash: &String) -> (r: Option<usize>)
        ensures
            match r {
                Some(i) => i == deposit_index(self@, tx_hash@) && i < self@.len(),
                None => deposit_index(self@, tx_hash@) == -1,
            },
    {
        let ghost p = |d: DepositAttempt| d.tx_hash@ == tx_hash@;
        let n = self.attempts.len();
        for i in 0..n
            invariant
                forall|j: int| 0 <= j < i ==> !p(#[trigger] self@[j]),
        {
            if self.attempts[i].tx_hash == *tx_hash {
                proof {
                    lemma_first_where_is(self@, p, i as int);
                }
                return Some(i);
            }
        }
        proof {
            lemma_first_where(self@, p);
        }
        None
    }

    /// The state of the attempt watching `tx_hash`, for status queries.
    pub fn get_state(&self, tx_hash: &String) -> (r: Option<DepositState>)
        ensures
            ({
                let i = deposit_index(self@, tx_hash@);
                match r {
                    Some(st) => i >= 0 && st == self@[i].state,
                    None => i == -1,
                }
            }),
    {
        match self.find(tx_hash) {
            Some(i) => Some(self.attempts[i].state),
            None => None,
        }
    }

    /// Starts watching `tx_hash`; registering a hash that is already watched
    /// is a lost race and fails with `Conflict`, leaving everything as it
    /// was — the uniqueness that makes crediting at-most-once.
    pub fn register(&mut self, tx_hash: String, expected_amount: i128) -> (r: Result<
        (),
        EngineError,
    >)
        ensures
            ({
                let i = deposit_index(old(self)@, tx_hash@);
                match r {
                    Ok(()) => i == -1 && final(self)@ == old(self)@.push(
                        DepositAttempt {
                            tx_hash,
                            expected_amount: Some(expected_amount),
                            state: DepositState::Watching,
                            attempts_made: 0,
                        },
                    ),
                    Err(e) => e == EngineError::Conflict && i >= 0 && final(self)@ == old(
                        self,
                    )@,
                }
            }),
    {
        proof {
            use_type_invariant(&*self);
        }
        match self.find(&tx_hash) {
            Some(_) => Err(EngineError::Conflict),
            None => {
                let ghost s = self@;
                let attempt = DepositAttempt {
                    tx_hash,
                    expected_amount: Some(expected_amount),
                    state: DepositState::Watching,
                    attempts_made: 0,
                };
                let mut attempts: Vec<DepositAttempt> = Vec::new();
                std::mem::swap(&mut attempts, &mut self.attempts);
                attempts.push(attempt);
                proof {
                    crate::util::lemma_first_where(
                        s,
                        |d: DepositAttempt| d.tx_hash@ == attempts@[s.len() as int].tx_hash@,
                    );
                    assert forall|i: int, j: int|
                        0 <= i < j < attempts@.len() implies (#[trigger] attempts@[i]).tx_hash@
                        != (#[trigger] attempts@[j]).tx_hash@ by {
                        if j < s.len() {
                            assert(attempts@[i] == s[i] && attempts@[j] == s[j]);
                        } else {
                            assert(attempts@[i] == s[i]);
                        }
                    }
                }
                self.attempts = attempts;
                Ok(())
            },
        }
    }

    /// Applies one observation to the attempt watching `tx_hash` and returns
    /// the directed action; an unknown hash fails with `Validation`.
    pub fn step_observation(
        &mut self,
        tx_hash: &String,
        obs: &ChainObservation,
        cfg: &EngineConfig,
    ) -> (r: Result<DepositAction, EngineError>)
        ensures
            ({
                let i = deposit_index(old(self)@, tx_hash@);
                match r {
                    Err(e) => e == EngineError::Validation && i == -1 && final(self)@ == old(
                        self,
                    )@,
                    Ok(a) => i >= 0 && a == deposit_step_action(old(self)@[i], *obs, *cfg)
                        && final(self)@ == old(self)@.update(
                        i,
                        deposit_step_state(old(self)@[i], *obs, *cfg),
                    ),
                }
            }),
    {
        proof {
            use_type_invariant(&*self);
        }
        let i = match self.find(tx_hash) {
            None => {
                return Err(EngineError::Validation);
            },
            Some(i) => i,
        };
        let ghost s = self@;
        let mut attempts: Vec<DepositAttempt> = Vec::new();
        std::mem::swap(&mut attempts, &mut self.attempts);
        let a = deposit_step(&mut attempts[i], obs, cfg);
        proof {
            let s2 = s.update(i as int, deposit_step_state(s[i as int], *obs, *cfg));
            assert(attempts@ == s2);
            assert(s2[i as int].tx_hash@ == s[i as int].tx_hash@);
            assert forall|x: int, y: int|
                0 <= x < y < s2.len() implies (#[trigger] s2[x]).tx_hash@ != (
            #[trigger] s2[y]).tx_hash@ by {
                assert(s2[x].tx_hash@ == s[x].tx_hash@ && s2[y].tx_hash@ == s[y].tx_hash@);
            }
        }
        self.attempts = attempts;
        Ok(a)
    }
}

} // verus!
