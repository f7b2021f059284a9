//! The decisions of a trading-readiness check, as a state machine.
//!
//! The caller performs each [`ChainAction`] against the chain and feeds back
//! what came of it as a [`ChainEvent`], until the action is `Finish`.
use vstd::prelude::*;

verus! {

/// The least collateral allowance to the exchange that counts as granted:
/// one unit, in millionths.
pub const MIN_ALLOWANCE: u128 = 1_000_000;

/// Why a wallet is not ready to trade.
#[derive(Debug)]
pub enum ReadinessError {
    /// A chain read or transaction failed; the cause as the chain client gave it.
    ChainError(String),
    /// The collateral balance is below what was asked for.
    InsufficientBalance { need: u128, have: u128 },
    /// A contract wallet has not granted the exchange its collateral allowance.
    AllowanceMissing,
    /// A contract wallet has not approved the exchange for its positions.
    ApprovalMissing,
    /// A reply came that the check was not waiting for.
    UnexpectedReply,
}

/// Where a readiness check stands: what it waits for.
#[derive(Clone, Copy, Debug, PartialEq, Eq, Structural)]
pub enum Stage {
    AwaitBalance,
    AwaitCode,
    /// Contract wallet: waiting for the collateral allowance.
    AwaitContractAllowance,
    /// Contract wallet: waiting for the position approval flag.
    AwaitContractApproval,
    /// Plain account: waiting for the collateral allowance.
    AwaitAllowance,
    AwaitApproveReceipt,
    /// Plain account: waiting for the position approval flag.
    AwaitApproval,
    AwaitApprovalReceipt,
    Finished,
}

/// What the chain gave back for the last action.
#[derive(Debug)]
pub enum ChainEvent {
    /// The wallet's collateral balance.
    Balance(u128),
    /// The bytecode at the wallet's address; empty for a plain account.
    Code(Vec<u8>),
    /// The wallet's collateral allowance to the exchange.
    Allowance(u128),
    /// Whether the exchange may move the wallet's positions.
    ApprovedForAll(bool),
    /// The transaction that was sent has been included.
    Confirmed,
    /// The read or the transaction failed.
    Failed(String),
}

/// What the caller does next.
#[derive(Debug)]
pub enum ChainAction {
    /// Read the wallet's collateral balance.
    ReadBalance,
    /// Read the bytecode at the wallet's address.
    ReadCode,
    /// Read the wallet's collateral allowance to the exchange.
    ReadAllowance,
    /// Read whether the exchange is approved for the wallet's positions.
    ReadApprovalForAll,
    /// Approve the exchange for the largest collateral amount, and wait for
    /// inclusion.
    SendApprove,
    /// Approve the exchange for all positions, and wait for inclusion.
    SendSetApprovalForAll,
    /// The check is over, with this outcome.
    Finish(Result<(), ReadinessError>),
}

/// A readiness check in progress.
#[derive(Clone, Copy, Debug)]
pub struct ReadinessCheck {
    /// The collateral that the wallet must hold, in millionths.
    pub required: u128,
    pub stage: Stage,
}

/// The next stage and action of a check that needs `required`, stands at
/// `stage` and is told `event`.
pub open spec fn transition(required: u128, stage: Stage, event: ChainEvent) -> (Stage, ChainAction) {
    match (stage, event) {
        (Stage::Finished, _) => (
            Stage::Finished,
            ChainAction::Finish(Err(ReadinessError::UnexpectedReply)),
        ),
        (_, ChainEvent::Failed(msg)) => (
            Stage::Finished,
            ChainAction::Finish(Err(ReadinessError::ChainError(msg))),
        ),
        (Stage::AwaitBalance, ChainEvent::Balance(have)) => if have < required {
            (
                Stage::Finished,
                ChainAction::Finish(
                    Err(ReadinessError::InsufficientBalance { need: required, have }),
                ),
            )
        } else {
            (Stage::AwaitCode, ChainAction::ReadCode)
        },
        (Stage::AwaitCode, ChainEvent::Code(code)) => if code@.len() > 0 {
            (Stage::AwaitContractAllowance, ChainAction::ReadAllowance)
        } else {
            (Stage::AwaitAllowance, ChainAction::ReadAllowance)
        },
        (Stage::AwaitContractAllowance, ChainEvent::Allowance(a)) => if a < MIN_ALLOWANCE {
            (Stage::Finished, ChainAction::Finish(Err(ReadinessError::AllowanceMissing)))
        } else {
            (Stage::AwaitContractApproval, ChainAction::ReadApprovalForAll)
        },
        (Stage::AwaitContractApproval, ChainEvent::ApprovedForAll(ok)) => if ok {
            (Stage::Finished, ChainAction::Finish(Ok(())))
        } else {
            (Stage::Finished, ChainAction::Finish(Err(ReadinessError::ApprovalMissing)))
        },
        (Stage::AwaitAllowance, ChainEvent::Allowance(a)) => if a < MIN_ALLOWANCE {
            (Stage::AwaitApproveReceipt, ChainAction::SendApprove)
        } else {
            (Stage::AwaitApproval, ChainAction::ReadApprovalForAll)
        },
        (Stage::AwaitApproveReceipt, ChainEvent::Confirmed) => (
            Stage::AwaitApproval,
            ChainAction::ReadApprovalForAll,
        ),
        (Stage::AwaitApproval, ChainEvent::ApprovedForAll(ok)) => if ok {
            (Stage::Finished, ChainAction::Finish(Ok(())))
        } else {
            (Stage::AwaitApprovalReceipt, ChainAction::SendSetApprovalForAll)
        },
        (Stage::AwaitApprovalReceipt, ChainEvent::Confirmed) => (
            Stage::Finished,
            ChainAction::Finish(Ok(())),
        ),
        _ => (Stage::Finished, ChainAction::Finish(Err(ReadinessError::UnexpectedReply))),
    }
}

/// The actions that a check issues when it is told `events` in turn.
pub open spec fn actions(required: u128, stage: Stage, events: Seq<ChainEvent>) -> Seq<ChainAction>
    decreases events.len(),
{
    if events.len() == 0 {
        Seq::empty()
    } else {
        let (next, act) = transition(required, stage, events[0]);
        seq![act] + actions(required, next, events.drop_first())
    }
}

/// How many approve transactions (`approve`), or set-approval-for-all
/// transactions (`!approve`), a check sends when it is told `events` in turn.
pub open spec fn sent(required: u128, stage: Stage, events: Seq<ChainEvent>, approve: bool) -> nat
    decreases events.len(),
{
    if events.len() == 0 {
        0
    } else {
        let (next, act) = transition(required, stage, events[0]);
        (if (approve && act is SendApprove) || (!approve && act is SendSetApprovalForAll) {
            1nat
        } else {
            0nat
        }) + sent(required, next, events.drop_first(), approve)
    }
}

/// How many approve transactions a check may still send from `stage`.
pub open spec fn approve_budget(stage: Stage) -> nat {
    match stage {
        Stage::AwaitBalance | Stage::AwaitCode | Stage::AwaitAllowance => 1,
        _ => 0,
    }
}

/// How many set-approval-for-all transactions a check may still send from
/// `stage`.
pub open spec fn approval_budget(stage: Stage) -> nat {
    match stage {
        Stage::AwaitBalance | Stage::AwaitCode | Stage::AwaitAllowance
        | Stage::AwaitApproveReceipt | Stage::AwaitApproval => 1,
        _ => 0,
    }
}

proof fn lemma_within_budget(required: u128, stage: Stage, events: Seq<ChainEvent>)
    ensures
        sent(required, stage, events, true) <= approve_budget(stage),
        sent(required, stage, events, false) <= approval_budget(stage),
    decreases events.len(),
{
    if events.len() > 0 {
        let (next, act) = transition(required, stage, events[0]);
        lemma_within_budget(required, next, events.drop_first());
    }
}

proof fn lemma_finished_only_finishes(required: u128, events: Seq<ChainEvent>)
    ensures
        forall|i: int|
            0 <= i < actions(required, Stage::Finished, events).len() ==> (#[trigger] actions(
                required,
                Stage::Finished,
                events,
            )[i]) is Finish,
    decreases events.len(),
{
    if events.len() > 0 {
        lemma_finished_only_finishes(required, events.drop_first());
        let rest = actions(required, Stage::Finished, events.drop_first());
        let all = actions(required, Stage::Finished, events);
        assert forall|i: int| 0 <= i < all.len() implies (#[trigger] all[i]) is Finish by {
            if i > 0 {
                assert(all[i] == rest[i - 1]);
            }
        }
    }
}

/// A balance at or above what is required passes the balance check, which
/// goes on to read the wallet's code. A balance below it ends the check with
/// `InsufficientBalance`, and no allowance is read afterwards, whatever the
/// chain replies.
pub proof fn balance_gate(required: u128, have: u128, later: Seq<ChainEvent>)
    ensures
        have >= required ==> transition(required, Stage::AwaitBalance, ChainEvent::Balance(have))
            == (Stage::AwaitCode, ChainAction::ReadCode),
        have < required ==> {
            let acts = actions(
                required,
                Stage::AwaitBalance,
                seq![ChainEvent::Balance(have)] + later,
            );
            &&& acts[0] == ChainAction::Finish(
                Err(ReadinessError::InsufficientBalance { need: required, have }),
            )
            &&& forall|i: int| 0 <= i < acts.len() ==> !((#[trigger] acts[i]) is ReadAllowance)
        },
{
    if have < required {
        let events = seq![ChainEvent::Balance(have)] + later;
        assert(events.drop_first() =~= later);
        assert(events[0] == ChainEvent::Balance(have));
        lemma_finished_only_finishes(required, later);
        let acts = actions(required, Stage::AwaitBalance, events);
        let rest = actions(required, Stage::Finished, later);
        assert forall|i: int| 0 <= i < acts.len() implies !((#[trigger] acts[i]) is ReadAllowance) by {
            if i > 0 {
                assert(acts[i] == rest[i - 1]);
            }
        }
    }
}

/// Whatever the chain replies, a check sends at most one approve transaction
/// and at most one set-approval-for-all transaction.
pub proof fn at_most_one_write_each(required: u128, events: Seq<ChainEvent>)
    ensures
        sent(required, Stage::AwaitBalance, events, true) <= 1,
        sent(required, Stage::AwaitBalance, events, false) <= 1,
{
    lemma_within_budget(required, Stage::AwaitBalance, events);
}

/// A check sends an approve transaction only after an allowance read below
/// the minimum, and a set-approval-for-all transaction only after an approval
/// read that came back false.
pub proof fn writes_only_for_missing_grants(required: u128, stage: Stage, events: Seq<ChainEvent>)
    ensures
        (forall|i: int|
            0 <= i < events.len() ==> (#[trigger] events[i] matches ChainEvent::Allowance(a) ==> a
                >= MIN_ALLOWANCE)) ==> sent(required, stage, events, true) == 0,
        (forall|i: int|
            0 <= i < events.len() ==> !(#[trigger] events[i] == ChainEvent::ApprovedForAll(false)))
            ==> sent(required, stage, events, false) == 0,
    decreases events.len(),
{
    if events.len() > 0 {
        let (next, act) = transition(required, stage, events[0]);
        let rest = events.drop_first();
        writes_only_for_missing_grants(required, next, rest);
        assert forall|i: int| 0 <= i < rest.len() implies #[trigger] rest[i] == events[i + 1] by {}
    }
}

/// Once the wallet's code shows a contract wallet, the check sends no
/// transaction, whatever the chain replies.
pub proof fn contract_wallet_never_writes(required: u128, events: Seq<ChainEvent>)
    requires
        events.len() >= 2,
        events[1] matches ChainEvent::Code(code) && code@.len() > 0,
    ensures
        sent(required, Stage::AwaitBalance, events, true) == 0,
        sent(required, Stage::AwaitBalance, events, false) == 0,
{
    let (s1, a1) = transition(required, Stage::AwaitBalance, events[0]);
    let rest = events.drop_first();
    assert(rest[0] == events[1]);
    let (s2, a2) = transition(required, s1, rest[0]);
    lemma_within_budget(required, s2, rest.drop_first());
    assert(sent(required, s1, rest, true) == 0);
    assert(sent(required, s1, rest, false) == 0);
}

/// A plain account that already holds the balance, the allowance and the
/// approval passes with reads alone: checking again after the approvals went
/// through sends nothing.
pub proof fn ready_account_is_read_only(
    required: u128,
    have: u128,
    code: Vec<u8>,
    allowance: u128,
)
    requires
        have >= required,
        code@.len() == 0,
        allowance >= MIN_ALLOWANCE,
    ensures
        ({
            let events = seq![
                ChainEvent::Balance(have),
                ChainEvent::Code(code),
                ChainEvent::Allowance(allowance),
                ChainEvent::ApprovedForAll(true),
            ];
            &&& actions(required, Stage::AwaitBalance, events) == seq![
                ChainAction::ReadCode,
                ChainAction::ReadAllowance,
                ChainAction::ReadApprovalForAll,
                ChainAction::Finish(Ok(())),
            ]
            &&& sent(required, Stage::AwaitBalance, events, true) == 0
            &&& sent(required, Stage::AwaitBalance, events, false) == 0
        }),
{
    let events = seq![
        ChainEvent::Balance(have),
        ChainEvent::Code(code),
        ChainEvent::Allowance(allowance),
        ChainEvent::ApprovedForAll(true),
    ];
    let e1 = events.drop_first();
    let e2 = e1.drop_first();
    let e3 = e2.drop_first();
    let e4 = e3.drop_first();
    assert(e4.len() == 0);
    assert(actions(required, Stage::Finished, e4) =~= Seq::<ChainAction>::empty());
    assert(actions(required, Stage::AwaitApproval, e3) =~= seq![ChainAction::Finish(Ok(()))]);
    assert(actions(required, Stage::AwaitAllowance, e2) =~= seq![
        ChainAction::ReadApprovalForAll,
        ChainAction::Finish(Ok(())),
    ]);
    assert(actions(required, Stage::AwaitCode, e1) =~= seq![
        ChainAction::ReadAllowance,
        ChainAction::ReadApprovalForAll,
        ChainAction::Finish(Ok(())),
    ]);
    assert(actions(required, Stage::AwaitBalance, events) =~= seq![
        ChainAction::ReadCode,
        ChainAction::ReadAllowance,
        ChainAction::ReadApprovalForAll,
        ChainAction::Finish(Ok(())),
    ]);
    assert(sent(required, Stage::Finished, e4, true) == 0);
    assert(sent(required, Stage::Finished, e4, false) == 0);
    assert(sent(required, Stage::AwaitApproval, e3, true) == 0);
    assert(sent(required, Stage::AwaitApproval, e3, false) == 0);
    assert(sent(required, Stage::AwaitAllowance, e2, true) == 0);
    assert(sent(required, Stage::AwaitAllowance, e2, false) == 0);
    assert(sent(required, Stage::AwaitCode, e1, true) == 0);
    assert(sent(required, Stage::AwaitCode, e1, false) == 0);
}

impl ReadinessCheck {
    /// A check that the wallet holds `required` and may trade; its first
    /// action reads the balance.
    pub fn start(required: u128) -> (r: (ReadinessCheck, ChainAction))
        ensures
            r.0.required == required,
            r.0.stage == Stage::AwaitBalance,
            r.1 is ReadBalance,
    {
        (ReadinessCheck { required, stage: Stage::AwaitBalance }, ChainAction::ReadBalance)
    }

    /// Whether the check is over.
    pub fn is_finished(&self) -> (r: bool)
        ensures
            r == (self.stage == Stage::Finished),
    {
        self.stage == Stage::Finished
    }

    /// Takes in what came of the last action and says what to do next.
    pub fn step(&mut self, event: ChainEvent) -> (a: ChainAction)
        ensures
            final(self).required == old(self).required,
            (final(self).stage, a) == transition(old(self).required, old(self).stage, event),
    {
        let ghost ev = event;
        let required = self.required;
        let (next, act) = match self.stage {
            Stage::Finished => (
                Stage::Finished,
                ChainAction::Finish(Err(ReadinessError::UnexpectedReply)),
            ),
            stage => match event {
                ChainEvent::Failed(msg) => (
                    Stage::Finished,
                    ChainAction::Finish(Err(ReadinessError::ChainError(msg))),
                ),
                ChainEvent::Balance(have) if stage == Stage::AwaitBalance => {
                    if have < required {
                        (
                            Stage::Finished,
                            ChainAction::Finish(
                                Err(ReadinessError::InsufficientBalance { need: required, have }),
                            ),
                        )
                    } else {
                        (Stage::AwaitCode, ChainAction::ReadCode)
                    }
                },
                ChainEvent::Code(code) if stage == Stage::AwaitCode => {
                    if code.len() > 0 {
                        (Stage::AwaitContractAllowance, ChainAction::ReadAllowance)
                    } else {
                        (Stage::AwaitAllowance, ChainAction::ReadAllowance)
                    }
                },
                ChainEvent::Allowance(a) if stage == Stage::AwaitContractAllowance => {
                    if a < MIN_ALLOWANCE {
                        (
                            Stage::Finished,
                            ChainAction::Finish(Err(ReadinessError::AllowanceMissing)),
                        )
                    } else {
                        (Stage::AwaitContractApproval, ChainAction::ReadApprovalForAll)
                    }
                },
                ChainEvent::ApprovedForAll(ok) if stage == Stage::AwaitContractApproval => {
                    if ok {
                        (Stage::Finished, ChainAction::Finish(Ok(())))
                    } else {
                        (
                            Stage::Finished,
                            ChainAction::Finish(Err(ReadinessError::ApprovalMissing)),
                        )
                    }
                },
                ChainEvent::Allowance(a) if stage == Stage::AwaitAllowance => {
                    if a < MIN_ALLOWANCE {
                        (Stage::AwaitApproveReceipt, ChainAction::SendApprove)
                    } else {
                        (Stage::AwaitApproval, ChainAction::ReadApprovalForAll)
                    }
                },
                ChainEvent::Confirmed if stage == Stage::AwaitApproveReceipt => {
                    (Stage::AwaitApproval, ChainAction::ReadApprovalForAll)
                },
                ChainEvent::ApprovedForAll(ok) if stage == Stage::AwaitApproval => {
                    if ok {
                        (Stage::Finished, ChainAction::Finish(Ok(())))
                    } else {
                        (Stage::AwaitApprovalReceipt, ChainAction::SendSetApprovalForAll)
                    }
                },
                ChainEvent::Confirmed if stage == Stage::AwaitApprovalReceipt => {
                    (Stage::Finished, ChainAction::Finish(Ok(())))
                },
                _ => (Stage::Finished, ChainAction::Finish(Err(ReadinessError::UnexpectedReply))),
            },
        };
        self.stage = next;
        act
    }
}

} // verus!
