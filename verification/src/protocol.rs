//! The balance transfer protocol: read both balances, admit or refuse the
//! transfer, then write the two new balances in order.
//!
//! The protocol runs detached from the precompile invocation that launched it
//! and suspends only at its network calls, so it is modelled as an explicit
//! state machine: each `step` consumes the outcome of the previous network
//! call and decides the next action. The driver that performs the actions
//! (the HTTP transport and the task it runs on) lives outside the library and
//! feeds the results back in as events.

use crate::calldata::{Address, TransferRequest};
use crate::uint256::{u256_bound, U256};
use vstd::arithmetic::div_mod::lemma_small_mod;
use vstd::prelude::*;

verus! {

/// The transfer is admitted exactly when the sender's balance covers it.
pub open spec fn sufficient(balance_from: nat, value: nat) -> bool {
    value <= balance_from
}

/// The sender's balance after the transfer is admitted.
pub open spec fn debited(balance_from: nat, value: nat) -> nat
    recommends
        sufficient(balance_from, value),
{
    (balance_from - value) as nat
}

/// The receiver's balance after the transfer: the credit wraps at 2^256, as
/// 256-bit register arithmetic does.
pub open spec fn credited(balance_to: nat, value: nat) -> nat {
    (balance_to + value) % u256_bound()
}

/// The two new balances of an admitted transfer. Only constructed once the
/// sender's balance is known to cover the value; otherwise no mutation is
/// planned at all.
#[derive(Clone, Copy, Debug, PartialEq, Eq, Structural)]
pub struct BalanceUpdatePlan {
    pub from_new: U256,
    pub to_new: U256,
}

impl BalanceUpdatePlan {
    /// The plan belongs to the given read balances and transfer value.
    pub open spec fn is_plan_for(&self, balance_from: nat, balance_to: nat, value: nat) -> bool {
        sufficient(balance_from, value) && self.from_new.as_nat() == debited(balance_from, value)
            && self.to_new.as_nat() == credited(balance_to, value)
    }
}

/// Computes the update plan, or nothing when the sender cannot cover the
/// value; no plan means no mutation is ever issued.
pub fn make_plan(balance_from: &U256, balance_to: &U256, value: &U256) -> (r: Option<
    BalanceUpdatePlan,
>)
    ensures
        r is Some <==> sufficient(balance_from.as_nat(), value.as_nat()),
        r matches Some(plan) ==> plan.is_plan_for(
            balance_from.as_nat(),
            balance_to.as_nat(),
            value.as_nat(),
        ),
{
    if balance_from.lt(value) {
        None
    } else {
        Some(
            BalanceUpdatePlan {
                from_new: balance_from.sub(value),
                to_new: balance_to.wrapping_add(value),
            },
        )
    }
}

/// One balance mutation sent to the node: set `address` to `new_balance`.
#[derive(Clone, Debug)]
pub struct SetBalanceCall {
    pub address: Address,
    pub new_balance: U256,
}

/// The mutation calls a transfer issues once both balances are read: none
/// when the sender cannot cover the value, else exactly the debit followed by
/// the credit.
pub fn mutation_calls(request: &TransferRequest, balance_from: &U256, balance_to: &U256) -> (r: Vec<
    SetBalanceCall,
>)
    ensures
        !sufficient(balance_from.as_nat(), request.value.as_nat()) ==> r@.len() == 0,
        sufficient(balance_from.as_nat(), request.value.as_nat()) ==> r@.len() == 2
            && r@[0].address.bytes@ == request.from.bytes@ && r@[0].new_balance.as_nat() == debited(
            balance_from.as_nat(),
            request.value.as_nat(),
        ) && r@[1].address.bytes@ == request.to.bytes@ && r@[1].new_balance.as_nat() == credited(
            balance_to.as_nat(),
            request.value.as_nat(),
        ),
{
    let mut calls: Vec<SetBalanceCall> = Vec::new();
    if !balance_from.lt(&request.value) {
        calls.push(
            SetBalanceCall {
                address: request.from.duplicate(),
                new_balance: balance_from.sub(&request.value),
            },
        );
        calls.push(
            SetBalanceCall {
                address: request.to.duplicate(),
                new_balance: balance_to.wrapping_add(&request.value),
            },
        );
    }
    calls
}

/// Why a transfer failed fatally.
#[derive(Clone, Copy, Debug, PartialEq, Eq, Structural)]
pub enum FailureKind {
    /// A balance query did not return a usable value; nothing was mutated.
    QueryFailed,
    /// The debit write failed; nothing was credited.
    DebitFailed,
    /// The debit write succeeded but the credit write failed: the sender has
    /// been debited and the receiver not credited, with no recovery path.
    PartiallyApplied,
}

/// How a transfer ends.
#[derive(Clone, Copy, Debug, PartialEq, Eq, Structural)]
pub enum TransferOutcome {
    Applied,
    InsufficientFunds,
    Failed(FailureKind),
}

/// Where the protocol stands between network calls.
#[derive(Clone, Copy, Debug, PartialEq, Eq, Structural)]
pub enum ProtocolState {
    /// Both balance queries are in flight.
    QueryingBalances,
    /// The debit write is in flight.
    Debiting { plan: BalanceUpdatePlan },
    /// The credit write is in flight.
    Crediting { plan: BalanceUpdatePlan },
    /// The protocol has finished.
    Done { outcome: TransferOutcome },
}

/// What the driver reports back after performing an action.
#[derive(Clone, Copy, Debug)]
pub enum ProtocolEvent {
    /// Both balance queries returned and parsed.
    BalancesRead { balance_from: U256, balance_to: U256 },
    /// A balance query failed in transport or parsing.
    QueryFailed,
    /// The write in flight was acknowledged.
    WriteOk,
    /// The write in flight failed.
    WriteFailed,
}

/// What the driver must do next.
#[derive(Clone, Debug)]
pub enum ProtocolAction {
    /// Query both balances; they may be queried in parallel.
    QueryBalances { from: Address, to: Address },
    /// Send one balance mutation.
    WriteBalance { call: SetBalanceCall },
    /// The protocol is finished; nothing further will be issued.
    Finish { outcome: TransferOutcome },
}

/// One detached transfer run: the request it serves and where it stands.
pub struct TransferProtocol {
    pub request: TransferRequest,
    pub state: ProtocolState,
}

impl TransferProtocol {
    /// The events each state can consume: read results while querying, write
    /// acknowledgements while writing, nothing once done.
    pub open spec fn expects(&self, event: ProtocolEvent) -> bool {
        match self.state {
            ProtocolState::QueryingBalances => event matches ProtocolEvent::BalancesRead {
                ..
            } || event is QueryFailed,
            ProtocolState::Debiting { .. } => event is WriteOk || event is WriteFailed,
            ProtocolState::Crediting { .. } => event is WriteOk || event is WriteFailed,
            ProtocolState::Done { .. } => false,
        }
    }

    /// Starts a transfer: the first action queries both balances.
    pub fn launch(request: TransferRequest) -> (r: (TransferProtocol, ProtocolAction))
        ensures
            r.0.request == request,
            r.0.state == ProtocolState::QueryingBalances,
            r.1 matches ProtocolAction::QueryBalances { from, to } && from.bytes@
                == request.from.bytes@ && to.bytes@ == request.to.bytes@,
    {
        let action = ProtocolAction::QueryBalances {
            from: request.from.duplicate(),
            to: request.to.duplicate(),
        };
        (TransferProtocol { request, state: ProtocolState::QueryingBalances }, action)
    }

    /// Consumes the result of the last network call and decides the next
    /// action: refuse an uncovered transfer without mutating, otherwise debit
    /// then credit, and end fatally on any query or write failure — a failed
    /// credit after a successful debit ends as `PartiallyApplied`.
    pub fn step(&mut self, event: &ProtocolEvent) -> (action: ProtocolAction)
        requires
            old(self).expects(*event),
        ensures
            final(self).request == old(self).request,
            match old(self).state {
                ProtocolState::QueryingBalances => match *event {
                    ProtocolEvent::BalancesRead { balance_from, balance_to } => {
                        let bf = balance_from.as_nat();
                        let bt = balance_to.as_nat();
                        let v = old(self).request.value.as_nat();
                        if !sufficient(bf, v) {
                            final(self).state == (ProtocolState::Done {
                                outcome: TransferOutcome::InsufficientFunds,
                            }) && action matches ProtocolAction::Finish {
                                outcome: TransferOutcome::InsufficientFunds,
                            }
                        } else {
                            (final(self).state matches ProtocolState::Debiting { plan }
                                && plan.is_plan_for(bf, bt, v)) && (action
                                matches ProtocolAction::WriteBalance { call } && call.address.bytes@
                                == old(self).request.from.bytes@ && call.new_balance.as_nat()
                                == debited(bf, v))
                        }
                    },
                    ProtocolEvent::QueryFailed => final(self).state == (ProtocolState::Done {
                        outcome: TransferOutcome::Failed(FailureKind::QueryFailed),
                    }) && action matches ProtocolAction::Finish {
                        outcome: TransferOutcome::Failed(FailureKind::QueryFailed),
                    },
                    _ => false,
                },
                ProtocolState::Debiting { plan } => match *event {
                    ProtocolEvent::WriteOk => final(self).state == (ProtocolState::Crediting { plan })
                        && (action matches ProtocolAction::WriteBalance { call }
                        && call.address.bytes@ == old(self).request.to.bytes@ && call.new_balance
                        == plan.to_new),
                    ProtocolEvent::WriteFailed => final(self).state == (ProtocolState::Done {
                        outcome: TransferOutcome::Failed(FailureKind::DebitFailed),
                    }) && action matches ProtocolAction::Finish {
                        outcome: TransferOutcome::Failed(FailureKind::DebitFailed),
                    },
                    _ => false,
                },
                ProtocolState::Crediting { .. } => match *event {
                    ProtocolEvent::WriteOk => final(self).state == (ProtocolState::Done {
                        outcome: TransferOutcome::Applied,
                    }) && action matches ProtocolAction::Finish {
                        outcome: TransferOutcome::Applied,
                    },
                    ProtocolEvent::WriteFailed => final(self).state == (ProtocolState::Done {
                        outcome: TransferOutcome::Failed(FailureKind::PartiallyApplied),
                    }) && action matches ProtocolAction::Finish {
                        outcome: TransferOutcome::Failed(FailureKind::PartiallyApplied),
                    },
                    _ => false,
                },
                ProtocolState::Done { .. } => false,
            },
    {
        let st = self.state;
        match st {
            ProtocolState::QueryingBalances => match *event {
                ProtocolEvent::BalancesRead { balance_from, balance_to } => {
                    if balance_from.lt(&self.request.value) {
                        self.state = ProtocolState::Done {
                            outcome: TransferOutcome::InsufficientFunds,
                        };
                        ProtocolAction::Finish { outcome: TransferOutcome::InsufficientFunds }
                    } else {
                        let plan = BalanceUpdatePlan {
                            from_new: balance_from.sub(&self.request.value),
                            to_new: balance_to.wrapping_add(&self.request.value),
                        };
                        self.state = ProtocolState::Debiting { plan };
                        ProtocolAction::WriteBalance {
                            call: SetBalanceCall {
                                address: self.request.from.duplicate(),
                                new_balance: plan.from_new,
                            },
                        }
                    }
                },
                ProtocolEvent::QueryFailed => {
                    self.state = ProtocolState::Done {
                        outcome: TransferOutcome::Failed(FailureKind::QueryFailed),
                    };
                    ProtocolAction::Finish {
                        outcome: TransferOutcome::Failed(FailureKind::QueryFailed),
                    }
                },
                _ => unreached(),
            },
            ProtocolState::Debiting { plan } => match *event {
                ProtocolEvent::WriteOk => {
                    self.state = ProtocolState::Crediting { plan };
                    ProtocolAction::WriteBalance {
                        call: SetBalanceCall {
                            address: self.request.to.duplicate(),
                            new_balance: plan.to_new,
                        },
                    }
                },
                ProtocolEvent::WriteFailed => {
                    self.state = ProtocolState::Done {
                        outcome: TransferOutcome::Failed(FailureKind::DebitFailed),
                    };
                    ProtocolAction::Finish {
                        outcome: TransferOutcome::Failed(FailureKind::DebitFailed),
                    }
                },
                _ => unreached(),
            },
            ProtocolState::Crediting { .. } => match *event {
                ProtocolEvent::WriteOk => {
                    self.state = ProtocolState::Done { outcome: TransferOutcome::Applied };
                    ProtocolAction::Finish { outcome: TransferOutcome::Applied }
                },
                ProtocolEvent::WriteFailed => {
                    self.state = ProtocolState::Done {
                        outcome: TransferOutcome::Failed(FailureKind::PartiallyApplied),
                    };
                    ProtocolAction::Finish {
                        outcome: TransferOutcome::Failed(FailureKind::PartiallyApplied),
                    }
                },
                _ => unreached(),
            },
            ProtocolState::Done { .. } => unreached(),
        }
    }
}

/// An admitted transfer conserves the total: the planned balances sum to the
/// read balances, stated where the credit does not wrap past 2^256.
pub proof fn lemma_transfer_conserves_total(balance_from: nat, balance_to: nat, value: nat)
    requires
        sufficient(balance_from, value),
        balance_to + value < u256_bound(),
    ensures
        debited(balance_from, value) + credited(balance_to, value) == balance_from + balance_to,
{
    lemma_small_mod((balance_to + value) as nat, u256_bound());
}

/// A self-transfer's two planned writes cancel arithmetically: the debit
/// removes exactly the value the credit adds, so the net planned change over
/// the one account's two writes is zero. (Stated where the credit does not
/// wrap; the writes still land sequentially, so the last one decides the
/// stored balance.)
pub proof fn lemma_self_transfer_cancels(balance: nat, value: nat)
    requires
        sufficient(balance, value),
        balance + value < u256_bound(),
    ensures
        balance - debited(balance, value) == value,
        credited(balance, value) - balance == value,
        debited(balance, value) + credited(balance, value) == balance + balance,
{
    lemma_small_mod((balance + value) as nat, u256_bound());
}

} // verus!
