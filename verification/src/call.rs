//! The values that pass between a contract and its host: what the host says
//! about a call, what a dependent call looks like and how it ended, and where
//! an operation stands at the end of a turn.

use crate::error::BridgeError;
use crate::log::{LogRecord, LogView};
use vstd::prelude::*;

verus! {

/// An amount of the computational budget that a call carries.
pub type Gas = u64;

/// What the host reports about the call that is being served.
#[derive(Clone, Debug, PartialEq, Eq)]
pub struct Context {
    /// The account that made this call.
    pub predecessor: String,
    /// The account of the contract that serves it.
    pub current: String,
    /// The native value that came with the call.
    pub attached_deposit: u128,
}

/// How a dependent call ended. The continuation sees nothing else of it.
#[derive(Clone, Debug, PartialEq, Eq)]
pub enum CallOutcome {
    /// The call returned, with these bytes.
    Success(Vec<u8>),
    /// The call failed.
    Failure,
}

/// An entry point of another contract, with its arguments.
#[derive(Clone, Debug, PartialEq, Eq)]
pub enum RemoteCall {
    /// A wrapped ledger credits `receiver_id`.
    SwapIn { receiver_id: String, amount: u128 },
    /// The native pool pays `receiver_id`.
    SwapInNative { receiver_id: String, amount: u128 },
    /// A wrapped ledger destroys what `account_id` holds.
    Burn { account_id: String, amount: u128 },
    /// A wrapped ledger reports the asset it is bound to.
    Underlying,
    /// An asset contract moves `amount` from the caller to `receiver_id`.
    FtTransfer { receiver_id: String, amount: u128, memo: Option<String> },
}

pub ghost enum RemoteCallView {
    SwapIn { receiver_id: Seq<char>, amount: u128 },
    SwapInNative { receiver_id: Seq<char>, amount: u128 },
    Burn { account_id: Seq<char>, amount: u128 },
    Underlying,
    FtTransfer { receiver_id: Seq<char>, amount: u128, memo: Option<Seq<char>> },
}

impl View for RemoteCall {
    type V = RemoteCallView;

    open spec fn view(&self) -> RemoteCallView {
        match *self {
            RemoteCall::SwapIn { receiver_id, amount } => RemoteCallView::SwapIn {
                receiver_id: receiver_id@,
                amount,
            },
            RemoteCall::SwapInNative { receiver_id, amount } => RemoteCallView::SwapInNative {
                receiver_id: receiver_id@,
                amount,
            },
            RemoteCall::Burn { account_id, amount } => RemoteCallView::Burn { account_id: account_id@, amount },
            RemoteCall::Underlying => RemoteCallView::Underlying,
            RemoteCall::FtTransfer { receiver_id, amount, memo } => RemoteCallView::FtTransfer {
                receiver_id: receiver_id@,
                amount,
                memo: match memo {
                    Some(text) => Some(text@),
                    None => None,
                },
            },
        }
    }
}

/// What leaves the contract when an operation is suspended.
#[derive(Clone, Debug, PartialEq, Eq)]
pub enum Outgoing {
    /// A call of `method` on `contract`, with a deposit and a budget.
    Call { contract: String, method: RemoteCall, deposit: u128, gas: u64 },
    /// A plain transfer of native value.
    Transfer { receiver_id: String, amount: u128 },
}

pub ghost enum OutgoingView {
    Call { contract: Seq<char>, method: RemoteCallView, deposit: u128, gas: u64 },
    Transfer { receiver_id: Seq<char>, amount: u128 },
}

impl View for Outgoing {
    type V = OutgoingView;

    open spec fn view(&self) -> OutgoingView {
        match *self {
            Outgoing::Call { contract, method, deposit, gas } => OutgoingView::Call {
                contract: contract@,
                method: method@,
                deposit,
                gas,
            },
            Outgoing::Transfer { receiver_id, amount } => OutgoingView::Transfer {
                receiver_id: receiver_id@,
                amount,
            },
        }
    }
}

/// A dependent call together with the continuation that will see its outcome.
/// The continuation runs on the dispatching contract, without a deposit, in a
/// later turn.
#[derive(Clone, Debug, PartialEq, Eq)]
pub struct Dispatch<K> {
    pub first: Outgoing,
    pub callback: K,
    pub callback_gas: u64,
}

pub ghost struct DispatchView<KV> {
    pub first: OutgoingView,
    pub callback: KV,
    pub callback_gas: u64,
}

impl<K: View> View for Dispatch<K> {
    type V = DispatchView<K::V>;

    open spec fn view(&self) -> DispatchView<K::V> {
        DispatchView { first: self.first@, callback: self.callback@, callback_gas: self.callback_gas }
    }
}

/// Value that the host hands back when an operation is undone.
#[derive(Clone, Debug, PartialEq, Eq)]
pub enum Refund {
    /// Nothing leaves the contract.
    Nothing,
    /// Of the tokens that came with the call, this many are reported unused,
    /// so that their contract returns them to the sender.
    Unused(u128),
    /// Native value is transferred to `receiver_id`.
    Native { receiver_id: String, amount: u128 },
}

pub ghost enum RefundView {
    Nothing,
    Unused(u128),
    Native { receiver_id: Seq<char>, amount: u128 },
}

impl View for Refund {
    type V = RefundView;

    open spec fn view(&self) -> RefundView {
        match *self {
            Refund::Nothing => RefundView::Nothing,
            Refund::Unused(amount) => RefundView::Unused(amount),
            Refund::Native { receiver_id, amount } => RefundView::Native { receiver_id: receiver_id@, amount },
        }
    }
}

/// Where an operation stands when a turn ends without a refusal.
#[derive(Clone, Debug, PartialEq, Eq)]
pub enum Step<K> {
    /// A dependent call is under way; the operation goes on when it has ended.
    Awaiting(Dispatch<K>),
    /// The operation took effect.
    Committed { log: LogRecord },
    /// The operation was undone.
    RolledBack { log: LogRecord, refund: Refund },
}

pub ghost enum StepView<KV> {
    Awaiting(DispatchView<KV>),
    Committed { log: LogView },
    RolledBack { log: LogView, refund: RefundView },
}

impl<K: View> View for Step<K> {
    type V = StepView<K::V>;

    open spec fn view(&self) -> StepView<K::V> {
        match *self {
            Step::Awaiting(dispatch) => StepView::Awaiting(dispatch@),
            Step::Committed { log } => StepView::Committed { log: log@ },
            Step::RolledBack { log, refund } => StepView::RolledBack { log: log@, refund: refund@ },
        }
    }
}

/// A dispatching entry point returned what `expected` describes.
pub open spec fn dispatched<K: View>(
    got: Result<Dispatch<K>, BridgeError>,
    expected: Result<DispatchView<K::V>, BridgeError>,
) -> bool {
    match expected {
        Ok(dispatch) => got is Ok && got->Ok_0@ == dispatch,
        Err(error) => got == Err::<Dispatch<K>, BridgeError>(error),
    }
}

/// A turn ended as `expected` describes.
pub open spec fn stepped<K: View>(
    got: Result<Step<K>, BridgeError>,
    expected: Result<StepView<K::V>, BridgeError>,
) -> bool {
    match expected {
        Ok(step) => got is Ok && got->Ok_0@ == step,
        Err(error) => got == Err::<Step<K>, BridgeError>(error),
    }
}

/// The text of an optional string.
pub open spec fn optional_text(text: Option<String>) -> Option<Seq<char>> {
    match text {
        Some(text) => Some(text@),
        None => None,
    }
}

} // verus!
