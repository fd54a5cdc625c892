//! The router: inbound credits under the authority, outbound transfers, and
//! the continuations that settle them.

use crate::call::{
    dispatched, stepped, CallOutcome, Context, Dispatch, DispatchView, Outgoing, OutgoingView, Refund,
    RefundView, RemoteCall, RemoteCallView, Step, StepView,
};
use crate::authority::{AuthorityRegistry, AuthorityView};
use crate::error::BridgeError;
use crate::gas::{GasBudgetTable, GasView, BASE_GAS};
use crate::json::{decode_json_string, json_string};
use crate::log::{LogRecord, LogView};
use crate::replay::{with_id, ReplayGuard};
use crate::text::{lemma_split_nonempty, split, split_fields, texts};
use vstd::prelude::*;
use vstd::string::*;

verus! {

/// The deposit of a call that carries no value.
pub const NOT_DEPOSIT: u128 = 0;

/// The deposit that an asset contract asks for with a transfer.
pub const ONE_YOCTO_DEPOSIT: u128 = 1;

/// The routing contract: it confirms inbound events under the authority,
/// remembers which it has committed, and starts outbound transfers.
#[derive(Clone, Debug, PartialEq, Eq)]
pub struct Router {
    authority: AuthorityRegistry,
    chain_id: String,
    txs: ReplayGuard,
    wnative: String,
    gas: GasBudgetTable,
}

/// The persisted state of a router.
pub ghost struct RouterView {
    /// The authority and the account proposed to follow it.
    pub authority: AuthorityView,
    /// The chain this router stands on.
    pub chain_id: Seq<char>,
    /// The contract that holds native value.
    pub wnative: Seq<char>,
    /// The committed transaction identifiers, oldest first.
    pub txs: Seq<Seq<char>>,
    /// The budgets for dependent calls.
    pub gas: GasView,
}

/// The persisted state of a router as plain values, as it is stored between
/// calls.
#[derive(Clone, Debug, PartialEq, Eq)]
pub struct RouterState {
    pub mpc_id: String,
    pub new_mpc_id: String,
    pub chain_id: String,
    pub txs: Vec<String>,
    pub wnative: String,
    pub gas_for_anytoken: Vec<(String, u64)>,
    pub base_gas: u64,
}

impl View for RouterState {
    type V = RouterView;

    open spec fn view(&self) -> RouterView {
        RouterView {
            authority: AuthorityView { current: self.mpc_id@, pending: self.new_mpc_id@ },
            chain_id: self.chain_id@,
            wnative: self.wnative@,
            txs: texts(self.txs@),
            gas: GasView { base: self.base_gas, overrides: crate::assoc::entry_views(self.gas_for_anytoken@) },
        }
    }
}

/// A suspended operation of the router: the entry point that takes the
/// outcome of the dependent call, with what it needs to go on.
#[derive(Clone, Debug, PartialEq, Eq)]
pub enum RouterCallback {
    AnySwapOut { token: String, any_token: String, from: String, to: String, amount: u128, to_chain_id: String },
    AnySwapOutCallback { token: String, from: String, to: String, amount: u128, to_chain_id: String },
    SwapOutNativeCallback { from: String, to: String, amount: u128, to_chain_id: String },
    AnySwapInCallback { tx: String, token: String, to: String, amount: u128, from_chain_id: String },
    SwapInNativeCallback { tx: String, to: String, amount: u128, from_chain_id: String },
}

pub ghost enum RouterCallbackView {
    AnySwapOut {
        token: Seq<char>,
        any_token: Seq<char>,
        from: Seq<char>,
        to: Seq<char>,
        amount: u128,
        to_chain_id: Seq<char>,
    },
    AnySwapOutCallback { token: Seq<char>, from: Seq<char>, to: Seq<char>, amount: u128, to_chain_id: Seq<char> },
    SwapOutNativeCallback { from: Seq<char>, to: Seq<char>, amount: u128, to_chain_id: Seq<char> },
    AnySwapInCallback { tx: Seq<char>, token: Seq<char>, to: Seq<char>, amount: u128, from_chain_id: Seq<char> },
    SwapInNativeCallback { tx: Seq<char>, to: Seq<char>, amount: u128, from_chain_id: Seq<char> },
}

impl View for RouterCallback {
    type V = RouterCallbackView;

    open spec fn view(&self) -> RouterCallbackView {
        match *self {
            RouterCallback::AnySwapOut { token, any_token, from, to, amount, to_chain_id } =>
                RouterCallbackView::AnySwapOut {
                token: token@,
                any_token: any_token@,
                from: from@,
                to: to@,
                amount,
                to_chain_id: to_chain_id@,
            },
            RouterCallback::AnySwapOutCallback { token, from, to, amount, to_chain_id } =>
                RouterCallbackView::AnySwapOutCallback {
                token: token@,
                from: from@,
                to: to@,
                amount,
                to_chain_id: to_chain_id@,
            },
            RouterCallback::SwapOutNativeCallback { from, to, amount, to_chain_id } =>
                RouterCallbackView::SwapOutNativeCallback {
                from: from@,
                to: to@,
                amount,
                to_chain_id: to_chain_id@,
            },
            RouterCallback::AnySwapInCallback { tx, token, to, amount, from_chain_id } =>
                RouterCallbackView::AnySwapInCallback {
                tx: tx@,
                token: token@,
                to: to@,
                amount,
                from_chain_id: from_chain_id@,
            },
            RouterCallback::SwapInNativeCallback { tx, to, amount, from_chain_id } =>
                RouterCallbackView::SwapInNativeCallback {
                tx: tx@,
                to: to@,
                amount,
                from_chain_id: from_chain_id@,
            },
        }
    }
}

impl RouterView {
    /// No identifier is committed twice and no token has two budgets.
    pub open spec fn wf(self) -> bool {
        self.txs.no_duplicates() && crate::assoc::distinct_keys(self.gas.overrides)
    }

    /// Why an operation reserved for the authority is refused to `caller`.
    pub open spec fn gate(self, caller: Seq<char>) -> Option<BridgeError> {
        self.authority.gate(caller)
    }

    /// Why an inbound instruction is refused: the caller is not the authority,
    /// or else the identifier has been committed, or else the amount is zero.
    pub open spec fn inbound_verdict(
        self,
        caller: Seq<char>,
        tx: Seq<char>,
        amount: u128,
    ) -> Option<BridgeError> {
        if caller != self.authority.current {
            Some(BridgeError::Unauthorized)
        } else if self.txs.contains(tx) {
            Some(BridgeError::AlreadyProcessed)
        } else if amount == 0 {
            Some(BridgeError::InvalidAmount)
        } else {
            None
        }
    }

    /// What an inbound credit of a token dispatches: the credit on the
    /// token's ledger, then the confirmation on the router.
    pub open spec fn any_swap_in(
        self,
        caller: Seq<char>,
        tx: Seq<char>,
        token: Seq<char>,
        to: Seq<char>,
        amount: u128,
        from_chain_id: Seq<char>,
    ) -> Result<DispatchView<RouterCallbackView>, BridgeError> {
        match self.inbound_verdict(caller, tx, amount) {
            Some(error) => Err(error),
            None => Ok(
                DispatchView {
                    first: OutgoingView::Call {
                        contract: token,
                        method: RemoteCallView::SwapIn { receiver_id: to, amount },
                        deposit: NOT_DEPOSIT,
                        gas: self.gas.budget_for(token) as u64,
                    },
                    callback: RouterCallbackView::AnySwapInCallback { tx, token, to, amount, from_chain_id },
                    callback_gas: self.gas.base,
                },
            ),
        }
    }

    /// What an inbound credit of native value dispatches: the payment by the
    /// native pool, then the confirmation on the router.
    pub open spec fn swap_in_native(
        self,
        caller: Seq<char>,
        tx: Seq<char>,
        to: Seq<char>,
        amount: u128,
        from_chain_id: Seq<char>,
    ) -> Result<DispatchView<RouterCallbackView>, BridgeError> {
        match self.inbound_verdict(caller, tx, amount) {
            Some(error) => Err(error),
            None => Ok(
                DispatchView {
                    first: OutgoingView::Call {
                        contract: self.wnative,
                        method: RemoteCallView::SwapInNative { receiver_id: to, amount },
                        deposit: NOT_DEPOSIT,
                        gas: self.gas.budget_for(self.wnative) as u64,
                    },
                    callback: RouterCallbackView::SwapInNativeCallback { tx, to, amount, from_chain_id },
                    callback_gas: self.gas.base,
                },
            ),
        }
    }

    /// What an outbound transfer of native value dispatches: the attached
    /// value goes to the native pool, then the confirmation on the router.
    pub open spec fn swap_out_native(
        self,
        caller: Seq<char>,
        attached: u128,
        to: Seq<char>,
        to_chain_id: Seq<char>,
    ) -> Result<DispatchView<RouterCallbackView>, BridgeError> {
        if attached == 0 {
            Err(BridgeError::InvalidAmount)
        } else {
            Ok(
                DispatchView {
                    first: OutgoingView::Transfer { receiver_id: self.wnative, amount: attached },
                    callback: RouterCallbackView::SwapOutNativeCallback {
                        from: caller,
                        to,
                        amount: attached,
                        to_chain_id,
                    },
                    callback_gas: self.gas.base,
                },
            )
        }
    }

    /// What the router does with tokens that arrived with a message. A message
    /// whose first field is `any_swap_out` must have four fields: the
    /// operation, the wrapped ledger, the receiver and the destination chain;
    /// the router then asks the wrapped ledger for its underlying asset. Any
    /// other message sends the tokens back.
    pub open spec fn ft_on_transfer(
        self,
        caller: Seq<char>,
        sender: Seq<char>,
        amount: u128,
        msg: Seq<char>,
    ) -> Result<StepView<RouterCallbackView>, BridgeError> {
        let fields = split(msg, ' ');
        if fields[0] == "any_swap_out"@ {
            if fields.len() != 4 {
                Err(BridgeError::MalformedInstruction)
            } else {
                Ok(
                    StepView::Awaiting(
                        DispatchView {
                            first: OutgoingView::Call {
                                contract: fields[1],
                                method: RemoteCallView::Underlying,
                                deposit: NOT_DEPOSIT,
                                gas: self.gas.base,
                            },
                            callback: RouterCallbackView::AnySwapOut {
                                token: caller,
                                any_token: fields[1],
                                from: sender,
                                to: fields[2],
                                amount,
                                to_chain_id: fields[3],
                            },
                            callback_gas: (self.gas.base * 5) as u64,
                        },
                    ),
                )
            }
        } else {
            Ok(StepView::RolledBack { log: LogView::MessageNotMatched, refund: RefundView::Unused(amount) })
        }
    }

    /// What the router does once the wrapped ledger has named its underlying
    /// asset, or has not (`None`). The wrapped ledger must be bound to the
    /// token that arrived, and the amount must not be zero. Tokens of another contract than the
    /// wrapped ledger are moved into it; tokens of the wrapped ledger itself,
    /// which the router holds, are burnt.
    pub open spec fn route_swap_out(
        self,
        current: Seq<char>,
        underlying: Option<Seq<char>>,
        token: Seq<char>,
        any_token: Seq<char>,
        from: Seq<char>,
        to: Seq<char>,
        amount: u128,
        to_chain_id: Seq<char>,
    ) -> Result<DispatchView<RouterCallbackView>, BridgeError> {
        match underlying {
            None => Err(BridgeError::DependentCallFailed),
            Some(asset) => if asset != token {
                Err(BridgeError::NotYetBound)
            } else if amount == 0 {
                Err(BridgeError::InvalidAmount)
            } else {
                Ok(
                    DispatchView {
                        first: if token != any_token {
                            OutgoingView::Call {
                                contract: token,
                                method: RemoteCallView::FtTransfer { receiver_id: any_token, amount, memo: None },
                                deposit: ONE_YOCTO_DEPOSIT,
                                gas: self.gas.base,
                            }
                        } else {
                            OutgoingView::Call {
                                contract: token,
                                method: RemoteCallView::Burn { account_id: current, amount },
                                deposit: NOT_DEPOSIT,
                                gas: self.gas.base,
                            }
                        },
                        callback: RouterCallbackView::AnySwapOutCallback {
                            token: any_token,
                            from,
                            to,
                            amount,
                            to_chain_id,
                        },
                        callback_gas: self.gas.base,
                    },
                )
            },
        }
    }

    /// How an outbound transfer of a token ends: committed and logged when the
    /// tokens were taken, else every token reported unused.
    pub open spec fn any_swap_out_callback(
        self,
        token: Seq<char>,
        from: Seq<char>,
        to: Seq<char>,
        amount: u128,
        to_chain_id: Seq<char>,
        success: bool,
    ) -> StepView<RouterCallbackView> {
        if success {
            StepView::Committed {
                log: LogView::SwapOut { token, from, to, amount, from_chain_id: self.chain_id, to_chain_id },
            }
        } else {
            StepView::RolledBack {
                log: LogView::SwapOutRefund { token, from, amount },
                refund: RefundView::Unused(amount),
            }
        }
    }

    /// How an outbound transfer of native value ends: committed and logged
    /// when the pool took it, else sent back to the account it came from.
    pub open spec fn swap_out_native_callback(
        self,
        current: Seq<char>,
        from: Seq<char>,
        to: Seq<char>,
        amount: u128,
        to_chain_id: Seq<char>,
        success: bool,
    ) -> StepView<RouterCallbackView> {
        if success {
            StepView::Committed {
                log: LogView::SwapOutNative {
                    token: self.wnative,
                    from,
                    to,
                    amount,
                    from_chain_id: self.chain_id,
                    to_chain_id,
                },
            }
        } else {
            StepView::RolledBack {
                log: LogView::RefundNative { amount, from: current, to: from },
                refund: RefundView::Native { receiver_id: from, amount },
            }
        }
    }

    /// How an inbound credit of a token ends: committed and logged when the
    /// ledger credited, else the whole attempt fails.
    pub open spec fn any_swap_in_callback(
        self,
        tx: Seq<char>,
        token: Seq<char>,
        to: Seq<char>,
        amount: u128,
        from_chain_id: Seq<char>,
        success: bool,
    ) -> Result<StepView<RouterCallbackView>, BridgeError> {
        if success {
            Ok(
                StepView::Committed {
                    log: LogView::SwapIn { tx, token, to, amount, from_chain_id, to_chain_id: self.chain_id },
                },
            )
        } else {
            Err(BridgeError::DependentCallFailed)
        }
    }

    /// How an inbound credit of native value ends: committed and logged when
    /// the pool paid, else rolled back, the amount going back to the router's
    /// own balance.
    pub open spec fn swap_in_native_callback(
        self,
        current: Seq<char>,
        tx: Seq<char>,
        to: Seq<char>,
        amount: u128,
        from_chain_id: Seq<char>,
        success: bool,
    ) -> StepView<RouterCallbackView> {
        if success {
            StepView::Committed {
                log: LogView::SwapInNative { tx, to, amount, from_chain_id, to_chain_id: self.chain_id },
            }
        } else {
            StepView::RolledBack {
                log: LogView::RefundNative { amount, from: self.wnative, to: current },
                refund: RefundView::Native { receiver_id: current, amount },
            }
        }
    }

    /// The state after an inbound credit ended: the identifier is committed
    /// when the dependent call succeeded, and nothing changes when it failed.
    pub open spec fn settled(self, tx: Seq<char>, success: bool) -> RouterView {
        if success {
            RouterView { txs: with_id(self.txs, tx), ..self }
        } else {
            self
        }
    }
}

/// The line that says why the router refused a call.
pub open spec fn rejection_line(error: BridgeError) -> Seq<char> {
    match error {
        BridgeError::Unauthorized => "Router: only mpc"@,
        BridgeError::AlreadyProcessed => "Router: tx exists"@,
        BridgeError::InvalidAmount => "The amount should be a positive number"@,
        BridgeError::InsufficientBalance => "The account doesn't have enough balance"@,
        BridgeError::DependentCallFailed => "ERR_CALL_FAILED"@,
        BridgeError::MalformedInstruction => "decode swap_out msg error!"@,
        BridgeError::AlreadyBound => "Router: underlying is bound already"@,
        BridgeError::NotYetBound => "Router: underlying in any_token not equals to token"@,
    }
}

/// The line that says why the router refused a call. The host ends the call
/// with it.
pub fn rejection(error: BridgeError) -> (line: &'static str)
    ensures
        line@ == rejection_line(error),
{
    match error {
        BridgeError::Unauthorized => "Router: only mpc",
        BridgeError::AlreadyProcessed => "Router: tx exists",
        BridgeError::InvalidAmount => "The amount should be a positive number",
        BridgeError::InsufficientBalance => "The account doesn't have enough balance",
        BridgeError::DependentCallFailed => "ERR_CALL_FAILED",
        BridgeError::MalformedInstruction => "decode swap_out msg error!",
        BridgeError::AlreadyBound => "Router: underlying is bound already",
        BridgeError::NotYetBound => "Router: underlying in any_token not equals to token",
    }
}

/// A committed identifier counts once. While it is committed, every inbound
/// instruction that carries it is refused, whoever sends it and whatever
/// else it says: to the authority as processed before, to anybody else as
/// unauthorized. It stays committed through every later confirmation, so the
/// refusal holds however often the instruction is sent again.
pub proof fn replay_is_refused(
    router: RouterView,
    caller: Seq<char>,
    tx: Seq<char>,
    token: Seq<char>,
    to: Seq<char>,
    amount: u128,
    from_chain_id: Seq<char>,
    later_tx: Seq<char>,
    later_success: bool,
)
    requires
        router.txs.contains(tx),
    ensures
        router.any_swap_in(caller, tx, token, to, amount, from_chain_id) is Err,
        router.swap_in_native(caller, tx, to, amount, from_chain_id) is Err,
        caller == router.authority.current ==> router.any_swap_in(caller, tx, token, to, amount, from_chain_id) == Err::<
            DispatchView<RouterCallbackView>,
            BridgeError,
        >(BridgeError::AlreadyProcessed),
        caller == router.authority.current ==> router.swap_in_native(caller, tx, to, amount, from_chain_id) == Err::<
            DispatchView<RouterCallbackView>,
            BridgeError,
        >(BridgeError::AlreadyProcessed),
        router.settled(later_tx, later_success).txs.contains(tx),
{
    let after = router.settled(later_tx, later_success);
    if later_success && !router.txs.contains(later_tx) {
        let at = choose|i: int| 0 <= i < router.txs.len() && router.txs[i] == tx;
        assert(after.txs[at] == tx);
    }
}

/// An inbound credit takes effect once. When its dependent call succeeded the
/// identifier is committed, and the same instruction is refused from then on;
/// when it failed the identifier is not committed, and the instruction can be
/// sent again.
pub proof fn commit_is_exactly_once(
    router: RouterView,
    tx: Seq<char>,
    token: Seq<char>,
    to: Seq<char>,
    amount: u128,
    from_chain_id: Seq<char>,
)
    requires
        router.any_swap_in(router.authority.current, tx, token, to, amount, from_chain_id) is Ok,
    ensures
        router.settled(tx, true).any_swap_in(router.authority.current, tx, token, to, amount, from_chain_id) == Err::<
            DispatchView<RouterCallbackView>,
            BridgeError,
        >(BridgeError::AlreadyProcessed),
        router.settled(tx, false).any_swap_in(router.authority.current, tx, token, to, amount, from_chain_id)
            == router.any_swap_in(router.authority.current, tx, token, to, amount, from_chain_id),
{
    let after = router.settled(tx, true);
    assert(after.txs[router.txs.len() as int] == tx);
}

/// The inbound entry points are reserved for the authority: anybody else is
/// refused as unauthorized, whatever the instruction says.
pub proof fn inbound_is_gated(
    router: RouterView,
    caller: Seq<char>,
    tx: Seq<char>,
    token: Seq<char>,
    to: Seq<char>,
    amount: u128,
    from_chain_id: Seq<char>,
)
    requires
        caller != router.authority.current,
    ensures
        router.gate(caller) == Some(BridgeError::Unauthorized),
        router.any_swap_in(caller, tx, token, to, amount, from_chain_id) == Err::<
            DispatchView<RouterCallbackView>,
            BridgeError,
        >(BridgeError::Unauthorized),
        router.swap_in_native(caller, tx, to, amount, from_chain_id) == Err::<
            DispatchView<RouterCallbackView>,
            BridgeError,
        >(BridgeError::Unauthorized),
{
}

impl View for Router {
    type V = RouterView;

    closed spec fn view(&self) -> RouterView {
        RouterView {
            authority: self.authority@,
            chain_id: self.chain_id@,
            wnative: self.wnative@,
            txs: self.txs@,
            gas: self.gas@,
        }
    }
}

impl Router {
    /// The state is well formed.
    pub open spec fn wf(&self) -> bool {
        self@.wf()
    }

    /// A router under the authority `mpc_id`, with nothing committed and the
    /// default budgets.
    pub fn new(mpc_id: String, wnative: String, chain_id: String) -> (router: Self)
        ensures
            router.wf(),
            router@.authority == (AuthorityView { current: mpc_id@, pending: mpc_id@ }),
            router@.wnative == wnative@,
            router@.chain_id == chain_id@,
            router@.txs == Seq::<Seq<char>>::empty(),
            router@.gas == (GasView { base: BASE_GAS, overrides: Seq::empty() }),
    {
        Router {
            authority: AuthorityRegistry::new(mpc_id),
            chain_id,
            txs: ReplayGuard::new(),
            wnative,
            gas: GasBudgetTable::new(BASE_GAS),
        }
    }

    /// The router in the given state, where that state is well formed.
    pub fn restore(state: RouterState) -> (router: Option<Self>)
        ensures
            match router {
                Some(router) => router.wf() && router@ == state@,
                None => !state@.wf(),
            },
    {
        let txs = match ReplayGuard::from_ids(state.txs) {
            Some(txs) => txs,
            None => {
                return None;
            },
        };
        let gas = match GasBudgetTable::from_parts(state.base_gas, state.gas_for_anytoken) {
            Some(gas) => gas,
            None => {
                return None;
            },
        };
        Some(
            Router {
                authority: AuthorityRegistry::from_parts(state.mpc_id, state.new_mpc_id),
                chain_id: state.chain_id,
                txs,
                wnative: state.wnative,
                gas,
            },
        )
    }

    /// The state of the router as plain values.
    pub fn into_state(self) -> (state: RouterState)
        ensures
            state@ == self@,
    {
        let (mpc_id, new_mpc_id) = self.authority.into_parts();
        let (base_gas, gas_for_anytoken) = self.gas.into_parts();
        RouterState {
            mpc_id,
            new_mpc_id,
            chain_id: self.chain_id,
            txs: self.txs.into_ids(),
            wnative: self.wnative,
            gas_for_anytoken,
            base_gas,
        }
    }

    /// Goes on with an outbound transfer once the wrapped ledger has answered
    /// the question for its underlying asset. The answer is a JSON string; an
    /// answer that is none counts as a failed call.
    pub fn any_swap_out(
        &mut self,
        ctx: &Context,
        token: String,
        any_token: String,
        from: String,
        to: String,
        amount: u128,
        to_chain_id: String,
        outcome: &CallOutcome,
    ) -> (next: Result<Dispatch<RouterCallback>, BridgeError>)
        ensures
            *final(self) == *old(self),
            match *outcome {
                CallOutcome::Success(bytes) => dispatched(
                    next,
                    old(self)@.route_swap_out(
                        ctx.current@,
                        json_string(bytes@),
                        token@,
                        any_token@,
                        from@,
                        to@,
                        amount,
                        to_chain_id@,
                    ),
                ),
                CallOutcome::Failure => next == Err::<Dispatch<RouterCallback>, BridgeError>(
                    BridgeError::DependentCallFailed,
                ),
            },
    {
        match outcome {
            CallOutcome::Success(bytes) => {
                let underlying = match decode_json_string(bytes) {
                    Ok(text) => Some(text),
                    Err(_) => None,
                };
                self.route_swap_out(ctx, underlying, token, any_token, from, to, amount, to_chain_id)
            },
            CallOutcome::Failure => Err(BridgeError::DependentCallFailed),
        }
    }

    /// Decides an outbound transfer from the underlying asset that the wrapped
    /// ledger named (`None` where its answer could not be read).
    pub fn route_swap_out(
        &self,
        ctx: &Context,
        underlying: Option<String>,
        token: String,
        any_token: String,
        from: String,
        to: String,
        amount: u128,
        to_chain_id: String,
    ) -> (next: Result<Dispatch<RouterCallback>, BridgeError>)
        ensures
            dispatched(
                next,
                self@.route_swap_out(
                    ctx.current@,
                    crate::call::optional_text(underlying),
                    token@,
                    any_token@,
                    from@,
                    to@,
                    amount,
                    to_chain_id@,
                ),
            ),
    {
        let asset = match underlying {
            Some(asset) => asset,
            None => {
                return Err(BridgeError::DependentCallFailed);
            },
        };
        if asset != token {
            return Err(BridgeError::NotYetBound);
        }
        if amount == 0 {
            return Err(BridgeError::InvalidAmount);
        }
        let first = if token != any_token {
            Outgoing::Call {
                contract: token,
                method: RemoteCall::FtTransfer { receiver_id: any_token.clone(), amount, memo: None },
                deposit: ONE_YOCTO_DEPOSIT,
                gas: self.gas.base(),
            }
        } else {
            Outgoing::Call {
                contract: token,
                method: RemoteCall::Burn { account_id: ctx.current.clone(), amount },
                deposit: NOT_DEPOSIT,
                gas: self.gas.base(),
            }
        };
        Ok(
            Dispatch {
                first,
                callback: RouterCallback::AnySwapOutCallback { token: any_token, from, to, amount, to_chain_id },
                callback_gas: self.gas.base(),
            },
        )
    }

    /// Takes tokens that another contract transferred to the router on behalf
    /// of `sender_id`, with a message that says what to do with them. The
    /// caller is the contract of those tokens.
    pub fn ft_on_transfer(
        &mut self,
        ctx: &Context,
        sender_id: String,
        amount: u128,
        msg: String,
    ) -> (next: Result<Step<RouterCallback>, BridgeError>)
        requires
            split(msg@, ' ')[0] == "any_swap_out"@ && split(msg@, ' ').len() == 4 ==> old(self)@.gas.base * 5
                <= u64::MAX,
        ensures
            *final(self) == *old(self),
            stepped(next, old(self)@.ft_on_transfer(ctx.predecessor@, sender_id@, amount, msg@)),
    {
        let fields = split_fields(msg.as_str(), ' ');
        proof {
            lemma_split_nonempty(msg@, ' ');
        }
        let operation = String::from_str("any_swap_out");
        if fields[0] == operation {
            if fields.len() != 4 {
                return Err(BridgeError::MalformedInstruction);
            }
            let base: u64 = self.gas.base();
            Ok(
                Step::Awaiting(
                    Dispatch {
                        first: Outgoing::Call {
                            contract: fields[1].clone(),
                            method: RemoteCall::Underlying,
                            deposit: NOT_DEPOSIT,
                            gas: base,
                        },
                        callback: RouterCallback::AnySwapOut {
                            token: ctx.predecessor.clone(),
                            any_token: fields[1].clone(),
                            from: sender_id,
                            to: fields[2].clone(),
                            amount,
                            to_chain_id: fields[3].clone(),
                        },
                        callback_gas: base * 5,
                    },
                ),
            )
        } else {
            Ok(Step::RolledBack { log: LogRecord::MessageNotMatched, refund: Refund::Unused(amount) })
        }
    }

    /// Confirms a transfer of `amount` of `token` to `to` that happened on the
    /// chain `from_chain_id` under the identifier `tx`. Only the authority may;
    /// an identifier counts once. The ledger of `token` is asked to credit, and
    /// the operation goes on in `any_swap_in_callback`.
    pub fn any_swap_in(
        &mut self,
        ctx: &Context,
        tx: String,
        token: String,
        to: String,
        amount: u128,
        from_chain_id: String,
    ) -> (next: Result<Dispatch<RouterCallback>, BridgeError>)
        requires
            old(self).wf(),
            old(self)@.inbound_verdict(ctx.predecessor@, tx@, amount) is None ==> old(self)@.gas.budget_for(token@)
                <= u64::MAX,
        ensures
            *final(self) == *old(self),
            dispatched(next, old(self)@.any_swap_in(ctx.predecessor@, tx@, token@, to@, amount, from_chain_id@)),
    {
        if !self.authority.is_authority(&ctx.predecessor) {
            return Err(BridgeError::Unauthorized);
        }
        if self.txs.has_processed(&tx) {
            return Err(BridgeError::AlreadyProcessed);
        }
        if amount == 0 {
            return Err(BridgeError::InvalidAmount);
        }
        let gas: u64 = self.gas.budget_for(&token);
        Ok(
            Dispatch {
                first: Outgoing::Call {
                    contract: token.clone(),
                    method: RemoteCall::SwapIn { receiver_id: to.clone(), amount },
                    deposit: NOT_DEPOSIT,
                    gas,
                },
                callback: RouterCallback::AnySwapInCallback { tx, token, to, amount, from_chain_id },
                callback_gas: self.gas.base(),
            },
        )
    }

    /// Confirms a transfer of `amount` of native value to `to` that happened
    /// on the chain `from_chain_id` under the identifier `tx`. As
    /// `any_swap_in`, but the native pool is asked to pay.
    pub fn swap_in_native(
        &mut self,
        ctx: &Context,
        tx: String,
        to: String,
        amount: u128,
        from_chain_id: String,
    ) -> (next: Result<Dispatch<RouterCallback>, BridgeError>)
        requires
            old(self).wf(),
            old(self)@.inbound_verdict(ctx.predecessor@, tx@, amount) is None ==> old(self)@.gas.budget_for(
                old(self)@.wnative,
            ) <= u64::MAX,
        ensures
            *final(self) == *old(self),
            dispatched(next, old(self)@.swap_in_native(ctx.predecessor@, tx@, to@, amount, from_chain_id@)),
    {
        if !self.authority.is_authority(&ctx.predecessor) {
            return Err(BridgeError::Unauthorized);
        }
        if self.txs.has_processed(&tx) {
            return Err(BridgeError::AlreadyProcessed);
        }
        if amount == 0 {
            return Err(BridgeError::InvalidAmount);
        }
        let gas: u64 = self.gas.budget_for(&self.wnative);
        Ok(
            Dispatch {
                first: Outgoing::Call {
                    contract: self.wnative.clone(),
                    method: RemoteCall::SwapInNative { receiver_id: to.clone(), amount },
                    deposit: NOT_DEPOSIT,
                    gas,
                },
                callback: RouterCallback::SwapInNativeCallback { tx, to, amount, from_chain_id },
                callback_gas: self.gas.base(),
            },
        )
    }

    /// Starts a transfer of the attached native value to `to` on the chain
    /// `to_chain_id`: the value goes to the native pool, and the operation
    /// goes on in `swap_out_native_callback`.
    pub fn swap_out_native(
        &mut self,
        ctx: &Context,
        to: String,
        to_chain_id: String,
    ) -> (next: Result<Dispatch<RouterCallback>, BridgeError>)
        ensures
            *final(self) == *old(self),
            dispatched(next, old(self)@.swap_out_native(ctx.predecessor@, ctx.attached_deposit, to@, to_chain_id@)),
    {
        let amount: u128 = ctx.attached_deposit;
        if amount == 0 {
            return Err(BridgeError::InvalidAmount);
        }
        Ok(
            Dispatch {
                first: Outgoing::Transfer { receiver_id: self.wnative.clone(), amount },
                callback: RouterCallback::SwapOutNativeCallback {
                    from: ctx.predecessor.clone(),
                    to,
                    amount,
                    to_chain_id,
                },
                callback_gas: self.gas.base(),
            },
        )
    }

    /// Ends an outbound transfer of a token. When the tokens were taken the
    /// intent is logged and none is unused; when they were not, all of them
    /// are.
    pub fn any_swap_out_callback(
        &mut self,
        token: String,
        from: String,
        to: String,
        amount: u128,
        to_chain_id: String,
        outcome: &CallOutcome,
    ) -> (end: Step<RouterCallback>)
        ensures
            *final(self) == *old(self),
            end@ == old(self)@.any_swap_out_callback(token@, from@, to@, amount, to_chain_id@, outcome is Success),
    {
        match outcome {
            CallOutcome::Success(_) => Step::Committed {
                log: LogRecord::SwapOut {
                    token,
                    from,
                    to,
                    amount,
                    from_chain_id: self.chain_id.clone(),
                    to_chain_id,
                },
            },
            CallOutcome::Failure => Step::RolledBack {
                log: LogRecord::SwapOutRefund { token, from, amount },
                refund: Refund::Unused(amount),
            },
        }
    }

    /// Ends an outbound transfer of native value. When the pool took the
    /// value the intent is logged; when it did not, the value goes back to
    /// `from`.
    pub fn swap_out_native_callback(
        &mut self,
        ctx: &Context,
        from: String,
        to: String,
        amount: u128,
        to_chain_id: String,
        outcome: &CallOutcome,
    ) -> (end: Step<RouterCallback>)
        ensures
            *final(self) == *old(self),
            end@ == old(self)@.swap_out_native_callback(
                ctx.current@,
                from@,
                to@,
                amount,
                to_chain_id@,
                outcome is Success,
            ),
    {
        match outcome {
            CallOutcome::Success(_) => Step::Committed {
                log: LogRecord::SwapOutNative {
                    token: self.wnative.clone(),
                    from,
                    to,
                    amount,
                    from_chain_id: self.chain_id.clone(),
                    to_chain_id,
                },
            },
            CallOutcome::Failure => Step::RolledBack {
                log: LogRecord::RefundNative { amount, from: ctx.current.clone(), to: from.clone() },
                refund: Refund::Native { receiver_id: from, amount },
            },
        }
    }

    /// Ends an inbound credit of a token. When the ledger credited, the
    /// identifier is committed and the credit logged. When it did not, the
    /// attempt fails and leaves no trace, so that it can be made again.
    pub fn any_swap_in_callback(
        &mut self,
        tx: String,
        token: String,
        to: String,
        amount: u128,
        from_chain_id: String,
        outcome: &CallOutcome,
    ) -> (end: Result<Step<RouterCallback>, BridgeError>)
        requires
            old(self).wf(),
        ensures
            final(self).wf(),
            final(self)@ == old(self)@.settled(tx@, outcome is Success),
            outcome is Failure ==> *final(self) == *old(self),
            stepped(
                end,
                old(self)@.any_swap_in_callback(tx@, token@, to@, amount, from_chain_id@, outcome is Success),
            ),
    {
        match outcome {
            CallOutcome::Success(_) => {
                self.txs.record(tx.clone());
                Ok(
                    Step::Committed {
                        log: LogRecord::SwapIn {
                            tx,
                            token,
                            to,
                            amount,
                            from_chain_id,
                            to_chain_id: self.chain_id.clone(),
                        },
                    },
                )
            },
            CallOutcome::Failure => Err(BridgeError::DependentCallFailed),
        }
    }

    /// Ends an inbound credit of native value. When the pool paid, the
    /// identifier is committed and the credit logged. When it did not, the
    /// operation is rolled back: the identifier stays uncommitted and the
    /// amount goes back to the router's own balance.
    pub fn swap_in_native_callback(
        &mut self,
        ctx: &Context,
        tx: String,
        to: String,
        amount: u128,
        from_chain_id: String,
        outcome: &CallOutcome,
    ) -> (end: Step<RouterCallback>)
        requires
            old(self).wf(),
        ensures
            final(self).wf(),
            final(self)@ == old(self)@.settled(tx@, outcome is Success),
            outcome is Failure ==> *final(self) == *old(self),
            end@ == old(self)@.swap_in_native_callback(
                ctx.current@,
                tx@,
                to@,
                amount,
                from_chain_id@,
                outcome is Success,
            ),
    {
        match outcome {
            CallOutcome::Success(_) => {
                self.txs.record(tx.clone());
                Step::Committed {
                    log: LogRecord::SwapInNative {
                        tx,
                        to,
                        amount,
                        from_chain_id,
                        to_chain_id: self.chain_id.clone(),
                    },
                }
            },
            CallOutcome::Failure => Step::RolledBack {
                log: LogRecord::RefundNative { amount, from: self.wnative.clone(), to: ctx.current.clone() },
                refund: Refund::Native { receiver_id: ctx.current.clone(), amount },
            },
        }
    }

    /// Goes on with a suspended operation: hands the outcome of the dependent
    /// call to the entry point that the continuation names.
    pub fn resume(
        &mut self,
        ctx: &Context,
        callback: RouterCallback,
        outcome: &CallOutcome,
    ) -> (next: Result<Step<RouterCallback>, BridgeError>)
        requires
            old(self).wf(),
        ensures
            final(self).wf(),
            match callback@ {
                RouterCallbackView::AnySwapOut { token, any_token, from, to, amount, to_chain_id } => {
                    &&& *final(self) == *old(self)
                    &&& match *outcome {
                        CallOutcome::Success(bytes) => match old(self)@.route_swap_out(
                            ctx.current@,
                            json_string(bytes@),
                            token,
                            any_token,
                            from,
                            to,
                            amount,
                            to_chain_id,
                        ) {
                            Ok(dispatch) => stepped(next, Ok(StepView::Awaiting(dispatch))),
                            Err(error) => stepped(next, Err(error)),
                        },
                        CallOutcome::Failure => stepped(next, Err(BridgeError::DependentCallFailed)),
                    }
                },
                RouterCallbackView::AnySwapOutCallback { token, from, to, amount, to_chain_id } => {
                    &&& *final(self) == *old(self)
                    &&& stepped(
                        next,
                        Ok(
                            old(self)@.any_swap_out_callback(
                                token,
                                from,
                                to,
                                amount,
                                to_chain_id,
                                outcome is Success,
                            ),
                        ),
                    )
                },
                RouterCallbackView::SwapOutNativeCallback { from, to, amount, to_chain_id } => {
                    &&& *final(self) == *old(self)
                    &&& stepped(
                        next,
                        Ok(
                            old(self)@.swap_out_native_callback(
                                ctx.current@,
                                from,
                                to,
                                amount,
                                to_chain_id,
                                outcome is Success,
                            ),
                        ),
                    )
                },
                RouterCallbackView::AnySwapInCallback { tx, token, to, amount, from_chain_id } => {
                    &&& final(self)@ == old(self)@.settled(tx, outcome is Success)
                    &&& stepped(
                        next,
                        old(self)@.any_swap_in_callback(tx, token, to, amount, from_chain_id, outcome is Success),
                    )
                },
                RouterCallbackView::SwapInNativeCallback { tx, to, amount, from_chain_id } => {
                    &&& final(self)@ == old(self)@.settled(tx, outcome is Success)
                    &&& stepped(
                        next,
                        Ok(
                            old(self)@.swap_in_native_callback(
                                ctx.current@,
                                tx,
                                to,
                                amount,
                                from_chain_id,
                                outcome is Success,
                            ),
                        ),
                    )
                },
            },
    {
        match callback {
            RouterCallback::AnySwapOut { token, any_token, from, to, amount, to_chain_id } => {
                match self.any_swap_out(ctx, token, any_token, from, to, amount, to_chain_id, outcome) {
                    Ok(dispatch) => Ok(Step::Awaiting(dispatch)),
                    Err(error) => Err(error),
                }
            },
            RouterCallback::AnySwapOutCallback { token, from, to, amount, to_chain_id } => Ok(
                self.any_swap_out_callback(token, from, to, amount, to_chain_id, outcome),
            ),
            RouterCallback::SwapOutNativeCallback { from, to, amount, to_chain_id } => Ok(
                self.swap_out_native_callback(ctx, from, to, amount, to_chain_id, outcome),
            ),
            RouterCallback::AnySwapInCallback { tx, token, to, amount, from_chain_id } => {
                self.any_swap_in_callback(tx, token, to, amount, from_chain_id, outcome)
            },
            RouterCallback::SwapInNativeCallback { tx, to, amount, from_chain_id } => Ok(
                self.swap_in_native_callback(ctx, tx, to, amount, from_chain_id, outcome),
            ),
        }
    }

    /// The authority.
    pub fn mpc_id(&self) -> (id: String)
        ensures
            id@ == self@.authority.current,
    {
        self.authority.current()
    }

    /// The account proposed to follow the authority.
    pub fn new_mpc_id(&self) -> (id: String)
        ensures
            id@ == self@.authority.pending,
    {
        self.authority.pending()
    }

    /// Proposes `new_mpc_id` as the following authority. Only the authority
    /// may, and it stays the authority until the proposed account takes over.
    pub fn change_mpc_id(&mut self, ctx: &Context, new_mpc_id: String) -> (done: Result<(), BridgeError>)
        ensures
            final(self).wf() == old(self).wf(),
            match old(self)@.authority.propose(ctx.predecessor@, new_mpc_id@) {
                Ok(authority) => done is Ok && final(self)@ == (RouterView { authority, ..old(self)@ }),
                Err(error) => done == Err::<(), BridgeError>(error) && *final(self) == *old(self),
            },
    {
        self.authority.propose(&ctx.predecessor, new_mpc_id)
    }

    /// Makes the caller the authority. Only the proposed account may.
    pub fn apply_mpc_id(&mut self, ctx: &Context) -> (done: Result<(), BridgeError>)
        ensures
            final(self).wf() == old(self).wf(),
            match old(self)@.authority.finalize(ctx.predecessor@) {
                Ok(authority) => done is Ok && final(self)@ == (RouterView { authority, ..old(self)@ }),
                Err(error) => done == Err::<(), BridgeError>(error) && *final(self) == *old(self),
            },
    {
        self.authority.finalize(&ctx.predecessor)
    }

    /// The contract that holds native value.
    pub fn wnative(&self) -> (id: String)
        ensures
            id@ == self@.wnative,
    {
        self.wnative.clone()
    }

    /// Names another contract to hold native value. Only the authority may.
    pub fn change_wnative(&mut self, ctx: &Context, new_wnative: String) -> (done: Result<(), BridgeError>)
        ensures
            final(self).wf() == old(self).wf(),
            match old(self)@.gate(ctx.predecessor@) {
                Some(error) => done == Err::<(), BridgeError>(error) && *final(self) == *old(self),
                None => done is Ok && final(self)@ == (RouterView { wnative: new_wnative@, ..old(self)@ }),
            },
    {
        if !self.authority.is_authority(&ctx.predecessor) {
            return Err(BridgeError::Unauthorized);
        }
        self.wnative = new_wnative;
        Ok(())
    }

    /// The base budget.
    pub fn base_gas(&self) -> (gas: u64)
        ensures
            gas == self@.gas.base,
    {
        self.gas.base()
    }

    /// Replaces the base budget. Only the authority may.
    pub fn set_base_gas(&mut self, ctx: &Context, gas: u64) -> (done: Result<(), BridgeError>)
        ensures
            final(self).wf() == old(self).wf(),
            match old(self)@.gate(ctx.predecessor@) {
                Some(error) => done == Err::<(), BridgeError>(error) && *final(self) == *old(self),
                None => done is Ok && final(self)@ == (RouterView {
                    gas: GasView { base: gas, overrides: old(self)@.gas.overrides },
                    ..old(self)@
                }),
            },
    {
        if !self.authority.is_authority(&ctx.predecessor) {
            return Err(BridgeError::Unauthorized);
        }
        self.gas.set_base(gas);
        Ok(())
    }

    /// The budget for a credit on `token`: its own where one was set, else
    /// three times the base.
    pub fn check_gas(&self, token: String) -> (gas: u64)
        requires
            self.wf(),
            self@.gas.budget_for(token@) <= u64::MAX,
        ensures
            gas == self@.gas.budget_for(token@),
    {
        self.gas.budget_for(&token)
    }

    /// The budget for a credit on `token`, where it can be represented.
    pub fn checked_gas(&self, token: &String) -> (gas: Option<u64>)
        requires
            self.wf(),
        ensures
            match gas {
                Some(gas) => gas == self@.gas.budget_for(token@),
                None => self@.gas.budget_for(token@) > u64::MAX,
            },
    {
        self.gas.checked_budget_for(token)
    }

    /// The budget for a credit by the native pool, where it can be
    /// represented.
    pub fn checked_native_gas(&self) -> (gas: Option<u64>)
        requires
            self.wf(),
        ensures
            match gas {
                Some(gas) => gas == self@.gas.budget_for(self@.wnative),
                None => self@.gas.budget_for(self@.wnative) > u64::MAX,
            },
    {
        self.gas.checked_budget_for(&self.wnative)
    }

    /// The budget of the continuation that follows the question for an
    /// underlying asset: five times the base, where that can be represented.
    pub fn checked_transfer_gas(&self) -> (gas: Option<u64>)
        ensures
            match gas {
                Some(gas) => gas == self@.gas.base * 5,
                None => self@.gas.base * 5 > u64::MAX,
            },
    {
        self.gas.checked_hops(5)
    }

    /// The budget that a caller should attach to an outbound swap, where it
    /// can be represented.
    pub fn checked_any_swap_out_gas(&self) -> (gas: Option<u64>)
        ensures
            match gas {
                Some(gas) => gas == self@.gas.swap_out_budget(),
                None => self@.gas.swap_out_budget() > u64::MAX,
            },
    {
        self.gas.checked_swap_out_budget()
    }

    /// The budget that the authority should attach to an inbound swap on
    /// `token`, where it can be represented.
    pub fn checked_any_swap_in_gas(&self, token: &String) -> (gas: Option<u64>)
        requires
            self.wf(),
        ensures
            match gas {
                Some(gas) => gas == self@.gas.swap_in_budget(token@),
                None => self@.gas.swap_in_budget(token@) > u64::MAX,
            },
    {
        self.gas.checked_swap_in_budget(token)
    }

    /// The budget that was set for `token`, where one was.
    pub fn gas_override(&self, token: &String) -> (gas: Option<u64>)
        requires
            self.wf(),
        ensures
            gas == crate::assoc::value_of(self@.gas.overrides, token@),
    {
        self.gas.override_for(token)
    }

    /// Every budget that was set for a token, in the order in which the
    /// tokens were first given one.
    pub fn all_gas(&self) -> (list: Vec<(String, u64)>)
        ensures
            crate::assoc::entry_views(list@) == self@.gas.overrides,
    {
        self.gas.all()
    }

    /// Sets the budget for a credit on `token`. Only the authority may.
    pub fn set_gas(&mut self, ctx: &Context, token: String, gas: u64) -> (done: Result<(), BridgeError>)
        requires
            old(self).wf(),
        ensures
            final(self).wf(),
            match old(self)@.gate(ctx.predecessor@) {
                Some(error) => done == Err::<(), BridgeError>(error) && *final(self) == *old(self),
                None => done is Ok && final(self)@ == (RouterView {
                    gas: GasView {
                        base: old(self)@.gas.base,
                        overrides: crate::assoc::put(old(self)@.gas.overrides, token@, gas),
                    },
                    ..old(self)@
                }),
            },
    {
        if !self.authority.is_authority(&ctx.predecessor) {
            return Err(BridgeError::Unauthorized);
        }
        self.gas.set(token, gas);
        Ok(())
    }

    /// The budget that a caller should attach to an outbound swap.
    pub fn any_swap_out_gas(&self) -> (gas: u64)
        requires
            self@.gas.swap_out_budget() <= u64::MAX,
        ensures
            gas == self@.gas.swap_out_budget(),
    {
        self.gas.swap_out_budget()
    }

    /// The budget that the authority should attach to an inbound swap on
    /// `token`.
    pub fn any_swap_in_gas(&self, token: String) -> (gas: u64)
        requires
            self.wf(),
            self@.gas.swap_in_budget(token@) <= u64::MAX,
        ensures
            gas == self@.gas.swap_in_budget(token@),
    {
        self.gas.swap_in_budget(&token)
    }

    /// The chain this router stands on.
    pub fn chain_id(&self) -> (id: String)
        ensures
            id@ == self@.chain_id,
    {
        self.chain_id.clone()
    }

    /// Renames the chain this router stands on. Only the authority may.
    pub fn change_chain_id(&mut self, ctx: &Context, new_chain_id: String) -> (done: Result<(), BridgeError>)
        ensures
            final(self).wf() == old(self).wf(),
            match old(self)@.gate(ctx.predecessor@) {
                Some(error) => done == Err::<(), BridgeError>(error) && *final(self) == *old(self),
                None => done is Ok && final(self)@ == (RouterView { chain_id: new_chain_id@, ..old(self)@ }),
            },
    {
        if !self.authority.is_authority(&ctx.predecessor) {
            return Err(BridgeError::Unauthorized);
        }
        self.chain_id = new_chain_id;
        Ok(())
    }

    /// Whether the identifier has been committed.
    pub fn check_tx(&self, txhash: String) -> (known: bool)
        ensures
            known == self@.txs.contains(txhash@),
    {
        self.txs.has_processed(&txhash)
    }

    /// Every committed identifier, oldest first.
    pub fn all_txs(&self) -> (ids: Vec<String>)
        ensures
            texts(ids@) == self@.txs,
    {
        self.txs.all()
    }
}

} // verus!
