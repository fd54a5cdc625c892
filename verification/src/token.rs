//! The wrapped token: credits for events on other chains, debits for
//! transfers to them, and the handing out of the underlying asset.

use crate::authority::{AuthorityRegistry, AuthorityView};
use crate::call::{
    stepped, CallOutcome, Context, Dispatch, DispatchView, Outgoing, OutgoingView, Refund, RefundView, RemoteCall,
    RemoteCallView, Step, StepView,
};
use crate::error::BridgeError;
use crate::gas::BASE_GAS;
use crate::ledger::{lemma_credit, lemma_debit, Ledger, LedgerView};
use crate::log::{LogRecord, LogView};
use crate::metadata::{assert_valid, TokenMetadata};
use crate::replay::{with_id, ReplayGuard};
use vstd::prelude::*;

verus! {

/// The smallest bond that an operation with an irreversible outside effect
/// asks of its caller. It also is the deposit that an asset contract asks for
/// with a transfer.
pub const MIN_BOND: u128 = 1;

/// A wrapped token: a ledger under a signing authority, which credits
/// receivers for events on other chains and, where it is bound to an
/// underlying asset, hands that asset out in place of its own tokens.
#[derive(Clone, Debug, PartialEq, Eq)]
pub struct AnyToken {
    token: Ledger,
    metadata: TokenMetadata,
    txs: ReplayGuard,
    authority: AuthorityRegistry,
    check_tx_hash: bool,
    underlying: Option<String>,
}

/// The persisted state of a wrapped token.
pub ghost struct AnyTokenView {
    /// The balances.
    pub ledger: LedgerView,
    /// The authority and the account proposed to follow it.
    pub authority: AuthorityView,
    /// The committed transaction identifiers, oldest first.
    pub txs: Seq<Seq<char>>,
    /// Whether a committed identifier is refused when it comes again.
    pub check_tx_hash: bool,
    /// The asset that the token stands for, once bound.
    pub underlying: Option<Seq<char>>,
    /// What the token says about itself.
    pub metadata: TokenMetadata,
}

/// The persisted state of a wrapped token as plain values, as it is stored
/// between calls.
#[derive(Clone, Debug, PartialEq, Eq)]
pub struct AnyTokenState {
    pub accounts: Vec<(String, u128)>,
    pub total_supply: u128,
    pub metadata: TokenMetadata,
    pub txs: Vec<String>,
    pub mpc_id: String,
    pub new_mpc_id: String,
    pub check_tx_hash: bool,
    pub underlying: Option<String>,
}

impl View for AnyTokenState {
    type V = AnyTokenView;

    open spec fn view(&self) -> AnyTokenView {
        AnyTokenView {
            ledger: LedgerView {
                accounts: crate::assoc::entry_views(self.accounts@),
                total_supply: self.total_supply,
            },
            authority: AuthorityView { current: self.mpc_id@, pending: self.new_mpc_id@ },
            txs: crate::text::texts(self.txs@),
            check_tx_hash: self.check_tx_hash,
            underlying: crate::call::optional_text(self.underlying),
            metadata: self.metadata,
        }
    }
}

/// A suspended operation of a wrapped token.
#[derive(Clone, Debug, PartialEq, Eq)]
pub enum TokenCallback {
    /// An inbound credit that is paid in the underlying asset.
    SwapInCallback { tx_hash: String, receiver_id: String, amount: u128, from_chain_id: u128 },
    /// A holder takes the underlying asset for tokens.
    WithdrawCallback { account_id: String, amount: u128 },
    /// A holder pays tokens for the underlying asset to go to a receiver.
    DepositCallback { account_id: String, receiver_id: String, amount: u128 },
}

pub ghost enum TokenCallbackView {
    SwapInCallback { tx_hash: Seq<char>, receiver_id: Seq<char>, amount: u128, from_chain_id: u128 },
    WithdrawCallback { account_id: Seq<char>, amount: u128 },
    DepositCallback { account_id: Seq<char>, receiver_id: Seq<char>, amount: u128 },
}

impl View for TokenCallback {
    type V = TokenCallbackView;

    open spec fn view(&self) -> TokenCallbackView {
        match *self {
            TokenCallback::SwapInCallback { tx_hash, receiver_id, amount, from_chain_id } =>
                TokenCallbackView::SwapInCallback {
                tx_hash: tx_hash@,
                receiver_id: receiver_id@,
                amount,
                from_chain_id,
            },
            TokenCallback::WithdrawCallback { account_id, amount } => TokenCallbackView::WithdrawCallback {
                account_id: account_id@,
                amount,
            },
            TokenCallback::DepositCallback { account_id, receiver_id, amount } => TokenCallbackView::DepositCallback {
                account_id: account_id@,
                receiver_id: receiver_id@,
                amount,
            },
        }
    }
}

/// What is left to do once tokens were taken for the underlying asset.
#[derive(Clone, Debug, PartialEq, Eq)]
pub struct Forwarding {
    /// The transfer of the asset, and the continuation that sees how it ended.
    pub dispatch: Dispatch<TokenCallback>,
    /// What the caller attached beyond the bond; it goes back at once.
    pub surplus: u128,
}

/// The transfer of `amount` of the asset `underlying` to `receiver`, with the
/// continuation that sees how it ended.
pub open spec fn forward(
    underlying: Seq<char>,
    receiver: Seq<char>,
    amount: u128,
    callback: TokenCallbackView,
) -> DispatchView<TokenCallbackView> {
    DispatchView {
        first: OutgoingView::Call {
            contract: underlying,
            method: RemoteCallView::FtTransfer { receiver_id: receiver, amount, memo: None },
            deposit: MIN_BOND,
            gas: BASE_GAS,
        },
        callback,
        callback_gas: BASE_GAS,
    }
}

impl AnyTokenView {
    /// The total supply is the sum of the balances of distinct accounts, and
    /// no identifier is committed twice.
    pub open spec fn wf(self) -> bool {
        self.ledger.wf() && self.txs.no_duplicates()
    }

    /// Why an inbound credit is refused: the caller is not the authority, or
    /// else the identifier has been committed and the check is on, or else the
    /// amount is zero.
    pub open spec fn swap_in_verdict(
        self,
        caller: Seq<char>,
        tx_hash: Seq<char>,
        amount: u128,
    ) -> Option<BridgeError> {
        if caller != self.authority.current {
            Some(BridgeError::Unauthorized)
        } else if self.check_tx_hash && self.txs.contains(tx_hash) {
            Some(BridgeError::AlreadyProcessed)
        } else if amount == 0 {
            Some(BridgeError::InvalidAmount)
        } else {
            None
        }
    }

    /// Where an inbound credit stands after its first turn. Without an
    /// underlying asset the receiver is credited and the credit is logged.
    /// With one, the asset is transferred to the receiver, and the operation
    /// goes on when that has ended.
    pub open spec fn swap_in(
        self,
        caller: Seq<char>,
        current: Seq<char>,
        tx_hash: Seq<char>,
        receiver_id: Seq<char>,
        amount: u128,
        from_chain_id: u128,
    ) -> Result<StepView<TokenCallbackView>, BridgeError> {
        match self.swap_in_verdict(caller, tx_hash, amount) {
            Some(error) => Err(error),
            None => match self.underlying {
                None => Ok(
                    StepView::Committed {
                        log: LogView::TokenSwapIn { token: current, receiver_id, amount, from_chain_id },
                    },
                ),
                Some(asset) => Ok(
                    StepView::Awaiting(
                        forward(
                            asset,
                            receiver_id,
                            amount,
                            TokenCallbackView::SwapInCallback { tx_hash, receiver_id, amount, from_chain_id },
                        ),
                    ),
                ),
            },
        }
    }

    /// The state after the first turn of an inbound credit: where it was
    /// accepted and no underlying asset is bound, the identifier is committed
    /// and the receiver holds `amount` more; else nothing has changed.
    pub open spec fn swap_in_state(
        self,
        caller: Seq<char>,
        tx_hash: Seq<char>,
        receiver_id: Seq<char>,
        amount: u128,
    ) -> AnyTokenView {
        if self.swap_in_verdict(caller, tx_hash, amount) is None && self.underlying is None {
            AnyTokenView { txs: with_id(self.txs, tx_hash), ledger: self.ledger.credit(receiver_id, amount), ..self }
        } else {
            self
        }
    }

    /// How an inbound credit that is paid in the underlying asset ends: when
    /// the asset moved, the credit is logged as one in tokens is; when it did
    /// not, the receiver is credited in tokens.
    pub open spec fn swap_in_callback(
        self,
        current: Seq<char>,
        receiver_id: Seq<char>,
        amount: u128,
        from_chain_id: u128,
        success: bool,
    ) -> StepView<TokenCallbackView> {
        if success {
            StepView::Committed { log: LogView::TokenSwapIn { token: current, receiver_id, amount, from_chain_id } }
        } else {
            StepView::RolledBack {
                log: LogView::Compensated { token: current, account_id: receiver_id, amount },
                refund: RefundView::Nothing,
            }
        }
    }

    /// The state after an inbound credit that is paid in the underlying asset
    /// ended: when the asset moved, the identifier is committed and no balance
    /// changes; when it did not, the receiver holds `amount` more and the
    /// identifier stays uncommitted.
    pub open spec fn swap_in_callback_state(
        self,
        tx_hash: Seq<char>,
        receiver_id: Seq<char>,
        amount: u128,
        success: bool,
    ) -> AnyTokenView {
        if success {
            AnyTokenView { txs: with_id(self.txs, tx_hash), ..self }
        } else {
            AnyTokenView { ledger: self.ledger.credit(receiver_id, amount), ..self }
        }
    }

    /// Why an outbound debit is refused: the amount is zero, or else the
    /// sender does not hold it.
    pub open spec fn swap_out_verdict(self, sender: Seq<char>, amount: u128) -> Option<BridgeError> {
        if amount == 0 {
            Some(BridgeError::InvalidAmount)
        } else if !self.ledger.covers(sender, amount) {
            Some(BridgeError::InsufficientBalance)
        } else {
            None
        }
    }

    /// Why a burn is refused: the caller is not the authority, or else as an
    /// outbound debit of the account would be.
    pub open spec fn burn_verdict(
        self,
        caller: Seq<char>,
        account_id: Seq<char>,
        amount: u128,
    ) -> Option<BridgeError> {
        if caller != self.authority.current {
            Some(BridgeError::Unauthorized)
        } else {
            self.swap_out_verdict(account_id, amount)
        }
    }

    /// Why a binding is refused: the caller is not the authority, or else an
    /// asset is bound already.
    pub open spec fn bind_verdict(self, caller: Seq<char>) -> Option<BridgeError> {
        if caller != self.authority.current {
            Some(BridgeError::Unauthorized)
        } else if self.underlying is Some {
            Some(BridgeError::AlreadyBound)
        } else {
            None
        }
    }

    /// Why tokens are not taken for the underlying asset: no asset is bound, or
    /// else the bond is missing or the amount is zero, or else the caller does
    /// not hold the amount.
    pub open spec fn redeem_verdict(
        self,
        caller: Seq<char>,
        attached: u128,
        amount: u128,
    ) -> Option<BridgeError> {
        if self.underlying is None {
            Some(BridgeError::NotYetBound)
        } else if attached < MIN_BOND || amount == 0 {
            Some(BridgeError::InvalidAmount)
        } else if !self.ledger.covers(caller, amount) {
            Some(BridgeError::InsufficientBalance)
        } else {
            None
        }
    }

    /// How the handing out of the underlying asset to `receiver_id`, paid for
    /// by `account_id`, ends: when the asset moved, that is logged; when it did
    /// not, the tokens and the bond go back to `account_id`.
    pub open spec fn redeemed(
        self,
        current: Seq<char>,
        account_id: Seq<char>,
        receiver_id: Seq<char>,
        amount: u128,
        success: bool,
    ) -> StepView<TokenCallbackView> {
        if success {
            StepView::Committed { log: LogView::Forwarded { token: current, account_id: receiver_id, amount } }
        } else {
            StepView::RolledBack {
                log: LogView::Compensated { token: current, account_id, amount },
                refund: RefundView::Native { receiver_id: account_id, amount: MIN_BOND },
            }
        }
    }

    /// The state after the handing out of the underlying asset ended: the
    /// account that paid holds `amount` more when the asset did not move, and
    /// nothing changes when it did.
    pub open spec fn redeemed_state(
        self,
        account_id: Seq<char>,
        amount: u128,
        success: bool,
    ) -> AnyTokenView {
        if success {
            self
        } else {
            AnyTokenView { ledger: self.ledger.credit(account_id, amount), ..self }
        }
    }
}

/// The line that says why the token refused a call.
pub open spec fn rejection_line(error: BridgeError) -> Seq<char> {
    match error {
        BridgeError::Unauthorized => "FORBIDDEN"@,
        BridgeError::AlreadyProcessed => "Txhash is exist"@,
        BridgeError::InvalidAmount => "The amount should be a positive number"@,
        BridgeError::InsufficientBalance => "The account doesn't have enough balance"@,
        BridgeError::DependentCallFailed => "ERR_CALL_FAILED"@,
        BridgeError::MalformedInstruction => "ERR_MALFORMED_INSTRUCTION"@,
        BridgeError::AlreadyBound => "The underlying asset is bound already"@,
        BridgeError::NotYetBound => "No underlying asset is bound"@,
    }
}

/// The line that says why the token refused a call. The host ends the call
/// with it.
pub fn rejection(error: BridgeError) -> (line: &'static str)
    ensures
        line@ == rejection_line(error),
{
    match error {
        BridgeError::Unauthorized => "FORBIDDEN",
        BridgeError::AlreadyProcessed => "Txhash is exist",
        BridgeError::InvalidAmount => "The amount should be a positive number",
        BridgeError::InsufficientBalance => "The account doesn't have enough balance",
        BridgeError::DependentCallFailed => "ERR_CALL_FAILED",
        BridgeError::MalformedInstruction => "ERR_MALFORMED_INSTRUCTION",
        BridgeError::AlreadyBound => "The underlying asset is bound already",
        BridgeError::NotYetBound => "No underlying asset is bound",
    }
}

/// Compensation is exact. When the transfer of the underlying asset to a
/// receiver fails, the receiver holds `amount` more tokens than before, every
/// other account and the binding are as before, the total supply has grown by
/// `amount`, and the identifier is not committed.
pub proof fn compensation_is_exact(
    token: AnyTokenView,
    tx_hash: Seq<char>,
    receiver_id: Seq<char>,
    amount: u128,
    other: Seq<char>,
)
    requires
        token.ledger.wf(),
        token.ledger.total_supply + amount <= u128::MAX,
        other != receiver_id,
    ensures
        token.swap_in_callback_state(tx_hash, receiver_id, amount, false).ledger.wf(),
        token.swap_in_callback_state(tx_hash, receiver_id, amount, false).ledger.balance_of(receiver_id)
            == token.ledger.balance_of(receiver_id) + amount,
        token.swap_in_callback_state(tx_hash, receiver_id, amount, false).ledger.balance_of(other)
            == token.ledger.balance_of(other),
        token.swap_in_callback_state(tx_hash, receiver_id, amount, false).ledger.total_supply
            == token.ledger.total_supply + amount,
        token.swap_in_callback_state(tx_hash, receiver_id, amount, false).txs == token.txs,
        token.swap_in_callback_state(tx_hash, receiver_id, amount, false).underlying == token.underlying,
{
    lemma_credit(token.ledger, receiver_id, amount);
}

/// A withdrawal that fails is a net no-op on the ledger: after the debit and
/// the compensating credit the account holds what it held, and so does every
/// other account.
pub proof fn failed_withdrawal_restores(token: AnyTokenView, account_id: Seq<char>, amount: u128, other: Seq<char>)
    requires
        token.ledger.wf(),
        token.ledger.covers(account_id, amount),
    ensures
        token.ledger.debit(account_id, amount).credit(account_id, amount).wf(),
        token.ledger.debit(account_id, amount).credit(account_id, amount).balance_of(account_id)
            == token.ledger.balance_of(account_id),
        other != account_id ==> token.ledger.debit(account_id, amount).credit(account_id, amount).balance_of(other)
            == token.ledger.balance_of(other),
        token.ledger.debit(account_id, amount).credit(account_id, amount).total_supply == token.ledger.total_supply,
{
    lemma_debit(token.ledger, account_id, amount);
    lemma_credit(token.ledger.debit(account_id, amount), account_id, amount);
}

/// The entry points conserve value. Whatever they are called with, each
/// leaves the ledger well formed and changes the total supply by the amount
/// it was called with or not at all: an inbound credit and a compensation add
/// the amount, an outbound debit, a burn and the taking of tokens for the
/// underlying asset remove it.
pub proof fn entry_points_conserve_value(
    token: AnyTokenView,
    caller: Seq<char>,
    tx_hash: Seq<char>,
    account_id: Seq<char>,
    amount: u128,
    success: bool,
)
    requires
        token.ledger.wf(),
        token.ledger.total_supply + amount <= u128::MAX,
    ensures
        token.swap_in_state(caller, tx_hash, account_id, amount).ledger.wf(),
        token.swap_in_state(caller, tx_hash, account_id, amount).ledger.total_supply == token.ledger.total_supply + (
        if token.swap_in_verdict(caller, tx_hash, amount) is None && token.underlying is None {
            amount
        } else {
            0
        }),
        token.swap_in_callback_state(tx_hash, account_id, amount, success).ledger.wf(),
        token.swap_in_callback_state(tx_hash, account_id, amount, success).ledger.total_supply
            == token.ledger.total_supply + (if success {
            0
        } else {
            amount
        }),
        token.redeemed_state(account_id, amount, success).ledger.wf(),
        token.redeemed_state(account_id, amount, success).ledger.total_supply == token.ledger.total_supply + (
        if success {
            0
        } else {
            amount
        }),
        token.ledger.covers(account_id, amount) ==> token.ledger.debit(account_id, amount).wf()
            && token.ledger.debit(account_id, amount).total_supply == token.ledger.total_supply - amount,
{
    lemma_credit(token.ledger, account_id, amount);
    if token.ledger.covers(account_id, amount) {
        lemma_debit(token.ledger, account_id, amount);
    }
}

/// With the replay check on, a committed identifier counts once: the
/// authority's instruction that carries it again is refused as processed
/// before, and nothing changes, balances included.
pub proof fn token_replay_is_refused(
    token: AnyTokenView,
    current: Seq<char>,
    tx_hash: Seq<char>,
    receiver_id: Seq<char>,
    amount: u128,
    from_chain_id: u128,
)
    requires
        token.check_tx_hash,
        token.txs.contains(tx_hash),
    ensures
        token.swap_in(token.authority.current, current, tx_hash, receiver_id, amount, from_chain_id) == Err::<
            StepView<TokenCallbackView>,
            BridgeError,
        >(BridgeError::AlreadyProcessed),
        token.swap_in_state(token.authority.current, tx_hash, receiver_id, amount) == token,
{
}

/// The entry points reserved for the authority refuse anybody else as
/// unauthorized, and nothing changes.
pub proof fn token_is_gated(
    token: AnyTokenView,
    caller: Seq<char>,
    current: Seq<char>,
    tx_hash: Seq<char>,
    account_id: Seq<char>,
    amount: u128,
    from_chain_id: u128,
)
    requires
        caller != token.authority.current,
    ensures
        token.swap_in(caller, current, tx_hash, account_id, amount, from_chain_id) == Err::<
            StepView<TokenCallbackView>,
            BridgeError,
        >(BridgeError::Unauthorized),
        token.swap_in_state(caller, tx_hash, account_id, amount) == token,
        token.burn_verdict(caller, account_id, amount) == Some(BridgeError::Unauthorized),
        token.bind_verdict(caller) == Some(BridgeError::Unauthorized),
        token.authority.gate(caller) == Some(BridgeError::Unauthorized),
{
}

impl View for AnyToken {
    type V = AnyTokenView;

    closed spec fn view(&self) -> AnyTokenView {
        AnyTokenView {
            ledger: self.token@,
            authority: self.authority@,
            txs: self.txs@,
            check_tx_hash: self.check_tx_hash,
            underlying: crate::call::optional_text(self.underlying),
            metadata: self.metadata,
        }
    }
}

impl AnyToken {
    /// The state is well formed.
    pub open spec fn wf(&self) -> bool {
        self@.wf()
    }

    /// The token in the given state, where that state is well formed.
    pub fn restore(state: AnyTokenState) -> (token: Option<Self>)
        ensures
            match token {
                Some(token) => token.wf() && token@ == state@,
                None => !state@.wf(),
            },
    {
        let ledger = match Ledger::from_parts(state.accounts, state.total_supply) {
            Some(ledger) => ledger,
            None => {
                return None;
            },
        };
        let txs = match ReplayGuard::from_ids(state.txs) {
            Some(txs) => txs,
            None => {
                return None;
            },
        };
        Some(
            AnyToken {
                token: ledger,
                metadata: state.metadata,
                txs,
                authority: AuthorityRegistry::from_parts(state.mpc_id, state.new_mpc_id),
                check_tx_hash: state.check_tx_hash,
                underlying: state.underlying,
            },
        )
    }

    /// The state of the token as plain values.
    pub fn into_state(self) -> (state: AnyTokenState)
        ensures
            state@ == self@,
    {
        let (accounts, total_supply) = self.token.into_parts();
        let (mpc_id, new_mpc_id) = self.authority.into_parts();
        AnyTokenState {
            accounts,
            total_supply,
            metadata: self.metadata,
            txs: self.txs.into_ids(),
            mpc_id,
            new_mpc_id,
            check_tx_hash: self.check_tx_hash,
            underlying: self.underlying,
        }
    }

    /// Credits a receiver for a transfer of `amount` that happened on the
    /// chain `from_chain_id` under the identifier `tx_hash`. Only the authority
    /// may. Without an underlying asset the receiver is credited at once; with
    /// one, the asset is transferred, and the operation goes on in
    /// `swap_in_callback`.
    pub fn swap_in(
        &mut self,
        ctx: &Context,
        tx_hash: String,
        receiver_id: String,
        amount: u128,
        from_chain_id: u128,
    ) -> (next: Result<Step<TokenCallback>, BridgeError>)
        requires
            old(self).wf(),
            old(self)@.swap_in_verdict(ctx.predecessor@, tx_hash@, amount) is None && old(self)@.underlying is None
                ==> old(self)@.ledger.total_supply + amount <= u128::MAX,
        ensures
            final(self).wf(),
            final(self)@ == old(self)@.swap_in_state(ctx.predecessor@, tx_hash@, receiver_id@, amount),
            next is Err || old(self)@.underlying is Some ==> *final(self) == *old(self),
            stepped(
                next,
                old(self)@.swap_in(ctx.predecessor@, ctx.current@, tx_hash@, receiver_id@, amount, from_chain_id),
            ),
    {
        if !self.authority.is_authority(&ctx.predecessor) {
            return Err(BridgeError::Unauthorized);
        }
        if self.check_tx_hash && self.txs.has_processed(&tx_hash) {
            return Err(BridgeError::AlreadyProcessed);
        }
        if amount == 0 {
            return Err(BridgeError::InvalidAmount);
        }
        match &self.underlying {
            None => {
                self.txs.record(tx_hash);
                self.token.mint(&receiver_id, amount);
                Ok(
                    Step::Committed {
                        log: LogRecord::TokenSwapIn {
                            token: ctx.current.clone(),
                            receiver_id,
                            amount,
                            from_chain_id,
                        },
                    },
                )
            },
            Some(asset) => {
                Ok(
                    Step::Awaiting(
                        Dispatch {
                            first: Outgoing::Call {
                                contract: asset.clone(),
                                method: RemoteCall::FtTransfer {
                                    receiver_id: receiver_id.clone(),
                                    amount,
                                    memo: None,
                                },
                                deposit: MIN_BOND,
                                gas: BASE_GAS,
                            },
                            callback: TokenCallback::SwapInCallback { tx_hash, receiver_id, amount, from_chain_id },
                            callback_gas: BASE_GAS,
                        },
                    ),
                )
            },
        }
    }

    /// Ends an inbound credit that is paid in the underlying asset. When the
    /// asset moved, the identifier is committed. When it did not, the
    /// receiver is credited `amount` in tokens in its place, and the
    /// identifier stays uncommitted.
    pub fn swap_in_callback(
        &mut self,
        ctx: &Context,
        tx_hash: String,
        receiver_id: String,
        amount: u128,
        from_chain_id: u128,
        outcome: &CallOutcome,
    ) -> (end: Step<TokenCallback>)
        requires
            old(self).wf(),
            outcome is Failure ==> old(self)@.ledger.total_supply + amount <= u128::MAX,
        ensures
            final(self).wf(),
            final(self)@ == old(self)@.swap_in_callback_state(tx_hash@, receiver_id@, amount, outcome is Success),
            end@ == old(self)@.swap_in_callback(
                ctx.current@,
                receiver_id@,
                amount,
                from_chain_id,
                outcome is Success,
            ),
    {
        match outcome {
            CallOutcome::Success(_) => {
                self.txs.record(tx_hash);
                Step::Committed {
                    log: LogRecord::TokenSwapIn { token: ctx.current.clone(), receiver_id, amount, from_chain_id },
                }
            },
            CallOutcome::Failure => {
                self.token.mint(&receiver_id, amount);
                Step::RolledBack {
                    log: LogRecord::Compensated { token: ctx.current.clone(), account_id: receiver_id, amount },
                    refund: Refund::Nothing,
                }
            },
        }
    }

    /// Debits the caller, who moves `amount` to `receiver_id` on the chain
    /// `to_chain_id`, and logs the intent. Nothing else happens here: the
    /// authority sees the log and credits on the other chain.
    pub fn swap_out(
        &mut self,
        ctx: &Context,
        receiver_id: String,
        amount: u128,
        to_chain_id: u128,
    ) -> (done: Result<LogRecord, BridgeError>)
        requires
            old(self).wf(),
        ensures
            final(self).wf(),
            match old(self)@.swap_out_verdict(ctx.predecessor@, amount) {
                Some(error) => done == Err::<LogRecord, BridgeError>(error) && *final(self) == *old(self),
                None => {
                    &&& done is Ok
                    &&& done->Ok_0@ == (LogView::TokenSwapOut {
                        sender_id: ctx.predecessor@,
                        receiver_id: receiver_id@,
                        amount,
                        to_chain_id,
                    })
                    &&& final(self)@ == (AnyTokenView {
                        ledger: old(self)@.ledger.debit(ctx.predecessor@, amount),
                        ..old(self)@
                    })
                },
            },
    {
        if amount == 0 {
            return Err(BridgeError::InvalidAmount);
        }
        match self.token.debit(&ctx.predecessor, amount) {
            Ok(()) => Ok(
                LogRecord::TokenSwapOut { sender_id: ctx.predecessor.clone(), receiver_id, amount, to_chain_id },
            ),
            Err(error) => Err(error),
        }
    }

    /// Destroys `amount` of what `account_id` holds. Only the authority may.
    pub fn burn(
        &mut self,
        ctx: &Context,
        account_id: String,
        amount: u128,
    ) -> (done: Result<LogRecord, BridgeError>)
        requires
            old(self).wf(),
        ensures
            final(self).wf(),
            match old(self)@.burn_verdict(ctx.predecessor@, account_id@, amount) {
                Some(error) => done == Err::<LogRecord, BridgeError>(error) && *final(self) == *old(self),
                None => {
                    &&& done is Ok
                    &&& done->Ok_0@ == (LogView::AccountBurned { account_id: account_id@, amount })
                    &&& final(self)@ == (AnyTokenView {
                        ledger: old(self)@.ledger.debit(account_id@, amount),
                        ..old(self)@
                    })
                },
            },
    {
        if !self.authority.is_authority(&ctx.predecessor) {
            return Err(BridgeError::Unauthorized);
        }
        if amount == 0 {
            return Err(BridgeError::InvalidAmount);
        }
        match self.token.debit(&account_id, amount) {
            Ok(()) => Ok(LogRecord::AccountBurned { account_id, amount }),
            Err(error) => Err(error),
        }
    }

    /// Binds the token to the asset it stands for. Only the authority may,
    /// and only once.
    pub fn set_underlying(&mut self, ctx: &Context, underlying: String) -> (done: Result<(), BridgeError>)
        ensures
            final(self).wf() == old(self).wf(),
            match old(self)@.bind_verdict(ctx.predecessor@) {
                Some(error) => done == Err::<(), BridgeError>(error) && *final(self) == *old(self),
                None => done is Ok && final(self)@ == (AnyTokenView { underlying: Some(underlying@), ..old(self)@ }),
            },
    {
        if !self.authority.is_authority(&ctx.predecessor) {
            return Err(BridgeError::Unauthorized);
        }
        if self.underlying.is_some() {
            return Err(BridgeError::AlreadyBound);
        }
        self.underlying = Some(underlying);
        Ok(())
    }

    /// Takes `amount` of tokens from the caller and transfers as much of the
    /// underlying asset to `receiver_id`, with `callback` to see how the
    /// transfer ended.
    fn redeem(
        &mut self,
        ctx: &Context,
        receiver_id: String,
        amount: u128,
        callback: TokenCallback,
    ) -> (next: Result<Forwarding, BridgeError>)
        requires
            old(self).wf(),
        ensures
            final(self).wf(),
            match old(self)@.redeem_verdict(ctx.predecessor@, ctx.attached_deposit, amount) {
                Some(error) => next == Err::<Forwarding, BridgeError>(error) && *final(self) == *old(self),
                None => {
                    &&& next is Ok
                    &&& next->Ok_0.surplus == ctx.attached_deposit - MIN_BOND
                    &&& next->Ok_0.dispatch@ == forward(
                        old(self)@.underlying->Some_0,
                        receiver_id@,
                        amount,
                        callback@,
                    )
                    &&& final(self)@ == (AnyTokenView {
                        ledger: old(self)@.ledger.debit(ctx.predecessor@, amount),
                        ..old(self)@
                    })
                },
            },
    {
        let asset = match &self.underlying {
            Some(asset) => asset.clone(),
            None => {
                return Err(BridgeError::NotYetBound);
            },
        };
        if ctx.attached_deposit < MIN_BOND || amount == 0 {
            return Err(BridgeError::InvalidAmount);
        }
        match self.token.debit(&ctx.predecessor, amount) {
            Ok(()) => {},
            Err(error) => {
                return Err(error);
            },
        }
        Ok(
            Forwarding {
                dispatch: Dispatch {
                    first: Outgoing::Call {
                        contract: asset,
                        method: RemoteCall::FtTransfer { receiver_id, amount, memo: None },
                        deposit: MIN_BOND,
                        gas: BASE_GAS,
                    },
                    callback,
                    callback_gas: BASE_GAS,
                },
                surplus: ctx.attached_deposit - MIN_BOND,
            },
        )
    }

    /// Takes `amount` of tokens from the caller and transfers as much of the
    /// underlying asset to them. The caller attaches a bond; what is attached
    /// beyond it goes back at once. The operation goes on in
    /// `withdraw_callback`.
    pub fn withdraw_underlying(
        &mut self,
        ctx: &Context,
        amount: u128,
    ) -> (next: Result<Forwarding, BridgeError>)
        requires
            old(self).wf(),
        ensures
            final(self).wf(),
            match old(self)@.redeem_verdict(ctx.predecessor@, ctx.attached_deposit, amount) {
                Some(error) => next == Err::<Forwarding, BridgeError>(error) && *final(self) == *old(self),
                None => {
                    &&& next is Ok
                    &&& next->Ok_0.surplus == ctx.attached_deposit - MIN_BOND
                    &&& next->Ok_0.dispatch@ == forward(
                        old(self)@.underlying->Some_0,
                        ctx.predecessor@,
                        amount,
                        TokenCallbackView::WithdrawCallback { account_id: ctx.predecessor@, amount },
                    )
                    &&& final(self)@ == (AnyTokenView {
                        ledger: old(self)@.ledger.debit(ctx.predecessor@, amount),
                        ..old(self)@
                    })
                },
            },
    {
        let callback = TokenCallback::WithdrawCallback { account_id: ctx.predecessor.clone(), amount };
        self.redeem(ctx, ctx.predecessor.clone(), amount, callback)
    }

    /// Takes `amount` of tokens from the caller and deposits as much of the
    /// underlying asset with `receiver_id`. The caller attaches a bond; what
    /// is attached beyond it goes back at once. The operation goes on in
    /// `deposit_callback`.
    pub fn deposit_underlying(
        &mut self,
        ctx: &Context,
        receiver_id: String,
        amount: u128,
    ) -> (next: Result<Forwarding, BridgeError>)
        requires
            old(self).wf(),
        ensures
            final(self).wf(),
            match old(self)@.redeem_verdict(ctx.predecessor@, ctx.attached_deposit, amount) {
                Some(error) => next == Err::<Forwarding, BridgeError>(error) && *final(self) == *old(self),
                None => {
                    &&& next is Ok
                    &&& next->Ok_0.surplus == ctx.attached_deposit - MIN_BOND
                    &&& next->Ok_0.dispatch@ == forward(
                        old(self)@.underlying->Some_0,
                        receiver_id@,
                        amount,
                        TokenCallbackView::DepositCallback {
                            account_id: ctx.predecessor@,
                            receiver_id: receiver_id@,
                            amount,
                        },
                    )
                    &&& final(self)@ == (AnyTokenView {
                        ledger: old(self)@.ledger.debit(ctx.predecessor@, amount),
                        ..old(self)@
                    })
                },
            },
    {
        let callback = TokenCallback::DepositCallback {
            account_id: ctx.predecessor.clone(),
            receiver_id: receiver_id.clone(),
            amount,
        };
        self.redeem(ctx, receiver_id, amount, callback)
    }

    /// Ends a withdrawal of the underlying asset. When the asset did not
    /// move, the account gets its tokens and its bond back.
    pub fn withdraw_callback(
        &mut self,
        ctx: &Context,
        account_id: String,
        amount: u128,
        outcome: &CallOutcome,
    ) -> (end: Step<TokenCallback>)
        requires
            old(self).wf(),
            outcome is Failure ==> old(self)@.ledger.total_supply + amount <= u128::MAX,
        ensures
            final(self).wf(),
            final(self)@ == old(self)@.redeemed_state(account_id@, amount, outcome is Success),
            outcome is Success ==> *final(self) == *old(self),
            end@ == old(self)@.redeemed(ctx.current@, account_id@, account_id@, amount, outcome is Success),
    {
        let receiver_id = account_id.clone();
        self.settle_redeem(ctx, account_id, receiver_id, amount, outcome)
    }

    /// Ends a deposit of the underlying asset with `receiver_id`. When the
    /// asset did not move, the account that paid gets its tokens and its bond
    /// back.
    pub fn deposit_callback(
        &mut self,
        ctx: &Context,
        account_id: String,
        receiver_id: String,
        amount: u128,
        outcome: &CallOutcome,
    ) -> (end: Step<TokenCallback>)
        requires
            old(self).wf(),
            outcome is Failure ==> old(self)@.ledger.total_supply + amount <= u128::MAX,
        ensures
            final(self).wf(),
            final(self)@ == old(self)@.redeemed_state(account_id@, amount, outcome is Success),
            outcome is Success ==> *final(self) == *old(self),
            end@ == old(self)@.redeemed(ctx.current@, account_id@, receiver_id@, amount, outcome is Success),
    {
        self.settle_redeem(ctx, account_id, receiver_id, amount, outcome)
    }

    fn settle_redeem(
        &mut self,
        ctx: &Context,
        account_id: String,
        receiver_id: String,
        amount: u128,
        outcome: &CallOutcome,
    ) -> (end: Step<TokenCallback>)
        requires
            old(self).wf(),
            outcome is Failure ==> old(self)@.ledger.total_supply + amount <= u128::MAX,
        ensures
            final(self).wf(),
            final(self)@ == old(self)@.redeemed_state(account_id@, amount, outcome is Success),
            outcome is Success ==> *final(self) == *old(self),
            end@ == old(self)@.redeemed(ctx.current@, account_id@, receiver_id@, amount, outcome is Success),
    {
        match outcome {
            CallOutcome::Success(_) => Step::Committed {
                log: LogRecord::Forwarded { token: ctx.current.clone(), account_id: receiver_id, amount },
            },
            CallOutcome::Failure => {
                self.token.mint(&account_id, amount);
                Step::RolledBack {
                    log: LogRecord::Compensated {
                        token: ctx.current.clone(),
                        account_id: account_id.clone(),
                        amount,
                    },
                    refund: Refund::Native { receiver_id: account_id, amount: MIN_BOND },
                }
            },
        }
    }

    /// Goes on with a suspended operation: hands the outcome of the dependent
    /// call to the entry point that the continuation names.
    pub fn resume(
        &mut self,
        ctx: &Context,
        callback: TokenCallback,
        outcome: &CallOutcome,
    ) -> (end: Step<TokenCallback>)
        requires
            old(self).wf(),
            outcome is Failure ==> old(self)@.ledger.total_supply + (match callback {
                TokenCallback::SwapInCallback { tx_hash, receiver_id, amount, from_chain_id } => amount,
                TokenCallback::WithdrawCallback { account_id, amount } => amount,
                TokenCallback::DepositCallback { account_id, receiver_id, amount } => amount,
            }) <= u128::MAX,
        ensures
            final(self).wf(),
            match callback@ {
                TokenCallbackView::SwapInCallback { tx_hash, receiver_id, amount, from_chain_id } => {
                    &&& final(self)@ == old(self)@.swap_in_callback_state(
                        tx_hash,
                        receiver_id,
                        amount,
                        outcome is Success,
                    )
                    &&& end@ == old(self)@.swap_in_callback(
                        ctx.current@,
                        receiver_id,
                        amount,
                        from_chain_id,
                        outcome is Success,
                    )
                },
                TokenCallbackView::WithdrawCallback { account_id, amount } => {
                    &&& final(self)@ == old(self)@.redeemed_state(account_id, amount, outcome is Success)
                    &&& end@ == old(self)@.redeemed(
                        ctx.current@,
                        account_id,
                        account_id,
                        amount,
                        outcome is Success,
                    )
                },
                TokenCallbackView::DepositCallback { account_id, receiver_id, amount } => {
                    &&& final(self)@ == old(self)@.redeemed_state(account_id, amount, outcome is Success)
                    &&& end@ == old(self)@.redeemed(
                        ctx.current@,
                        account_id,
                        receiver_id,
                        amount,
                        outcome is Success,
                    )
                },
            },
    {
        match callback {
            TokenCallback::SwapInCallback { tx_hash, receiver_id, amount, from_chain_id } => {
                self.swap_in_callback(ctx, tx_hash, receiver_id, amount, from_chain_id, outcome)
            },
            TokenCallback::WithdrawCallback { account_id, amount } => {
                self.withdraw_callback(ctx, account_id, amount, outcome)
            },
            TokenCallback::DepositCallback { account_id, receiver_id, amount } => {
                self.deposit_callback(ctx, account_id, receiver_id, amount, outcome)
            },
        }
    }

    /// A token under the authority `mpc_id`, which holds the whole initial
    /// supply. No asset is bound and nothing is committed.
    pub fn new(
        mpc_id: String,
        total_supply: u128,
        metadata: TokenMetadata,
        check_tx_hash: bool,
    ) -> (token: Self)
        requires
            metadata.valid(),
        ensures
            token.wf(),
            token@ == (AnyTokenView {
                ledger: LedgerView { accounts: seq![(mpc_id@, total_supply)], total_supply },
                authority: AuthorityView { current: mpc_id@, pending: mpc_id@ },
                txs: Seq::empty(),
                check_tx_hash,
                underlying: None,
                metadata,
            }),
    {
        assert_valid(&metadata);
        let mut ledger = Ledger::new();
        ledger.mint(&mpc_id, total_supply);
        AnyToken {
            token: ledger,
            metadata,
            txs: ReplayGuard::new(),
            authority: AuthorityRegistry::new(mpc_id),
            check_tx_hash,
            underlying: None,
        }
    }

    /// A token as `new` makes it, with metadata in the known layout, the
    /// default icon and no reference.
    pub fn new_default_meta(
        mpc_id: String,
        total_supply: u128,
        check_tx_hash: bool,
        name: String,
        symbol: String,
        decimals: u8,
    ) -> (token: Self)
        ensures
            token.wf(),
            token@.ledger == (LedgerView { accounts: seq![(mpc_id@, total_supply)], total_supply }),
            token@.authority == (AuthorityView { current: mpc_id@, pending: mpc_id@ }),
            token@.txs == Seq::<Seq<char>>::empty(),
            token@.check_tx_hash == check_tx_hash,
            token@.underlying is None,
            token@.metadata.valid(),
            token@.metadata.name == name,
            token@.metadata.symbol == symbol,
            token@.metadata.decimals == decimals,
            token@.metadata.icon matches Some(icon) && icon@ == crate::metadata::DATA_IMAGE_SVG_NEAR_ICON@,
            token@.metadata.reference is None,
    {
        Self::new(mpc_id, total_supply, TokenMetadata::with_defaults(name, symbol, decimals), check_tx_hash)
    }

    /// Switches the replay check on or off. Only the authority may.
    pub fn set_check_flag(&mut self, ctx: &Context, flag: bool) -> (done: Result<LogRecord, BridgeError>)
        ensures
            final(self).wf() == old(self).wf(),
            match old(self)@.authority.gate(ctx.predecessor@) {
                Some(error) => done == Err::<LogRecord, BridgeError>(error) && *final(self) == *old(self),
                None => {
                    &&& done is Ok
                    &&& done->Ok_0@ == (LogView::CheckFlag { flag })
                    &&& final(self)@ == (AnyTokenView { check_tx_hash: flag, ..old(self)@ })
                },
            },
    {
        if !self.authority.is_authority(&ctx.predecessor) {
            return Err(BridgeError::Unauthorized);
        }
        self.check_tx_hash = flag;
        Ok(LogRecord::CheckFlag { flag })
    }

    /// The authority.
    pub fn mpc_id(&self) -> (id: String)
        ensures
            id@ == self@.authority.current,
    {
        self.authority.current()
    }

    /// The account proposed to follow the authority.
    pub fn new_mpc_id(&self) -> (id: String)
        ensures
            id@ == self@.authority.pending,
    {
        self.authority.pending()
    }

    /// Proposes `new_mpc_id` as the following authority. Only the authority
    /// may, and it stays the authority until the proposed account takes over.
    pub fn change_mpc_id(&mut self, ctx: &Context, new_mpc_id: String) -> (done: Result<(), BridgeError>)
        ensures
            final(self).wf() == old(self).wf(),
            match old(self)@.authority.propose(ctx.predecessor@, new_mpc_id@) {
                Ok(authority) => done is Ok && final(self)@ == (AnyTokenView { authority, ..old(self)@ }),
                Err(error) => done == Err::<(), BridgeError>(error) && *final(self) == *old(self),
            },
    {
        self.authority.propose(&ctx.predecessor, new_mpc_id)
    }

    /// Makes the caller the authority. Only the proposed account may.
    pub fn apply_mpc_id(&mut self, ctx: &Context) -> (done: Result<(), BridgeError>)
        ensures
            final(self).wf() == old(self).wf(),
            match old(self)@.authority.finalize(ctx.predecessor@) {
                Ok(authority) => done is Ok && final(self)@ == (AnyTokenView { authority, ..old(self)@ }),
                Err(error) => done == Err::<(), BridgeError>(error) && *final(self) == *old(self),
            },
    {
        self.authority.finalize(&ctx.predecessor)
    }

    /// The asset that the token stands for, once bound.
    pub fn underlying(&self) -> (asset: Option<String>)
        ensures
            crate::call::optional_text(asset) == self@.underlying,
    {
        match &self.underlying {
            Some(asset) => Some(asset.clone()),
            None => None,
        }
    }

    /// Whether a committed identifier is refused when it comes again.
    pub fn check_flag(&self) -> (flag: bool)
        ensures
            flag == self@.check_tx_hash,
    {
        self.check_tx_hash
    }

    /// Whether the identifier has been committed.
    pub fn check_tx(&self, tx_hash: &String) -> (known: bool)
        ensures
            known == self@.txs.contains(tx_hash@),
    {
        self.txs.has_processed(tx_hash)
    }

    /// What the token says about itself.
    pub fn ft_metadata(&self) -> (metadata: &TokenMetadata)
        ensures
            *metadata == self@.metadata,
    {
        &self.metadata
    }

    /// What the account holds; nothing where it is not registered.
    pub fn ft_balance_of(&self, account_id: &String) -> (balance: u128)
        requires
            self.wf(),
        ensures
            balance == self@.ledger.balance_of(account_id@),
    {
        self.token.balance_of(account_id)
    }

    /// Whether the total supply stays representable when `amount` is credited.
    pub fn can_credit(&self, amount: u128) -> (fits: bool)
        ensures
            fits == (self@.ledger.total_supply + amount <= u128::MAX),
    {
        self.token.total_supply().checked_add(amount).is_some()
    }

    /// The sum of all balances.
    pub fn ft_total_supply(&self) -> (supply: u128)
        ensures
            supply == self@.ledger.total_supply,
    {
        self.token.total_supply()
    }
}

} // verus!
