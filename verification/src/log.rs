//! The records of the audit trail and the lines they are written as.

use crate::text::{decimal, flag_text, push_decimal, push_flag};
use vstd::prelude::*;
use vstd::string::*;

verus! {

/// One line of the audit trail. The off-chain authority learns of outbound
/// intents from these, and each terminal outcome of a swap leaves one.
#[derive(Clone, Debug, PartialEq, Eq)]
pub enum LogRecord {
    /// The router committed an inbound credit.
    SwapIn { tx: String, token: String, to: String, amount: u128, from_chain_id: String, to_chain_id: String },
    /// The router committed an inbound credit of native value.
    SwapInNative { tx: String, to: String, amount: u128, from_chain_id: String, to_chain_id: String },
    /// The router committed an outbound transfer of a token.
    SwapOut { token: String, from: String, to: String, amount: u128, from_chain_id: String, to_chain_id: String },
    /// The router committed an outbound transfer of native value.
    SwapOutNative {
        token: String,
        from: String,
        to: String,
        amount: u128,
        from_chain_id: String,
        to_chain_id: String,
    },
    /// Tokens that came with an outbound instruction go back to their sender.
    SwapOutRefund { token: String, from: String, amount: u128 },
    /// Native value goes back after a dependent transfer failed.
    RefundNative { amount: u128, from: String, to: String },
    /// The message attached to an incoming transfer names no known operation.
    MessageNotMatched,
    /// The ledger switched its replay check on or off.
    CheckFlag { flag: bool },
    /// The ledger credited a receiver for an event on another chain.
    TokenSwapIn { token: String, receiver_id: String, amount: u128, from_chain_id: u128 },
    /// The ledger debited a sender who moves value to another chain.
    TokenSwapOut { sender_id: String, receiver_id: String, amount: u128, to_chain_id: u128 },
    /// The ledger destroyed tokens of an account.
    AccountBurned { account_id: String, amount: u128 },
    /// The ledger credited an account again after a dependent transfer failed.
    Compensated { token: String, account_id: String, amount: u128 },
    /// The ledger handed the underlying asset out.
    Forwarded { token: String, account_id: String, amount: u128 },
    /// A pool took native value for another chain.
    PoolSwapOut { sender_id: String, receiver_id: String, amount: u128, to_chain_id: u128 },
    /// A pool that names itself took native value for another chain.
    NamedPoolSwapOut { pool: String, sender_id: String, receiver_id: String, amount: u128, to_chain_id: u128 },
}

/// What a log record says, with texts as sequences of characters.
pub ghost enum LogView {
    SwapIn {
        tx: Seq<char>,
        token: Seq<char>,
        to: Seq<char>,
        amount: u128,
        from_chain_id: Seq<char>,
        to_chain_id: Seq<char>,
    },
    SwapInNative { tx: Seq<char>, to: Seq<char>, amount: u128, from_chain_id: Seq<char>, to_chain_id: Seq<char> },
    SwapOut {
        token: Seq<char>,
        from: Seq<char>,
        to: Seq<char>,
        amount: u128,
        from_chain_id: Seq<char>,
        to_chain_id: Seq<char>,
    },
    SwapOutNative {
        token: Seq<char>,
        from: Seq<char>,
        to: Seq<char>,
        amount: u128,
        from_chain_id: Seq<char>,
        to_chain_id: Seq<char>,
    },
    SwapOutRefund { token: Seq<char>, from: Seq<char>, amount: u128 },
    RefundNative { amount: u128, from: Seq<char>, to: Seq<char> },
    MessageNotMatched,
    CheckFlag { flag: bool },
    TokenSwapIn { token: Seq<char>, receiver_id: Seq<char>, amount: u128, from_chain_id: u128 },
    TokenSwapOut { sender_id: Seq<char>, receiver_id: Seq<char>, amount: u128, to_chain_id: u128 },
    AccountBurned { account_id: Seq<char>, amount: u128 },
    Compensated { token: Seq<char>, account_id: Seq<char>, amount: u128 },
    Forwarded { token: Seq<char>, account_id: Seq<char>, amount: u128 },
    PoolSwapOut { sender_id: Seq<char>, receiver_id: Seq<char>, amount: u128, to_chain_id: u128 },
    NamedPoolSwapOut {
        pool: Seq<char>,
        sender_id: Seq<char>,
        receiver_id: Seq<char>,
        amount: u128,
        to_chain_id: u128,
    },
}

impl View for LogRecord {
    type V = LogView;

    open spec fn view(&self) -> LogView {
        match *self {
            LogRecord::SwapIn { tx, token, to, amount, from_chain_id, to_chain_id } => LogView::SwapIn {
                tx: tx@,
                token: token@,
                to: to@,
                amount,
                from_chain_id: from_chain_id@,
                to_chain_id: to_chain_id@,
            },
            LogRecord::SwapInNative { tx, to, amount, from_chain_id, to_chain_id } => LogView::SwapInNative {
                tx: tx@,
                to: to@,
                amount,
                from_chain_id: from_chain_id@,
                to_chain_id: to_chain_id@,
            },
            LogRecord::SwapOut { token, from, to, amount, from_chain_id, to_chain_id } => LogView::SwapOut {
                token: token@,
                from: from@,
                to: to@,
                amount,
                from_chain_id: from_chain_id@,
                to_chain_id: to_chain_id@,
            },
            LogRecord::SwapOutNative { token, from, to, amount, from_chain_id, to_chain_id } =>
                LogView::SwapOutNative {
                token: token@,
                from: from@,
                to: to@,
                amount,
                from_chain_id: from_chain_id@,
                to_chain_id: to_chain_id@,
            },
            LogRecord::SwapOutRefund { token, from, amount } => LogView::SwapOutRefund {
                token: token@,
                from: from@,
                amount,
            },
            LogRecord::RefundNative { amount, from, to } => LogView::RefundNative { amount, from: from@, to: to@ },
            LogRecord::MessageNotMatched => LogView::MessageNotMatched,
            LogRecord::CheckFlag { flag } => LogView::CheckFlag { flag },
            LogRecord::TokenSwapIn { token, receiver_id, amount, from_chain_id } => LogView::TokenSwapIn {
                token: token@,
                receiver_id: receiver_id@,
                amount,
                from_chain_id,
            },
            LogRecord::TokenSwapOut { sender_id, receiver_id, amount, to_chain_id } => LogView::TokenSwapOut {
                sender_id: sender_id@,
                receiver_id: receiver_id@,
                amount,
                to_chain_id,
            },
            LogRecord::AccountBurned { account_id, amount } => LogView::AccountBurned {
                account_id: account_id@,
                amount,
            },
            LogRecord::Compensated { token, account_id, amount } => LogView::Compensated {
                token: token@,
                account_id: account_id@,
                amount,
            },
            LogRecord::Forwarded { token, account_id, amount } => LogView::Forwarded {
                token: token@,
                account_id: account_id@,
                amount,
            },
            LogRecord::PoolSwapOut { sender_id, receiver_id, amount, to_chain_id } => LogView::PoolSwapOut {
                sender_id: sender_id@,
                receiver_id: receiver_id@,
                amount,
                to_chain_id,
            },
            LogRecord::NamedPoolSwapOut { pool, sender_id, receiver_id, amount, to_chain_id } =>
                LogView::NamedPoolSwapOut {
                pool: pool@,
                sender_id: sender_id@,
                receiver_id: receiver_id@,
                amount,
                to_chain_id,
            },
        }
    }
}

/// The line of text that a record is written as.
pub open spec fn line(record: LogView) -> Seq<char> {
    match record {
        LogView::SwapIn { tx, token, to, amount, from_chain_id, to_chain_id } => "LogSwapIn txs "@ + tx
            + " token "@ + token + " to "@ + to + " amount "@ + decimal(amount as nat) + " fromChainId "@
            + from_chain_id + " toChainId "@ + to_chain_id,
        LogView::SwapInNative { tx, to, amount, from_chain_id, to_chain_id } => "LogSwapInNative txs "@ + tx
            + " to "@ + to + " amount "@ + decimal(amount as nat) + " fromChainId "@ + from_chain_id
            + " toChainId "@ + to_chain_id,
        LogView::SwapOut { token, from, to, amount, from_chain_id, to_chain_id } => "LogSwapOut token "@
            + token + " from "@ + from + " to "@ + to + " amount "@ + decimal(amount as nat)
            + " fromChainId "@ + from_chain_id + " toChainId "@ + to_chain_id,
        LogView::SwapOutNative { token, from, to, amount, from_chain_id, to_chain_id } => "LogSwapOutNative token "@
            + token + " from "@ + from + " to "@ + to + " amount "@ + decimal(amount as nat)
            + " fromChainId "@ + from_chain_id + " toChainId "@ + to_chain_id,
        LogView::SwapOutRefund { token, from, amount } => "Refund token "@ + token + " amount "@ + decimal(
            amount as nat,
        ) + " to "@ + from,
        LogView::RefundNative { amount, from, to } => "Refund native "@ + decimal(amount as nat) + " from "@
            + from + " to "@ + to,
        LogView::MessageNotMatched => "Router: msg parse not match"@,
        LogView::CheckFlag { flag } => "Update check tx hash flag to "@ + flag_text(flag),
        LogView::TokenSwapIn { token, receiver_id, amount, from_chain_id } => "SwapIn "@ + token + " receiver_id "@
            + receiver_id + " amount "@ + decimal(amount as nat) + " from_chain_id "@ + decimal(
            from_chain_id as nat,
        ),
        LogView::TokenSwapOut { sender_id, receiver_id, amount, to_chain_id } => "SwapOut sender_id "@ + sender_id
            + " receiver_id "@ + receiver_id + " amount "@ + decimal(amount as nat) + " to_chain_id "@
            + decimal(to_chain_id as nat),
        LogView::AccountBurned { account_id, amount } => "Account @"@ + account_id + " burned "@ + decimal(
            amount as nat,
        ),
        LogView::Compensated { token, account_id, amount } => "Compensate "@ + token + " account_id "@
            + account_id + " amount "@ + decimal(amount as nat),
        LogView::Forwarded { token, account_id, amount } => "Forward "@ + token + " account_id "@ + account_id
            + " amount "@ + decimal(amount as nat),
        LogView::PoolSwapOut { sender_id, receiver_id, amount, to_chain_id } => "SwapOutNative sender_id "@
            + sender_id + " receiver_id "@ + receiver_id + " amount "@ + decimal(amount as nat)
            + " to_chain_id "@ + decimal(to_chain_id as nat),
        LogView::NamedPoolSwapOut { pool, sender_id, receiver_id, amount, to_chain_id } => "SwapOutNative "@
            + pool + " sender_id "@ + sender_id + " receiver_id "@ + receiver_id + " amount "@ + decimal(
            amount as nat,
        ) + " to_chain_id "@ + decimal(to_chain_id as nat),
    }
}

impl LogRecord {
    /// Writes the record as the line of text that goes to the host's log.
    pub fn render(&self) -> (text: String)
        ensures
            text@ == line(self@),
    {
        let mut out = String::new();
        match self {
            LogRecord::SwapIn { tx, token, to, amount, from_chain_id, to_chain_id } => {
                out.append("LogSwapIn txs ");
                out.append(tx.as_str());
                out.append(" token ");
                out.append(token.as_str());
                out.append(" to ");
                out.append(to.as_str());
                out.append(" amount ");
                push_decimal(&mut out, *amount);
                out.append(" fromChainId ");
                out.append(from_chain_id.as_str());
                out.append(" toChainId ");
                out.append(to_chain_id.as_str());
            },
            LogRecord::SwapInNative { tx, to, amount, from_chain_id, to_chain_id } => {
                out.append("LogSwapInNative txs ");
                out.append(tx.as_str());
                out.append(" to ");
                out.append(to.as_str());
                out.append(" amount ");
                push_decimal(&mut out, *amount);
                out.append(" fromChainId ");
                out.append(from_chain_id.as_str());
                out.append(" toChainId ");
                out.append(to_chain_id.as_str());
            },
            LogRecord::SwapOut { token, from, to, amount, from_chain_id, to_chain_id } => {
                out.append("LogSwapOut token ");
                out.append(token.as_str());
                out.append(" from ");
                out.append(from.as_str());
                out.append(" to ");
                out.append(to.as_str());
                out.append(" amount ");
                push_decimal(&mut out, *amount);
                out.append(" fromChainId ");
                out.append(from_chain_id.as_str());
                out.append(" toChainId ");
                out.append(to_chain_id.as_str());
            },
            LogRecord::SwapOutNative { token, from, to, amount, from_chain_id, to_chain_id } => {
                out.append("LogSwapOutNative token ");
                out.append(token.as_str());
                out.append(" from ");
                out.append(from.as_str());
                out.append(" to ");
                out.append(to.as_str());
                out.append(" amount ");
                push_decimal(&mut out, *amount);
                out.append(" fromChainId ");
                out.append(from_chain_id.as_str());
                out.append(" toChainId ");
                out.append(to_chain_id.as_str());
            },
            LogRecord::SwapOutRefund { token, from, amount } => {
                out.append("Refund token ");
                out.append(token.as_str());
                out.append(" amount ");
                push_decimal(&mut out, *amount);
                out.append(" to ");
                out.append(from.as_str());
            },
            LogRecord::RefundNative { amount, from, to } => {
                out.append("Refund native ");
                push_decimal(&mut out, *amount);
                out.append(" from ");
                out.append(from.as_str());
                out.append(" to ");
                out.append(to.as_str());
            },
            LogRecord::MessageNotMatched => {
                out.append("Router: msg parse not match");
            },
            LogRecord::CheckFlag { flag } => {
                out.append("Update check tx hash flag to ");
                push_flag(&mut out, *flag);
            },
            LogRecord::TokenSwapIn { token, receiver_id, amount, from_chain_id } => {
                out.append("SwapIn ");
                out.append(token.as_str());
                out.append(" receiver_id ");
                out.append(receiver_id.as_str());
                out.append(" amount ");
                push_decimal(&mut out, *amount);
                out.append(" from_chain_id ");
                push_decimal(&mut out, *from_chain_id);
            },
            LogRecord::TokenSwapOut { sender_id, receiver_id, amount, to_chain_id } => {
                out.append("SwapOut sender_id ");
                out.append(sender_id.as_str());
                out.append(" receiver_id ");
                out.append(receiver_id.as_str());
                out.append(" amount ");
                push_decimal(&mut out, *amount);
                out.append(" to_chain_id ");
                push_decimal(&mut out, *to_chain_id);
            },
            LogRecord::AccountBurned { account_id, amount } => {
                out.append("Account @");
                out.append(account_id.as_str());
                out.append(" burned ");
                push_decimal(&mut out, *amount);
            },
            LogRecord::Compensated { token, account_id, amount } => {
                out.append("Compensate ");
                out.append(token.as_str());
                out.append(" account_id ");
                out.append(account_id.as_str());
                out.append(" amount ");
                push_decimal(&mut out, *amount);
            },
            LogRecord::Forwarded { token, account_id, amount } => {
                out.append("Forward ");
                out.append(token.as_str());
                out.append(" account_id ");
                out.append(account_id.as_str());
                out.append(" amount ");
                push_decimal(&mut out, *amount);
            },
            LogRecord::PoolSwapOut { sender_id, receiver_id, amount, to_chain_id } => {
                out.append("SwapOutNative sender_id ");
                out.append(sender_id.as_str());
                out.append(" receiver_id ");
                out.append(receiver_id.as_str());
                out.append(" amount ");
                push_decimal(&mut out, *amount);
                out.append(" to_chain_id ");
                push_decimal(&mut out, *to_chain_id);
            },
            LogRecord::NamedPoolSwapOut { pool, sender_id, receiver_id, amount, to_chain_id } => {
                out.append("SwapOutNative ");
                out.append(pool.as_str());
                out.append(" sender_id ");
                out.append(sender_id.as_str());
                out.append(" receiver_id ");
                out.append(receiver_id.as_str());
                out.append(" amount ");
                push_decimal(&mut out, *amount);
                out.append(" to_chain_id ");
                push_decimal(&mut out, *to_chain_id);
            },
        }
        out
    }
}

} // verus!
