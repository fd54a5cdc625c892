use anyswap_bridge::authority::AuthorityRegistry;
use anyswap_bridge::call::Context;
use anyswap_bridge::error::BridgeError;
use anyswap_bridge::gas::{GasBudgetTable, BASE_GAS, GAS_FOR_FT_TRANSFER_CALL};
use anyswap_bridge::ledger::Ledger;
use anyswap_bridge::log::LogRecord;
use anyswap_bridge::replay::ReplayGuard;

fn s(text: &str) -> String {
    text.to_string()
}

#[test]
fn replay_guard_remembers() {
    let mut guard = ReplayGuard::new();
    assert_eq!(guard.len(), 0);
    assert!(!guard.has_processed(&s("tx1")));
    assert_eq!(guard.mark_processed(s("tx1")), Ok(()));
    assert!(guard.has_processed(&s("tx1")));
    assert_eq!(guard.mark_processed(s("tx1")), Err(BridgeError::AlreadyProcessed));
    assert_eq!(guard.len(), 1);
    assert!(guard.record(s("tx2")));
    assert!(!guard.record(s("tx2")));
    assert!(!guard.record(s("tx1")));
    assert_eq!(guard.all(), vec![s("tx1"), s("tx2")]);
    assert!(!guard.has_processed(&s("tx")));
    assert!(!guard.has_processed(&s("tx11")));
}

#[test]
fn replay_guard_takes_the_empty_identifier() {
    let mut guard = ReplayGuard::new();
    assert!(!guard.has_processed(&s("")));
    assert_eq!(guard.mark_processed(s("")), Ok(()));
    assert!(guard.has_processed(&s("")));
    assert_eq!(guard.mark_processed(s("")), Err(BridgeError::AlreadyProcessed));
}

#[test]
fn authority_registry_rotates_in_two_steps() {
    let mut registry = AuthorityRegistry::new(s("a.near"));
    assert_eq!(registry.current(), "a.near");
    assert_eq!(registry.pending(), "a.near");
    assert!(registry.is_authority(&s("a.near")));
    assert!(!registry.is_authority(&s("b.near")));
    assert_eq!(registry.propose(&s("b.near"), s("b.near")), Err(BridgeError::Unauthorized));
    assert_eq!(registry.propose(&s("a.near"), s("b.near")), Ok(()));
    assert_eq!(registry.current(), "a.near");
    assert_eq!(registry.pending(), "b.near");
    assert!(registry.is_authority(&s("a.near")));
    assert!(!registry.is_authority(&s("b.near")));
    assert_eq!(registry.finalize(&s("a.near")), Err(BridgeError::Unauthorized));
    assert_eq!(registry.finalize(&s("c.near")), Err(BridgeError::Unauthorized));
    assert_eq!(registry.current(), "a.near");
    assert_eq!(registry.finalize(&s("b.near")), Ok(()));
    assert_eq!(registry.current(), "b.near");
    assert_eq!(registry.pending(), "b.near");
    assert!(!registry.is_authority(&s("a.near")));
    assert_eq!(registry.propose(&s("a.near"), s("a.near")), Err(BridgeError::Unauthorized));
}

#[test]
fn authority_may_confirm_itself() {
    let mut registry = AuthorityRegistry::new(s("a.near"));
    let before = registry.clone();
    assert_eq!(registry.finalize(&s("a.near")), Ok(()));
    assert_eq!(registry, before);
}

#[test]
fn gas_table_defaults_and_overrides() {
    let mut table = GasBudgetTable::new(BASE_GAS);
    assert_eq!(BASE_GAS, 5_000_000_000_000);
    assert_eq!(GAS_FOR_FT_TRANSFER_CALL, 30_000_000_000_000);
    assert_eq!(table.base(), BASE_GAS);
    assert_eq!(table.budget_for(&s("t")), 15_000_000_000_000);
    assert_eq!(table.swap_in_budget(&s("t")), 35_000_000_000_000);
    assert_eq!(table.swap_out_budget(), 75_000_000_000_000);
    table.set(s("t"), 1);
    assert_eq!(table.budget_for(&s("t")), 1);
    assert_eq!(table.override_for(&s("t")), Some(1));
    assert_eq!(table.override_for(&s("u")), None);
    assert_eq!(table.swap_in_budget(&s("t")), 20_000_000_000_001);
    table.set(s("t"), 2);
    table.set(s("u"), 3);
    assert_eq!(table.all(), vec![(s("t"), 2), (s("u"), 3)]);
    table.set_base(0);
    assert_eq!(table.budget_for(&s("v")), 0);
    assert_eq!(table.budget_for(&s("u")), 3);
    assert_eq!(table.swap_out_budget(), GAS_FOR_FT_TRANSFER_CALL);
}

#[test]
fn gas_table_at_the_limit() {
    let mut table = GasBudgetTable::new((u64::MAX - GAS_FOR_FT_TRANSFER_CALL) / 9);
    assert_eq!(table.swap_out_budget(), (u64::MAX - GAS_FOR_FT_TRANSFER_CALL) / 9 * 9 + GAS_FOR_FT_TRANSFER_CALL);
    table.set_base(1);
    table.set(s("t"), u64::MAX - 4);
    assert_eq!(table.swap_in_budget(&s("t")), u64::MAX);
}

#[test]
fn ledger_registers_credits_and_debits() {
    let mut ledger = Ledger::new();
    assert_eq!(ledger.total_supply(), 0);
    assert!(!ledger.is_registered(&s("a")));
    assert_eq!(ledger.balance_of(&s("a")), 0);
    ledger.register(s("a"));
    assert!(ledger.is_registered(&s("a")));
    assert_eq!(ledger.balance_of(&s("a")), 0);
    ledger.credit(&s("a"), 10);
    assert_eq!(ledger.balance_of(&s("a")), 10);
    assert_eq!(ledger.total_supply(), 10);
    ledger.mint(&s("b"), 5);
    assert!(ledger.is_registered(&s("b")));
    ledger.mint(&s("a"), 1);
    assert_eq!(ledger.balance_of(&s("a")), 11);
    assert_eq!(ledger.balance_of(&s("b")), 5);
    assert_eq!(ledger.total_supply(), 16);
    assert_eq!(ledger.debit(&s("a"), 12), Err(BridgeError::InsufficientBalance));
    assert_eq!(ledger.debit(&s("c"), 1), Err(BridgeError::InsufficientBalance));
    assert_eq!(ledger.debit(&s("c"), 0), Err(BridgeError::InsufficientBalance));
    assert_eq!(ledger.total_supply(), 16);
    assert_eq!(ledger.debit(&s("a"), 11), Ok(()));
    assert_eq!(ledger.debit(&s("b"), 0), Ok(()));
    assert_eq!(ledger.balance_of(&s("a")), 0);
    assert!(ledger.is_registered(&s("a")));
    assert_eq!(ledger.balance_of(&s("b")), 5);
    assert_eq!(ledger.total_supply(), 5);
}

#[test]
fn ledger_holds_the_largest_amount() {
    let mut ledger = Ledger::new();
    ledger.mint(&s("a"), u128::MAX);
    assert_eq!(ledger.balance_of(&s("a")), u128::MAX);
    ledger.mint(&s("b"), 0);
    assert_eq!(ledger.total_supply(), u128::MAX);
    assert_eq!(ledger.debit(&s("a"), u128::MAX), Ok(()));
    assert_eq!(ledger.total_supply(), 0);
}

#[test]
fn pool_logs_the_attached_value() {
    let mut pool = anyswap_bridge::mpc_pool::MpcPool::new();
    let call = Context { predecessor: s("alice.near"), current: s("pool.near"), attached_deposit: 12 };
    let log = pool.swap_out(&call, s("0xabc"), 56).unwrap();
    assert_eq!(
        log,
        LogRecord::PoolSwapOut { sender_id: s("alice.near"), receiver_id: s("0xabc"), amount: 12, to_chain_id: 56 }
    );
    assert_eq!(log.render(), "SwapOutNative sender_id alice.near receiver_id 0xabc amount 12 to_chain_id 56");
    let empty = Context { predecessor: s("alice.near"), current: s("pool.near"), attached_deposit: 0 };
    assert_eq!(pool.swap_out(&empty, s("0xabc"), 56), Err(BridgeError::InvalidAmount));
    assert_eq!(anyswap_bridge::mpc_pool::MpcPool::default(), pool);
}

#[test]
fn named_pool_logs_its_own_account() {
    let mut pool = anyswap_bridge::native_token::MpcPool::new();
    let call = Context { predecessor: s("alice.near"), current: s("pool.near"), attached_deposit: 1 };
    let log = pool.swap_out(&call, s("0xabc"), 0).unwrap();
    assert_eq!(
        log.render(),
        "SwapOutNative pool.near sender_id alice.near receiver_id 0xabc amount 1 to_chain_id 0"
    );
    let empty = Context { predecessor: s("alice.near"), current: s("pool.near"), attached_deposit: 0 };
    assert_eq!(pool.swap_out(&empty, s("0xabc"), 56), Err(BridgeError::InvalidAmount));
}

#[test]
fn every_refusal_has_its_line() {
    let router_line = anyswap_bridge::router::rejection;
    let token_line = anyswap_bridge::token::rejection;
    assert_eq!(router_line(BridgeError::Unauthorized), "Router: only mpc");
    assert_eq!(router_line(BridgeError::AlreadyProcessed), "Router: tx exists");
    assert_eq!(router_line(BridgeError::InvalidAmount), "The amount should be a positive number");
    assert_eq!(router_line(BridgeError::InsufficientBalance), "The account doesn't have enough balance");
    assert_eq!(router_line(BridgeError::DependentCallFailed), "ERR_CALL_FAILED");
    assert_eq!(router_line(BridgeError::MalformedInstruction), "decode swap_out msg error!");
    assert_eq!(router_line(BridgeError::AlreadyBound), "Router: underlying is bound already");
    assert_eq!(router_line(BridgeError::NotYetBound), "Router: underlying in any_token not equals to token");
    assert_eq!(token_line(BridgeError::Unauthorized), "FORBIDDEN");
    assert_eq!(token_line(BridgeError::AlreadyProcessed), "Txhash is exist");
    assert_eq!(token_line(BridgeError::InvalidAmount), "The amount should be a positive number");
    assert_eq!(token_line(BridgeError::InsufficientBalance), "The account doesn't have enough balance");
    assert_eq!(token_line(BridgeError::DependentCallFailed), "ERR_CALL_FAILED");
    assert_eq!(token_line(BridgeError::MalformedInstruction), "ERR_MALFORMED_INSTRUCTION");
    assert_eq!(token_line(BridgeError::AlreadyBound), "The underlying asset is bound already");
    assert_eq!(token_line(BridgeError::NotYetBound), "No underlying asset is bound");
}

#[test]
fn keys_are_found_from_the_front() {
    let entries = vec![(s("a"), 1u8), (s("b"), 2), (s("a"), 3)];
    assert_eq!(anyswap_bridge::assoc::find(&entries, &s("a")), Some(0));
    assert_eq!(anyswap_bridge::assoc::find(&entries, &s("b")), Some(1));
    assert_eq!(anyswap_bridge::assoc::find(&entries, &s("c")), None);
    assert!(!anyswap_bridge::assoc::has_distinct_keys(&entries));
    assert!(anyswap_bridge::assoc::has_distinct_keys(&entries[..2].to_vec()));
    let none: Vec<(String, u8)> = Vec::new();
    assert_eq!(anyswap_bridge::assoc::find(&none, &s("a")), None);
    assert!(anyswap_bridge::assoc::has_distinct_keys(&none));
}
