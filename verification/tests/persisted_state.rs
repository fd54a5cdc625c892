use anyswap_bridge::authority::AuthorityRegistry;
use anyswap_bridge::call::{CallOutcome, Context};
use anyswap_bridge::gas::GasBudgetTable;
use anyswap_bridge::ledger::Ledger;
use anyswap_bridge::metadata::TokenMetadata;
use anyswap_bridge::replay::ReplayGuard;
use anyswap_bridge::router::{Router, RouterState};
use anyswap_bridge::token::{AnyToken, AnyTokenState};

fn s(text: &str) -> String {
    text.to_string()
}

fn router_state() -> RouterState {
    RouterState {
        mpc_id: s("mpc.near"),
        new_mpc_id: s("next.near"),
        chain_id: s("near"),
        txs: vec![s("b"), s("a")],
        wnative: s("wnear.near"),
        gas_for_anytoken: vec![(s("t.near"), 7), (s("u.near"), 7)],
        base_gas: 11,
    }
}

fn token_state() -> AnyTokenState {
    AnyTokenState {
        accounts: vec![(s("mpc.near"), 5), (s("a.near"), 0), (s("b.near"), 10)],
        total_supply: 15,
        metadata: TokenMetadata::with_defaults(s("Any"), s("ANY"), 8),
        txs: vec![s("tx2"), s("tx1")],
        mpc_id: s("mpc.near"),
        new_mpc_id: s("mpc.near"),
        check_tx_hash: true,
        underlying: Some(s("usdt.near")),
    }
}

#[test]
fn router_state_round_trip() {
    let router = Router::restore(router_state()).unwrap();
    assert_eq!(router.mpc_id(), "mpc.near");
    assert_eq!(router.new_mpc_id(), "next.near");
    assert_eq!(router.chain_id(), "near");
    assert_eq!(router.wnative(), "wnear.near");
    assert_eq!(router.base_gas(), 11);
    assert_eq!(router.all_txs(), vec![s("b"), s("a")]);
    assert_eq!(router.all_gas(), vec![(s("t.near"), 7), (s("u.near"), 7)]);
    assert_eq!(router.check_gas(s("t.near")), 7);
    assert_eq!(router.check_gas(s("v.near")), 33);
    assert_eq!(router.into_state(), router_state());
}

#[test]
fn router_state_after_a_commit() {
    let mut router = Router::new(s("mpc.near"), s("wnear.near"), s("near"));
    let mpc = Context { predecessor: s("mpc.near"), current: s("router.near"), attached_deposit: 0 };
    router.set_gas(&mpc, s("t.near"), 9).unwrap();
    router
        .any_swap_in_callback(s("tx1"), s("t.near"), s("r.near"), 1, s("X"), &CallOutcome::Success(Vec::new()))
        .unwrap();
    let state = router.clone().into_state();
    assert_eq!(
        state,
        RouterState {
            mpc_id: s("mpc.near"),
            new_mpc_id: s("mpc.near"),
            chain_id: s("near"),
            txs: vec![s("tx1")],
            wnative: s("wnear.near"),
            gas_for_anytoken: vec![(s("t.near"), 9)],
            base_gas: 5_000_000_000_000,
        }
    );
    assert_eq!(Router::restore(state), Some(router));
}

#[test]
fn router_state_with_repeats_is_refused() {
    let mut twice = router_state();
    twice.txs = vec![s("a"), s("b"), s("a")];
    assert_eq!(Router::restore(twice), None);
    let mut two_budgets = router_state();
    two_budgets.gas_for_anytoken = vec![(s("t.near"), 1), (s("t.near"), 2)];
    assert_eq!(Router::restore(two_budgets), None);
    let mut empty = router_state();
    empty.txs = Vec::new();
    empty.gas_for_anytoken = Vec::new();
    assert!(Router::restore(empty).is_some());
}

#[test]
fn token_state_round_trip() {
    let token = AnyToken::restore(token_state()).unwrap();
    assert_eq!(token.ft_total_supply(), 15);
    assert_eq!(token.ft_balance_of(&s("mpc.near")), 5);
    assert_eq!(token.ft_balance_of(&s("a.near")), 0);
    assert_eq!(token.ft_balance_of(&s("b.near")), 10);
    assert_eq!(token.underlying(), Some(s("usdt.near")));
    assert!(token.check_tx(&s("tx1")));
    assert!(token.check_flag());
    assert_eq!(token.into_state(), token_state());
}

#[test]
fn token_state_that_is_not_well_formed_is_refused() {
    let mut short = token_state();
    short.total_supply = 14;
    assert_eq!(AnyToken::restore(short), None);
    let mut long = token_state();
    long.total_supply = 16;
    assert_eq!(AnyToken::restore(long), None);
    let mut twice = token_state();
    twice.accounts = vec![(s("a.near"), 5), (s("a.near"), 10)];
    assert_eq!(AnyToken::restore(twice), None);
    let mut too_much = token_state();
    too_much.accounts = vec![(s("a.near"), u128::MAX), (s("b.near"), 16)];
    assert_eq!(AnyToken::restore(too_much), None);
    let mut replayed = token_state();
    replayed.txs = vec![s("tx1"), s("tx1")];
    assert_eq!(AnyToken::restore(replayed), None);
}

#[test]
fn parts_of_the_components() {
    assert_eq!(ReplayGuard::from_ids(vec![s("a"), s("b")]).unwrap().into_ids(), vec![s("a"), s("b")]);
    assert_eq!(ReplayGuard::from_ids(vec![s("a"), s("a")]), None);
    assert_eq!(ReplayGuard::from_ids(Vec::new()), Some(ReplayGuard::new()));
    assert_eq!(
        GasBudgetTable::from_parts(3, vec![(s("t"), 1)]).unwrap().into_parts(),
        (3, vec![(s("t"), 1)])
    );
    assert_eq!(GasBudgetTable::from_parts(3, vec![(s("t"), 1), (s("u"), 1), (s("t"), 1)]), None);
    assert_eq!(
        Ledger::from_parts(vec![(s("a"), 1), (s("b"), 2)], 3).unwrap().into_parts(),
        (vec![(s("a"), 1), (s("b"), 2)], 3)
    );
    assert_eq!(Ledger::from_parts(vec![(s("a"), 1), (s("b"), 2)], 4), None);
    assert_eq!(Ledger::from_parts(Vec::new(), 0), Some(Ledger::new()));
    assert_eq!(Ledger::from_parts(Vec::new(), 1), None);
    assert_eq!(Ledger::from_parts(vec![(s("a"), u128::MAX)], u128::MAX).unwrap().total_supply(), u128::MAX);
    assert_eq!(
        AuthorityRegistry::from_parts(s("a"), s("b")).into_parts(),
        (s("a"), s("b"))
    );
}
