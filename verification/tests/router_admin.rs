use anyswap_bridge::call::{CallOutcome, Context};
use anyswap_bridge::error::BridgeError;
use anyswap_bridge::router::Router;

const TGAS: u64 = 1_000_000_000_000;

fn s(text: &str) -> String {
    text.to_string()
}

fn ctx(predecessor: &str) -> Context {
    Context { predecessor: s(predecessor), current: s("router.near"), attached_deposit: 0 }
}

fn router() -> Router {
    Router::new(s("mpc.near"), s("wnear.near"), s("near"))
}

#[test]
fn new_router_has_the_defaults() {
    let router = router();
    assert_eq!(router.mpc_id(), "mpc.near");
    assert_eq!(router.new_mpc_id(), "mpc.near");
    assert_eq!(router.wnative(), "wnear.near");
    assert_eq!(router.chain_id(), "near");
    assert_eq!(router.base_gas(), 5 * TGAS);
    assert!(router.all_gas().is_empty());
    assert!(router.all_txs().is_empty());
    assert!(!router.check_tx(s("tx1")));
}

#[test]
fn budgets_follow_the_base() {
    let mut router = router();
    assert_eq!(router.check_gas(s("t.near")), 15 * TGAS);
    assert_eq!(router.any_swap_in_gas(s("t.near")), 35 * TGAS);
    assert_eq!(router.any_swap_out_gas(), 75 * TGAS);
    router.set_base_gas(&ctx("mpc.near"), 2 * TGAS).unwrap();
    assert_eq!(router.base_gas(), 2 * TGAS);
    assert_eq!(router.check_gas(s("t.near")), 6 * TGAS);
    assert_eq!(router.any_swap_in_gas(s("t.near")), 14 * TGAS);
    assert_eq!(router.any_swap_out_gas(), 48 * TGAS);
}

#[test]
fn budget_of_a_token_replaces_the_default() {
    let mut router = router();
    router.set_gas(&ctx("mpc.near"), s("t.near"), 7).unwrap();
    assert_eq!(router.check_gas(s("t.near")), 7);
    assert_eq!(router.gas_override(&s("t.near")), Some(7));
    assert_eq!(router.gas_override(&s("u.near")), None);
    assert_eq!(router.check_gas(s("u.near")), 15 * TGAS);
    assert_eq!(router.any_swap_in_gas(s("t.near")), 7 + 20 * TGAS);
    // a budget of nothing is a budget too
    router.set_gas(&ctx("mpc.near"), s("z.near"), 0).unwrap();
    assert_eq!(router.check_gas(s("z.near")), 0);
}

#[test]
fn budgets_are_listed_in_the_order_of_their_tokens() {
    let mut router = router();
    router.set_gas(&ctx("mpc.near"), s("b.near"), 2).unwrap();
    router.set_gas(&ctx("mpc.near"), s("a.near"), 1).unwrap();
    router.set_gas(&ctx("mpc.near"), s("b.near"), 3).unwrap();
    assert_eq!(router.all_gas(), vec![(s("b.near"), 3), (s("a.near"), 1)]);
}

#[test]
fn largest_base_that_still_gives_a_default() {
    let mut router = router();
    let base = u64::MAX / 3;
    router.set_base_gas(&ctx("mpc.near"), base).unwrap();
    assert_eq!(router.check_gas(s("t.near")), base * 3);
}

#[test]
fn setters_are_reserved_for_the_authority() {
    let mut router = router();
    let before = router.clone();
    let eve = ctx("eve.near");
    assert_eq!(router.change_mpc_id(&eve, s("eve.near")), Err(BridgeError::Unauthorized));
    assert_eq!(router.apply_mpc_id(&eve), Err(BridgeError::Unauthorized));
    assert_eq!(router.change_wnative(&eve, s("eve.near")), Err(BridgeError::Unauthorized));
    assert_eq!(router.set_base_gas(&eve, 1), Err(BridgeError::Unauthorized));
    assert_eq!(router.set_gas(&eve, s("t.near"), 1), Err(BridgeError::Unauthorized));
    assert_eq!(router.change_chain_id(&eve, s("eve")), Err(BridgeError::Unauthorized));
    assert_eq!(router, before);
}

#[test]
fn setters_change_what_they_name() {
    let mut router = router();
    let mpc = ctx("mpc.near");
    router.change_wnative(&mpc, s("pool.near")).unwrap();
    router.change_chain_id(&mpc, s("near-2")).unwrap();
    assert_eq!(router.wnative(), "pool.near");
    assert_eq!(router.chain_id(), "near-2");
    assert_eq!(router.mpc_id(), "mpc.near");
}

#[test]
fn router_authority_passes_in_two_steps() {
    let mut router = router();
    let a = ctx("mpc.near");
    let b = ctx("next.near");
    router.change_mpc_id(&a, s("next.near")).unwrap();
    assert_eq!(router.mpc_id(), "mpc.near");
    assert_eq!(router.new_mpc_id(), "next.near");
    // until the proposed account takes over, the authority is the old one
    assert_eq!(router.set_base_gas(&b, 1), Err(BridgeError::Unauthorized));
    assert!(router.set_base_gas(&a, 1).is_ok());
    assert_eq!(
        router.any_swap_in(&b, s("tx"), s("t.near"), s("r.near"), 1, s("X")),
        Err(BridgeError::Unauthorized)
    );
    // the old authority cannot complete the rotation
    assert_eq!(router.apply_mpc_id(&a), Err(BridgeError::Unauthorized));
    assert_eq!(router.mpc_id(), "mpc.near");
    router.apply_mpc_id(&b).unwrap();
    assert_eq!(router.mpc_id(), "next.near");
    assert_eq!(router.set_base_gas(&a, 2), Err(BridgeError::Unauthorized));
    assert!(router.set_base_gas(&b, 2).is_ok());
    assert!(router.any_swap_in(&b, s("tx"), s("t.near"), s("r.near"), 1, s("X")).is_ok());
}

#[test]
fn committed_identifiers_are_listed_oldest_first() {
    let mut router = router();
    let ok = CallOutcome::Success(Vec::new());
    for tx in ["b", "a", "b", "c"] {
        router
            .any_swap_in_callback(s(tx), s("t.near"), s("r.near"), 1, s("X"), &ok)
            .unwrap();
    }
    assert_eq!(router.all_txs(), vec![s("b"), s("a"), s("c")]);
    assert!(router.check_tx(s("a")));
    assert!(!router.check_tx(s("d")));
    assert!(!router.check_tx(s("")));
}

#[test]
fn budgets_that_cannot_be_represented() {
    let mut router = router();
    let mpc = ctx("mpc.near");
    assert_eq!(router.checked_gas(&s("t.near")), Some(15 * TGAS));
    assert_eq!(router.checked_native_gas(), Some(15 * TGAS));
    assert_eq!(router.checked_transfer_gas(), Some(25 * TGAS));
    assert_eq!(router.checked_any_swap_in_gas(&s("t.near")), Some(35 * TGAS));
    assert_eq!(router.checked_any_swap_out_gas(), Some(75 * TGAS));
    router.set_base_gas(&mpc, u64::MAX / 3 + 1).unwrap();
    assert_eq!(router.checked_gas(&s("t.near")), None);
    assert_eq!(router.checked_native_gas(), None);
    assert_eq!(router.checked_transfer_gas(), None);
    assert_eq!(router.checked_any_swap_in_gas(&s("t.near")), None);
    assert_eq!(router.checked_any_swap_out_gas(), None);
    router.set_gas(&mpc, s("t.near"), 1).unwrap();
    assert_eq!(router.checked_gas(&s("t.near")), Some(1));
    assert_eq!(router.checked_any_swap_in_gas(&s("t.near")), None);
    router.set_base_gas(&mpc, u64::MAX / 4).unwrap();
    assert_eq!(router.checked_any_swap_in_gas(&s("t.near")), Some(u64::MAX / 4 * 4 + 1));
    router.set_gas(&mpc, s("t.near"), 4).unwrap();
    assert_eq!(router.checked_any_swap_in_gas(&s("t.near")), None);
    assert_eq!(router.checked_gas(&s("u.near")), Some(u64::MAX / 4 * 3));
    router.set_base_gas(&mpc, (u64::MAX - 30 * TGAS) / 9 + 1).unwrap();
    assert_eq!(router.checked_any_swap_out_gas(), None);
}
