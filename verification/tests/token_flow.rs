use anyswap_bridge::call::{CallOutcome, Context, Dispatch, Outgoing, Refund, RemoteCall, Step};
use anyswap_bridge::error::BridgeError;
use anyswap_bridge::log::LogRecord;
use anyswap_bridge::metadata::{TokenMetadata, DATA_IMAGE_SVG_NEAR_ICON, FT_METADATA_SPEC};
use anyswap_bridge::token::{AnyToken, TokenCallback, Forwarding, MIN_BOND};

const TGAS: u64 = 1_000_000_000_000;

fn s(text: &str) -> String {
    text.to_string()
}

fn ctx(predecessor: &str, attached_deposit: u128) -> Context {
    Context { predecessor: s(predecessor), current: s("any.near"), attached_deposit }
}

fn token(total_supply: u128, check_tx_hash: bool) -> AnyToken {
    AnyToken::new_default_meta(s("mpc.near"), total_supply, check_tx_hash, s("Any Token"), s("ANY"), 18)
}

fn ok_outcome() -> CallOutcome {
    CallOutcome::Success(Vec::new())
}

#[test]
fn new_token_gives_the_supply_to_the_authority() {
    let token = token(1_000, true);
    assert_eq!(token.mpc_id(), "mpc.near");
    assert_eq!(token.new_mpc_id(), "mpc.near");
    assert_eq!(token.ft_total_supply(), 1_000);
    assert_eq!(token.ft_balance_of(&s("mpc.near")), 1_000);
    assert_eq!(token.ft_balance_of(&s("alice.near")), 0);
    assert_eq!(token.underlying(), None);
    assert!(token.check_flag());
    assert!(!token.check_tx(&s("tx1")));
}

#[test]
fn default_metadata_are_valid() {
    let token = token(0, false);
    let metadata = token.ft_metadata();
    assert!(metadata.is_valid());
    assert_eq!(metadata.spec, FT_METADATA_SPEC);
    assert_eq!(metadata.spec, "ft-1.0.0");
    assert_eq!(metadata.name, "Any Token");
    assert_eq!(metadata.symbol, "ANY");
    assert_eq!(metadata.decimals, 18);
    assert_eq!(metadata.icon.as_deref(), Some(DATA_IMAGE_SVG_NEAR_ICON));
    assert_eq!(metadata.reference, None);
    assert_eq!(metadata.reference_hash, None);
    assert!(!token.check_flag());
}

#[test]
fn token_with_given_metadata() {
    let metadata = TokenMetadata {
        spec: s("ft-1.0.0"),
        name: s("Wrapped"),
        symbol: s("W"),
        icon: None,
        reference: Some(s("https://example.org/w.json")),
        reference_hash: Some(vec![7u8; 32]),
        decimals: 6,
    };
    assert!(metadata.is_valid());
    let token = AnyToken::new(s("mpc.near"), 5, metadata.clone(), true);
    assert_eq!(token.ft_metadata(), &metadata);
    assert_eq!(token.ft_total_supply(), 5);
}

#[test]
fn metadata_validity() {
    let good = TokenMetadata::with_defaults(s("n"), s("s"), 0);
    assert!(good.is_valid());
    let mut wrong_spec = good.clone();
    wrong_spec.spec = s("ft-1.0.1");
    assert!(!wrong_spec.is_valid());
    let mut lone_reference = good.clone();
    lone_reference.reference = Some(s("r"));
    assert!(!lone_reference.is_valid());
    let mut lone_hash = good.clone();
    lone_hash.reference_hash = Some(vec![0u8; 32]);
    assert!(!lone_hash.is_valid());
    let mut short_hash = good.clone();
    short_hash.reference = Some(s("r"));
    short_hash.reference_hash = Some(vec![0u8; 31]);
    assert!(!short_hash.is_valid());
    let mut long_hash = short_hash.clone();
    long_hash.reference_hash = Some(vec![0u8; 33]);
    assert!(!long_hash.is_valid());
    let mut both = short_hash.clone();
    both.reference_hash = Some(vec![0u8; 32]);
    assert!(both.is_valid());
}

#[test]
fn swap_in_credits_and_logs() {
    let mut token = token(0, true);
    let end = token.swap_in(&ctx("mpc.near", 0), s("tx1"), s("r.near"), 100, 56).unwrap();
    match end {
        Step::Committed { log } => {
            assert_eq!(log.render(), "SwapIn any.near receiver_id r.near amount 100 from_chain_id 56")
        }
        other => panic!("not committed: {:?}", other),
    }
    assert_eq!(token.ft_balance_of(&s("r.near")), 100);
    assert_eq!(token.ft_total_supply(), 100);
    assert!(token.check_tx(&s("tx1")));
}

#[test]
fn swap_in_is_refused_when_replayed() {
    let mut token = token(0, true);
    let mpc = ctx("mpc.near", 0);
    token.swap_in(&mpc, s("tx1"), s("r.near"), 100, 56).unwrap();
    let before = token.clone();
    for _ in 0..3 {
        assert_eq!(
            token.swap_in(&mpc, s("tx1"), s("r.near"), 100, 56),
            Err(BridgeError::AlreadyProcessed)
        );
    }
    assert_eq!(token, before);
    assert_eq!(token.ft_balance_of(&s("r.near")), 100);
    assert_eq!(token.ft_total_supply(), 100);
}

#[test]
fn swap_in_counts_twice_without_the_replay_check() {
    let mut token = token(0, false);
    let mpc = ctx("mpc.near", 0);
    token.swap_in(&mpc, s("tx1"), s("r.near"), 100, 56).unwrap();
    token.swap_in(&mpc, s("tx1"), s("r.near"), 100, 56).unwrap();
    assert_eq!(token.ft_balance_of(&s("r.near")), 200);
    assert!(token.check_tx(&s("tx1")));
    // once the check is switched on, the identifier is known
    token.set_check_flag(&mpc, true).unwrap();
    assert_eq!(token.swap_in(&mpc, s("tx1"), s("r.near"), 100, 56), Err(BridgeError::AlreadyProcessed));
}

#[test]
fn swap_in_refusals() {
    let mut token = token(10, true);
    let before = token.clone();
    assert_eq!(
        token.swap_in(&ctx("eve.near", 0), s("tx1"), s("eve.near"), 100, 56),
        Err(BridgeError::Unauthorized)
    );
    assert_eq!(
        token.swap_in(&ctx("mpc.near", 0), s("tx1"), s("r.near"), 0, 56),
        Err(BridgeError::InvalidAmount)
    );
    assert_eq!(token, before);
    assert!(!token.check_tx(&s("tx1")));
}

#[test]
fn swap_in_up_to_the_largest_supply() {
    let mut token = token(1, true);
    let mpc = ctx("mpc.near", 0);
    token.swap_in(&mpc, s("tx1"), s("r.near"), u128::MAX - 1, 56).unwrap();
    assert_eq!(token.ft_total_supply(), u128::MAX);
    assert_eq!(token.ft_balance_of(&s("r.near")), u128::MAX - 1);
}

#[test]
fn outbound_debit_takes_from_the_sender_and_logs_once() {
    let mut token = token(0, true);
    token.swap_in(&ctx("mpc.near", 0), s("tx1"), s("s.near"), 100, 56).unwrap();
    let log = token.swap_out(&ctx("s.near", 0), s("R2"), 40, 1).unwrap();
    assert_eq!(
        log,
        LogRecord::TokenSwapOut { sender_id: s("s.near"), receiver_id: s("R2"), amount: 40, to_chain_id: 1 }
    );
    assert_eq!(log.render(), "SwapOut sender_id s.near receiver_id R2 amount 40 to_chain_id 1");
    assert_eq!(token.ft_balance_of(&s("s.near")), 60);
    assert_eq!(token.ft_total_supply(), 60);
    assert_eq!(token.ft_balance_of(&s("R2")), 0);
}

#[test]
fn outbound_debit_refusals() {
    let mut token = token(0, true);
    token.swap_in(&ctx("mpc.near", 0), s("tx1"), s("s.near"), 100, 56).unwrap();
    let before = token.clone();
    assert_eq!(token.swap_out(&ctx("s.near", 0), s("R2"), 0, 1), Err(BridgeError::InvalidAmount));
    assert_eq!(token.swap_out(&ctx("s.near", 0), s("R2"), 101, 1), Err(BridgeError::InsufficientBalance));
    assert_eq!(token.swap_out(&ctx("nobody.near", 0), s("R2"), 1, 1), Err(BridgeError::InsufficientBalance));
    assert_eq!(token, before);
    // the whole balance can go
    assert!(token.swap_out(&ctx("s.near", 0), s("R2"), 100, 1).is_ok());
    assert_eq!(token.ft_balance_of(&s("s.near")), 0);
    assert_eq!(token.swap_out(&ctx("s.near", 0), s("R2"), 1, 1), Err(BridgeError::InsufficientBalance));
}

#[test]
fn burn_is_a_debit_by_the_authority() {
    let mut token = token(50, true);
    let before = token.clone();
    assert_eq!(token.burn(&ctx("eve.near", 0), s("mpc.near"), 5), Err(BridgeError::Unauthorized));
    assert_eq!(token.burn(&ctx("mpc.near", 0), s("mpc.near"), 0), Err(BridgeError::InvalidAmount));
    assert_eq!(token.burn(&ctx("mpc.near", 0), s("mpc.near"), 51), Err(BridgeError::InsufficientBalance));
    assert_eq!(token, before);
    let log = token.burn(&ctx("mpc.near", 0), s("mpc.near"), 20).unwrap();
    assert_eq!(log.render(), "Account @mpc.near burned 20");
    assert_eq!(token.ft_balance_of(&s("mpc.near")), 30);
    assert_eq!(token.ft_total_supply(), 30);
}

#[test]
fn check_flag_is_set_by_the_authority() {
    let mut token = token(0, true);
    assert_eq!(token.set_check_flag(&ctx("eve.near", 0), false), Err(BridgeError::Unauthorized));
    assert!(token.check_flag());
    let log = token.set_check_flag(&ctx("mpc.near", 0), false).unwrap();
    assert_eq!(log.render(), "Update check tx hash flag to false");
    assert!(!token.check_flag());
    let log = token.set_check_flag(&ctx("mpc.near", 0), true).unwrap();
    assert_eq!(log.render(), "Update check tx hash flag to true");
}

#[test]
fn token_authority_passes_in_two_steps() {
    let mut token = token(0, true);
    let a = ctx("mpc.near", 0);
    let b = ctx("next.near", 0);
    assert_eq!(token.change_mpc_id(&b, s("next.near")), Err(BridgeError::Unauthorized));
    token.change_mpc_id(&a, s("next.near")).unwrap();
    assert_eq!(token.mpc_id(), "mpc.near");
    assert_eq!(token.new_mpc_id(), "next.near");
    assert_eq!(token.swap_in(&b, s("tx1"), s("r.near"), 1, 1), Err(BridgeError::Unauthorized));
    assert!(token.swap_in(&a, s("tx1"), s("r.near"), 1, 1).is_ok());
    assert_eq!(token.apply_mpc_id(&a), Err(BridgeError::Unauthorized));
    assert_eq!(token.mpc_id(), "mpc.near");
    token.apply_mpc_id(&b).unwrap();
    assert_eq!(token.mpc_id(), "next.near");
    assert_eq!(token.swap_in(&a, s("tx2"), s("r.near"), 1, 1), Err(BridgeError::Unauthorized));
    assert!(token.swap_in(&b, s("tx2"), s("r.near"), 1, 1).is_ok());
    // the authority may propose again, and take the proposal back
    token.change_mpc_id(&b, s("third.near")).unwrap();
    token.change_mpc_id(&b, s("next.near")).unwrap();
    assert_eq!(token.apply_mpc_id(&ctx("third.near", 0)), Err(BridgeError::Unauthorized));
}

#[test]
fn underlying_is_bound_once() {
    let mut token = token(0, true);
    let before = token.clone();
    assert_eq!(token.set_underlying(&ctx("eve.near", 0), s("usdt.near")), Err(BridgeError::Unauthorized));
    assert_eq!(token, before);
    token.set_underlying(&ctx("mpc.near", 0), s("usdt.near")).unwrap();
    assert_eq!(token.underlying(), Some(s("usdt.near")));
    let bound = token.clone();
    assert_eq!(token.set_underlying(&ctx("mpc.near", 0), s("dai.near")), Err(BridgeError::AlreadyBound));
    assert_eq!(token.set_underlying(&ctx("mpc.near", 0), s("usdt.near")), Err(BridgeError::AlreadyBound));
    assert_eq!(token.set_underlying(&ctx("eve.near", 0), s("dai.near")), Err(BridgeError::Unauthorized));
    assert_eq!(token, bound);
}

#[test]
fn swap_in_hands_out_the_underlying_asset() {
    let mut token = token(0, true);
    let mpc = ctx("mpc.near", 0);
    token.set_underlying(&mpc, s("usdt.near")).unwrap();
    let before = token.clone();
    let next = token.swap_in(&mpc, s("tx1"), s("r.near"), 100, 56).unwrap();
    assert_eq!(
        next,
        Step::Awaiting(Dispatch {
            first: Outgoing::Call {
                contract: s("usdt.near"),
                method: RemoteCall::FtTransfer { receiver_id: s("r.near"), amount: 100, memo: None },
                deposit: 1,
                gas: 5 * TGAS,
            },
            callback: TokenCallback::SwapInCallback {
                tx_hash: s("tx1"),
                receiver_id: s("r.near"),
                amount: 100,
                from_chain_id: 56,
            },
            callback_gas: 5 * TGAS,
        })
    );
    assert_eq!(token, before);

    let callback = match next {
        Step::Awaiting(dispatch) => dispatch.callback,
        other => panic!("not dispatched: {:?}", other),
    };
    let end = token.resume(&mpc, callback, &ok_outcome());
    match end {
        Step::Committed { log } => {
            assert_eq!(log.render(), "SwapIn any.near receiver_id r.near amount 100 from_chain_id 56")
        }
        other => panic!("not committed: {:?}", other),
    }
    assert_eq!(token.ft_balance_of(&s("r.near")), 0);
    assert_eq!(token.ft_total_supply(), 0);
    assert!(token.check_tx(&s("tx1")));
    assert_eq!(token.swap_in(&mpc, s("tx1"), s("r.near"), 100, 56), Err(BridgeError::AlreadyProcessed));
}

#[test]
fn failed_transfer_of_the_underlying_asset_is_compensated() {
    let mut token = token(30, true);
    let mpc = ctx("mpc.near", 0);
    token.set_underlying(&mpc, s("usdt.near")).unwrap();
    token.swap_out(&ctx("mpc.near", 0), s("x"), 20, 1).unwrap();
    assert_eq!(token.ft_balance_of(&s("mpc.near")), 10);
    let end = token.swap_in_callback(&mpc, s("tx1"), s("mpc.near"), 100, 56, &CallOutcome::Failure);
    assert_eq!(
        end,
        Step::RolledBack {
            log: LogRecord::Compensated { token: s("any.near"), account_id: s("mpc.near"), amount: 100 },
            refund: Refund::Nothing,
        }
    );
    assert_eq!(token.ft_balance_of(&s("mpc.near")), 110);
    assert_eq!(token.ft_total_supply(), 110);
    assert!(!token.check_tx(&s("tx1")));
    // a receiver that the ledger has not seen is registered by the compensation
    let end = token.swap_in_callback(&mpc, s("tx2"), s("new.near"), 5, 56, &CallOutcome::Failure);
    match end {
        Step::RolledBack { log, .. } => {
            assert_eq!(log.render(), "Compensate any.near account_id new.near amount 5")
        }
        other => panic!("not rolled back: {:?}", other),
    }
    assert_eq!(token.ft_balance_of(&s("new.near")), 5);
    assert_eq!(token.ft_balance_of(&s("mpc.near")), 110);
    assert_eq!(token.ft_total_supply(), 115);
    assert!(!token.check_tx(&s("tx2")));
}

#[test]
fn withdrawal_refusals() {
    let mut token = token(50, true);
    let holder = ctx("mpc.near", 1);
    let before = token.clone();
    assert_eq!(token.withdraw_underlying(&holder, 10), Err(BridgeError::NotYetBound));
    // an unbound token says so before anything else
    assert_eq!(token.withdraw_underlying(&ctx("mpc.near", 0), 0), Err(BridgeError::NotYetBound));
    assert_eq!(token, before);
    token.set_underlying(&ctx("mpc.near", 0), s("usdt.near")).unwrap();
    let bound = token.clone();
    assert_eq!(token.withdraw_underlying(&ctx("mpc.near", 0), 10), Err(BridgeError::InvalidAmount));
    assert_eq!(token.withdraw_underlying(&holder, 0), Err(BridgeError::InvalidAmount));
    assert_eq!(token.withdraw_underlying(&holder, 51), Err(BridgeError::InsufficientBalance));
    assert_eq!(token.withdraw_underlying(&ctx("poor.near", 1), 1), Err(BridgeError::InsufficientBalance));
    assert_eq!(token, bound);
}

#[test]
fn withdrawal_debits_and_forwards() {
    let mut token = token(50, true);
    token.set_underlying(&ctx("mpc.near", 0), s("usdt.near")).unwrap();
    let next = token.withdraw_underlying(&ctx("mpc.near", 5), 20).unwrap();
    assert_eq!(
        next,
        Forwarding {
            dispatch: Dispatch {
                first: Outgoing::Call {
                    contract: s("usdt.near"),
                    method: RemoteCall::FtTransfer { receiver_id: s("mpc.near"), amount: 20, memo: None },
                    deposit: MIN_BOND,
                    gas: 5 * TGAS,
                },
                callback: TokenCallback::WithdrawCallback { account_id: s("mpc.near"), amount: 20 },
                callback_gas: 5 * TGAS,
            },
            surplus: 4,
        }
    );
    assert_eq!(token.ft_balance_of(&s("mpc.near")), 30);
    assert_eq!(token.ft_total_supply(), 30);
    let after_debit = token.clone();
    let end = token.resume(&ctx("any.near", 0), next.dispatch.callback, &ok_outcome());
    assert!(matches!(end, Step::Committed { .. }));
    assert_eq!(token, after_debit);
}

#[test]
fn failed_withdrawal_gives_tokens_and_bond_back() {
    let mut token = token(50, true);
    token.set_underlying(&ctx("mpc.near", 0), s("usdt.near")).unwrap();
    let next = token.withdraw_underlying(&ctx("mpc.near", 1), 20).unwrap();
    assert_eq!(next.surplus, 0);
    let end = token.resume(&ctx("any.near", 0), next.dispatch.callback, &CallOutcome::Failure);
    assert_eq!(
        end,
        Step::RolledBack {
            log: LogRecord::Compensated { token: s("any.near"), account_id: s("mpc.near"), amount: 20 },
            refund: Refund::Native { receiver_id: s("mpc.near"), amount: 1 },
        }
    );
    assert_eq!(token.ft_balance_of(&s("mpc.near")), 50);
    assert_eq!(token.ft_total_supply(), 50);
}

#[test]
fn supply_is_the_sum_of_the_balances_after_every_step() {
    let mut token = token(1_000, false);
    let mpc = ctx("mpc.near", 0);
    let accounts = ["mpc.near", "a.near", "b.near", "c.near"];
    let sum = |token: &AnyToken| -> u128 { accounts.iter().map(|a| token.ft_balance_of(&s(a))).sum() };
    assert_eq!(sum(&token), 1_000);
    token.swap_in(&mpc, s("1"), s("a.near"), 10, 1).unwrap();
    assert_eq!((sum(&token), token.ft_total_supply()), (1_010, 1_010));
    token.swap_in(&mpc, s("2"), s("b.near"), 5, 1).unwrap();
    assert_eq!((sum(&token), token.ft_total_supply()), (1_015, 1_015));
    token.swap_out(&ctx("a.near", 0), s("x"), 4, 1).unwrap();
    assert_eq!((sum(&token), token.ft_total_supply()), (1_011, 1_011));
    assert!(token.swap_out(&ctx("c.near", 0), s("x"), 4, 1).is_err());
    assert_eq!((sum(&token), token.ft_total_supply()), (1_011, 1_011));
    token.burn(&mpc, s("mpc.near"), 1_000).unwrap();
    assert_eq!((sum(&token), token.ft_total_supply()), (11, 11));
    token.swap_in_callback(&mpc, s("3"), s("c.near"), 9, 1, &CallOutcome::Failure);
    assert_eq!((sum(&token), token.ft_total_supply()), (20, 20));
    assert_eq!(token.ft_balance_of(&s("a.near")), 6);
    assert_eq!(token.ft_balance_of(&s("b.near")), 5);
    assert_eq!(token.ft_balance_of(&s("c.near")), 9);
    assert_eq!(token.ft_balance_of(&s("mpc.near")), 0);
}

#[test]
fn deposit_forwards_to_the_receiver_and_compensates_the_payer() {
    let mut token = token(50, true);
    token.set_underlying(&ctx("mpc.near", 0), s("usdt.near")).unwrap();
    let next = token.deposit_underlying(&ctx("mpc.near", 3), s("r.near"), 20).unwrap();
    assert_eq!(
        next,
        Forwarding {
            dispatch: Dispatch {
                first: Outgoing::Call {
                    contract: s("usdt.near"),
                    method: RemoteCall::FtTransfer { receiver_id: s("r.near"), amount: 20, memo: None },
                    deposit: MIN_BOND,
                    gas: 5 * TGAS,
                },
                callback: TokenCallback::DepositCallback {
                    account_id: s("mpc.near"),
                    receiver_id: s("r.near"),
                    amount: 20,
                },
                callback_gas: 5 * TGAS,
            },
            surplus: 2,
        }
    );
    assert_eq!(token.ft_balance_of(&s("mpc.near")), 30);
    let mut succeeded = token.clone();
    let end = succeeded.resume(&ctx("any.near", 0), next.dispatch.callback.clone(), &ok_outcome());
    match end {
        Step::Committed { log } => assert_eq!(log.render(), "Forward any.near account_id r.near amount 20"),
        other => panic!("not committed: {:?}", other),
    }
    assert_eq!(succeeded, token);
    let end = token.resume(&ctx("any.near", 0), next.dispatch.callback, &CallOutcome::Failure);
    assert_eq!(
        end,
        Step::RolledBack {
            log: LogRecord::Compensated { token: s("any.near"), account_id: s("mpc.near"), amount: 20 },
            refund: Refund::Native { receiver_id: s("mpc.near"), amount: 1 },
        }
    );
    assert_eq!(token.ft_balance_of(&s("mpc.near")), 50);
    assert_eq!(token.ft_balance_of(&s("r.near")), 0);
    assert_eq!(token.ft_total_supply(), 50);
}

#[test]
fn deposit_refusals() {
    let mut token = token(50, true);
    assert_eq!(token.deposit_underlying(&ctx("mpc.near", 1), s("r.near"), 10), Err(BridgeError::NotYetBound));
    token.set_underlying(&ctx("mpc.near", 0), s("usdt.near")).unwrap();
    let bound = token.clone();
    assert_eq!(token.deposit_underlying(&ctx("mpc.near", 0), s("r.near"), 10), Err(BridgeError::InvalidAmount));
    assert_eq!(token.deposit_underlying(&ctx("mpc.near", 1), s("r.near"), 0), Err(BridgeError::InvalidAmount));
    assert_eq!(
        token.deposit_underlying(&ctx("mpc.near", 1), s("r.near"), 51),
        Err(BridgeError::InsufficientBalance)
    );
    assert_eq!(token, bound);
}

#[test]
fn credit_that_the_supply_cannot_take() {
    let token = token(u128::MAX - 5, true);
    assert!(token.can_credit(0));
    assert!(token.can_credit(5));
    assert!(!token.can_credit(6));
    assert!(!token.can_credit(u128::MAX));
}
