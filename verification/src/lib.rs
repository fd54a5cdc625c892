//! Settlement logic of a cross-chain token bridge: a router that confirms
//! inbound transfers under a signing authority, the wrapped-token ledger it
//! credits, and the pools that record outbound native transfers.
//!
//! Every entry point is a function from the persisted state and the facts of
//! one call (who called, what was attached, how a dependent call ended) to the
//! next state and a description of what the host must do next: schedule a call,
//! emit a log record, move funds.
//!
//! The contracts are [`router::Router`], [`token::AnyToken`] and the two pools
//! [`mpc_pool::MpcPool`] and [`native_token::MpcPool`]. They are built from
//! [`replay::ReplayGuard`], [`authority::AuthorityRegistry`],
//! [`gas::GasBudgetTable`] and [`ledger::Ledger`]. What they hand to the host
//! is described in [`call`] and [`log`].
//!
//! The state of every type has a view, and every entry point says in terms of
//! the views what it returns and how it changes the state. What holds across
//! calls is proved once for all states: value is conserved
//! ([`ledger::conservation`]), a committed identifier counts once
//! ([`router::replay_is_refused`]), a failed transfer is compensated exactly
//! ([`token::compensation_is_exact`]), and the authority passes on in two
//! steps ([`authority::rotation_safety`]).

pub mod assoc;
pub mod authority;
pub mod call;
pub mod error;
pub mod gas;
pub mod json;
pub mod ledger;
pub mod log;
pub mod metadata;
pub mod mpc_pool;
pub mod native_token;
pub mod replay;
pub mod router;
pub mod text;
pub mod token;
