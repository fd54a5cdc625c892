//! The pool that takes native value for other chains.

use crate::call::Context;
use crate::error::BridgeError;
use crate::log::{LogRecord, LogView};
use vstd::prelude::*;

verus! {

/// A pool that takes native value for other chains. It keeps no state: the
/// value stays on its account, and the log says where it is owed.
#[derive(Clone, Copy, Debug, Default, PartialEq, Eq)]
pub struct MpcPool {}

impl MpcPool {
    /// A pool.
    pub fn new() -> (pool: Self)
        ensures
            pool == (MpcPool {  }),
    {
        MpcPool {  }
    }

    /// Takes the attached value, which `receiver_id` is owed on the chain
    /// `to_chain_id`, and logs the intent. A call without value is refused.
    pub fn swap_out(
        &mut self,
        ctx: &Context,
        receiver_id: String,
        to_chain_id: u128,
    ) -> (done: Result<LogRecord, BridgeError>)
        ensures
            ctx.attached_deposit == 0 ==> done == Err::<LogRecord, BridgeError>(BridgeError::InvalidAmount),
            ctx.attached_deposit > 0 ==> done is Ok && done->Ok_0@ == (LogView::PoolSwapOut {
                sender_id: ctx.predecessor@,
                receiver_id: receiver_id@,
                amount: ctx.attached_deposit,
                to_chain_id,
            }),
    {
        let amount: u128 = ctx.attached_deposit;
        if amount == 0 {
            return Err(BridgeError::InvalidAmount);
        }
        Ok(LogRecord::PoolSwapOut { sender_id: ctx.predecessor.clone(), receiver_id, amount, to_chain_id })
    }
}

} // verus!
