use vstd::prelude::*;

use crate::custody::CustodyAccount;
use crate::custody::close;
use crate::custody::transfer;
use crate::error::OperationError;
use crate::error::TradeError;
use crate::state::Trade;
use crate::state::TradeState;

verus! {

/// The accounts a cancellation names: the buyer (who must sign), the asset,
/// the buyer's token account receiving the refund, the entry, and its vault.
/// The host admits this context only when the entry belongs to this buyer and
/// this asset, and hands the entry's reserve back to the buyer once the
/// operation reaches a terminal state.
#[derive(Clone, Copy, Debug)]
pub struct Cancel {
    pub buyer: u64,
    pub mint_usd: u64,
    pub buyer_ata: CustodyAccount,
    pub escrow: Trade,
    pub vault: CustodyAccount,
}

impl Cancel {
    /// The account constraints the host establishes before the operation
    /// runs: the entry names this buyer and this asset, both token accounts
    /// are live and carry that asset, and the two accounts hold units of one
    /// asset whose total supply fits in a machine word.
    pub open spec fn accounts_wf(self) -> bool {
        &&& self.escrow.buyer == self.buyer
        &&& self.escrow.mint_usd == self.mint_usd
        &&& self.buyer_ata.asset_kind == self.mint_usd
        &&& self.vault.asset_kind == self.mint_usd
        &&& !self.buyer_ata.closed
        &&& !self.vault.closed
        &&& self.buyer_ata.balance + self.vault.balance <= u64::MAX
    }

    /// Abort the trade early: return the vault's whole balance — whatever it
    /// actually holds — to the buyer, close the vault, and drive the entry to
    /// the terminal state `Cancelled`. Only the buyer may do this, and only
    /// before documents are submitted: past that point the operation fails
    /// with `InvalidStateTransition` and the entry is untouched.
    pub fn refund_and_close(&mut self) -> (r: Result<(), OperationError>)
        requires
            old(self).accounts_wf(),
        ensures
            refund_and_close_rel(*old(self), *final(self), r),
            r is Ok ==> old(self).escrow.current_state.can_step_to(
                final(self).escrow.current_state,
            ),
            old(self).escrow.wf() ==> final(self).escrow.wf(),
    {
        let state: TradeState = self.escrow.current_state;
        if !(state == TradeState::Initialized || state == TradeState::FundsLocked) {
            return Err(OperationError::Trade(TradeError::InvalidStateTransition));
        }
        let asset_kind: u64 = self.mint_usd;
        let refund: u64 = self.vault.balance;
        match transfer(&mut self.vault, &mut self.buyer_ata, refund, asset_kind) {
            Ok(()) => {},
            Err(e) => {
                return Err(OperationError::Custody(e));
            },
        }
        match close(&mut self.vault) {
            Ok(()) => {},
            Err(e) => {
                return Err(OperationError::Custody(e));
            },
        }
        self.escrow.current_state = TradeState::Cancelled;
        Ok(())
    }
}

/// The cancellation relation: how a successful or failed `Cancel` ties the
/// context after the operation, and its result, to the context before it.
/// A cancellation succeeds exactly when the entry still allows one, refunds
/// the vault's actual balance in full, and destroys the vault.
pub open spec fn refund_and_close_rel(pre: Cancel, post: Cancel, r: Result<
    (),
    OperationError,
>) -> bool {
    &&& post.buyer == pre.buyer
    &&& post.mint_usd == pre.mint_usd
    &&& match r {
        Ok(()) => {
            &&& pre.escrow.current_state.allows_cancel()
            &&& post.buyer_ata.balance == pre.buyer_ata.balance + pre.vault.balance
            &&& post.vault.balance == 0
            &&& post.vault.closed
            &&& post.buyer_ata.balance + post.vault.balance
                == pre.buyer_ata.balance + pre.vault.balance
            &&& post.escrow == (Trade { current_state: TradeState::Cancelled, ..pre.escrow })
            &&& post.buyer_ata.asset_kind == pre.buyer_ata.asset_kind
            &&& post.vault.asset_kind == pre.vault.asset_kind
            &&& !post.buyer_ata.closed
        },
        Err(OperationError::Trade(TradeError::InvalidStateTransition)) => {
            &&& !pre.escrow.current_state.allows_cancel()
            &&& post == pre
        },
        _ => false,
    }
}

/// Once documents are submitted the trade is irreversible: from any state
/// other than the two that allow a cancellation, `Cancel` fails with
/// `InvalidStateTransition` and the entry — its state in particular — is
/// exactly as it was.
pub proof fn lemma_cancel_blocked_after_submission(pre: Cancel, post: Cancel, r: Result<
    (),
    OperationError,
>)
    requires
        !pre.escrow.current_state.allows_cancel(),
        refund_and_close_rel(pre, post, r),
    ensures
        r == Err::<(), OperationError>(OperationError::Trade(TradeError::InvalidStateTransition)),
        post == pre,
        post.escrow.current_state == pre.escrow.current_state,
{
}

} // verus!
