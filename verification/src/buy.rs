use vstd::prelude::*;

use crate::custody::CustodyAccount;
use crate::custody::CustodyError;
use crate::custody::transfer;
use crate::error::OperationError;
use crate::error::TradeError;
use crate::state::Trade;
use crate::state::TradeState;

verus! {

/// The accounts an opening operation names: the three parties, the asset, the
/// buyer's own token account funding the deposit, and the freshly created
/// entry and vault. The host admits this context only with the buyer's
/// signature, and only for a `(buyer, seed)` pair under which no entry exists
/// yet; `bump` is the derivation byte it computed for the new entry.
#[derive(Clone, Copy, Debug)]
pub struct Buy {
    pub buyer: u64,
    pub seller: u64,
    pub freight_verifier: u64,
    pub mint_usd: u64,
    pub buyer_ata: CustodyAccount,
    pub escrow: Trade,
    pub vault: CustodyAccount,
    pub bump: u8,
}

impl Buy {
    /// The account constraints the host establishes before the operation
    /// runs: both token accounts are live and carry the named asset, the
    /// vault was created empty for this very trade, and the two accounts hold
    /// units of one asset whose total supply fits in a machine word.
    pub open spec fn accounts_wf(self) -> bool {
        &&& self.buyer_ata.asset_kind == self.mint_usd
        &&& self.vault.asset_kind == self.mint_usd
        &&& !self.buyer_ata.closed
        &&& !self.vault.closed
        &&& self.vault.balance == 0
        &&& self.buyer_ata.balance + self.vault.balance <= u64::MAX
    }

    /// Write the new entry. Fails with `InvalidAmount`, changing nothing, when
    /// the escrowed amount is zero; otherwise records the parties, the asset,
    /// the terms and the derivation byte, with no document commitment and the
    /// lifecycle in its transient creation stage.
    pub fn initialize_trade(&mut self, seed: u64, amount: u64) -> (r: Result<(), TradeError>)
        ensures
            match r {
                Ok(()) => {
                    &&& amount > 0
                    &&& final(self).escrow == (Trade {
                        buyer: old(self).buyer,
                        seller: old(self).seller,
                        freight_verifier: old(self).freight_verifier,
                        mint_usd: old(self).mint_usd,
                        amount: amount,
                        document_hash: None,
                        current_state: TradeState::Initialized,
                        seed: seed,
                        bump: old(self).bump,
                    })
                    &&& final(self).buyer == old(self).buyer
                    &&& final(self).seller == old(self).seller
                    &&& final(self).freight_verifier == old(self).freight_verifier
                    &&& final(self).mint_usd == old(self).mint_usd
                    &&& final(self).buyer_ata == old(self).buyer_ata
                    &&& final(self).vault == old(self).vault
                    &&& final(self).bump == old(self).bump
                    &&& final(self).escrow.amount > 0
                },
                Err(e) => {
                    &&& e == TradeError::InvalidAmount
                    &&& amount == 0
                    &&& *final(self) == *old(self)
                },
            },
    {
        if amount == 0 {
            return Err(TradeError::InvalidAmount);
        }
        self.escrow = Trade {
            buyer: self.buyer,
            seller: self.seller,
            freight_verifier: self.freight_verifier,
            mint_usd: self.mint_usd,
            amount: amount,
            document_hash: None,
            current_state: TradeState::Initialized,
            seed: seed,
            bump: self.bump,
        };
        Ok(())
    }

    /// Move the deposit from the buyer's token account into the vault and
    /// lock the funds: the entry leaves its transient creation stage for
    /// `FundsLocked`. Fails with `UnexpectedState` when the entry is past
    /// that stage, and with the custody primitive's `InsufficientBalance`
    /// when the buyer cannot fund the deposit; on failure nothing changes.
    pub fn deposit(&mut self, deposit: u64) -> (r: Result<(), OperationError>)
        requires
            old(self).accounts_wf(),
        ensures
            final(self).buyer == old(self).buyer,
            final(self).seller == old(self).seller,
            final(self).freight_verifier == old(self).freight_verifier,
            final(self).mint_usd == old(self).mint_usd,
            final(self).bump == old(self).bump,
            old(self).escrow.wf() ==> final(self).escrow.wf(),
            match r {
                Ok(()) => {
                    &&& old(self).escrow.current_state is Initialized
                    &&& old(self).buyer_ata.balance >= deposit
                    &&& final(self).buyer_ata.balance == old(self).buyer_ata.balance - deposit
                    &&& final(self).vault.balance == old(self).vault.balance + deposit
                    &&& final(self).buyer_ata.balance + final(self).vault.balance
                        == old(self).buyer_ata.balance + old(self).vault.balance
                    &&& final(self).escrow == (Trade {
                        current_state: TradeState::FundsLocked,
                        ..old(self).escrow
                    })
                    &&& old(self).escrow.current_state.can_step_to(final(self).escrow.current_state)
                    &&& !final(self).buyer_ata.closed
                    &&& !final(self).vault.closed
                    &&& final(self).buyer_ata.asset_kind == old(self).buyer_ata.asset_kind
                    &&& final(self).vault.asset_kind == old(self).vault.asset_kind
                },
                Err(OperationError::Trade(TradeError::UnexpectedState)) => {
                    &&& !(old(self).escrow.current_state is Initialized)
                    &&& *final(self) == *old(self)
                },
                Err(OperationError::Custody(CustodyError::InsufficientBalance)) => {
                    &&& old(self).escrow.current_state is Initialized
                    &&& old(self).buyer_ata.balance < deposit
                    &&& *final(self) == *old(self)
                },
                _ => false,
            },
    {
        if !(self.escrow.current_state == TradeState::Initialized) {
            return Err(OperationError::Trade(TradeError::UnexpectedState));
        }
        let asset_kind: u64 = self.mint_usd;
        match transfer(&mut self.buyer_ata, &mut self.vault, deposit, asset_kind) {
            Ok(()) => {},
            Err(e) => {
                return Err(OperationError::Custody(e));
            },
        }
        self.escrow.current_state = TradeState::FundsLocked;
        Ok(())
    }
}

/// The full opening relation: how a successful or failed `Open` ties the
/// context after the operation, and its result, to the context before it.
pub open spec fn open_rel(
    pre: Buy,
    seed: u64,
    deposit: u64,
    amount: u64,
    post: Buy,
    r: Result<(), OperationError>,
) -> bool {
    &&& post.buyer == pre.buyer
    &&& post.seller == pre.seller
    &&& post.freight_verifier == pre.freight_verifier
    &&& post.mint_usd == pre.mint_usd
    &&& post.bump == pre.bump
    &&& match r {
        Ok(()) => {
            &&& amount > 0
            &&& pre.buyer_ata.balance >= deposit
            &&& post.escrow == (Trade {
                buyer: pre.buyer,
                seller: pre.seller,
                freight_verifier: pre.freight_verifier,
                mint_usd: pre.mint_usd,
                amount: amount,
                document_hash: None,
                current_state: TradeState::FundsLocked,
                seed: seed,
                bump: pre.bump,
            })
            &&& post.escrow.wf()
            &&& post.buyer_ata.balance == pre.buyer_ata.balance - deposit
            &&& post.vault.balance == pre.vault.balance + deposit
            &&& post.buyer_ata.balance + post.vault.balance
                == pre.buyer_ata.balance + pre.vault.balance
            &&& post.buyer_ata.asset_kind == pre.buyer_ata.asset_kind
            &&& post.vault.asset_kind == pre.vault.asset_kind
            &&& !post.buyer_ata.closed
            &&& !post.vault.closed
        },
        Err(OperationError::Trade(TradeError::InvalidAmount)) => {
            &&& amount == 0
            &&& post == pre
        },
        Err(OperationError::Custody(CustodyError::InsufficientBalance)) => {
            &&& amount > 0
            &&& pre.buyer_ata.balance < deposit
            &&& post == pre
        },
        _ => false,
    }
}

} // verus!
