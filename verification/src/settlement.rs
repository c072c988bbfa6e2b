use vstd::prelude::*;

use crate::custody::CustodyAccount;
use crate::custody::close;
use crate::custody::transfer;
use crate::error::OperationError;
use crate::error::TradeError;
use crate::state::Trade;
use crate::state::TradeState;

verus! {

/// The accounts a document submission names: the seller (who must sign), the
/// buyer and the asset the entry was opened under, and the entry itself. No
/// funds move here, so no custody account is touched.
#[derive(Clone, Copy, Debug)]
pub struct Sell {
    pub seller: u64,
    pub buyer: u64,
    pub mint_usd: u64,
    pub escrow: Trade,
}

impl Sell {
    /// The account constraints the host establishes before the operation
    /// runs: the entry names this seller, this buyer and this asset.
    pub open spec fn accounts_wf(self) -> bool {
        &&& self.escrow.seller == self.seller
        &&& self.escrow.buyer == self.buyer
        &&& self.escrow.mint_usd == self.mint_usd
    }

    /// Attest the shipping documents: store their digest in the entry and
    /// advance it to `DocumentsSubmitted`. The commitment is write-once —
    /// if a digest is already stored the call fails with
    /// `UnexpectedStateTransition`; otherwise, outside `FundsLocked` it fails
    /// with `InvalidState`. On failure the entry is untouched.
    pub fn submit_documents(&mut self, document_hash: [u8; 32]) -> (r: Result<(), TradeError>)
        ensures
            submit_documents_rel(*old(self), document_hash, *final(self), r),
            r is Ok ==> old(self).escrow.current_state.can_step_to(
                final(self).escrow.current_state,
            ),
            old(self).escrow.wf() ==> final(self).escrow.wf(),
    {
        if self.escrow.document_hash.is_some() {
            return Err(TradeError::UnexpectedStateTransition);
        }
        if !(self.escrow.current_state == TradeState::FundsLocked) {
            return Err(TradeError::InvalidState);
        }
        self.escrow.document_hash = Some(document_hash);
        self.escrow.current_state = TradeState::DocumentsSubmitted;
        Ok(())
    }
}

/// The submission relation: how a successful or failed `SubmitDocuments`
/// ties the context after the operation, and its result, to the context
/// before it and the digest handed in.
pub open spec fn submit_documents_rel(
    pre: Sell,
    document_hash: [u8; 32],
    post: Sell,
    r: Result<(), TradeError>,
) -> bool {
    &&& post.seller == pre.seller
    &&& post.buyer == pre.buyer
    &&& post.mint_usd == pre.mint_usd
    &&& match r {
        Ok(()) => {
            &&& pre.escrow.document_hash is None
            &&& pre.escrow.current_state is FundsLocked
            &&& post.escrow == (Trade {
                document_hash: Some(document_hash),
                current_state: TradeState::DocumentsSubmitted,
                ..pre.escrow
            })
        },
        Err(TradeError::UnexpectedStateTransition) => {
            &&& pre.escrow.document_hash is Some
            &&& post == pre
        },
        Err(TradeError::InvalidState) => {
            &&& pre.escrow.document_hash is None
            &&& !(pre.escrow.current_state is FundsLocked)
            &&& post == pre
        },
        _ => false,
    }
}

/// The document commitment is write-once. From an entry with funds locked
/// and no digest stored, a first submission succeeds and stores its digest;
/// a second submission, with any digest whatever, fails with
/// `UnexpectedStateTransition` and leaves the first digest — and the whole
/// entry — exactly as the first submission left them.
pub proof fn lemma_submit_documents_write_once(
    ctx0: Sell,
    h1: [u8; 32],
    ctx1: Sell,
    r1: Result<(), TradeError>,
    h2: [u8; 32],
    ctx2: Sell,
    r2: Result<(), TradeError>,
)
    requires
        ctx0.escrow.current_state is FundsLocked,
        ctx0.escrow.document_hash is None,
        submit_documents_rel(ctx0, h1, ctx1, r1),
        submit_documents_rel(ctx1, h2, ctx2, r2),
    ensures
        r1 is Ok,
        ctx1.escrow.document_hash == Some(h1),
        r2 == Err::<(), TradeError>(TradeError::UnexpectedStateTransition),
        ctx2 == ctx1,
        ctx2.escrow.document_hash == Some(h1),
{
}

/// Selects which of the three verifier adjudications to run. Each is
/// individually validated, and at most the one selected has any effect.
#[derive(Clone, Copy, Debug, PartialEq, Eq, Structural)]
pub enum SettlementAction {
    RejectDocuments,
    ConfirmArrival,
    Settle,
}

/// The accounts an adjudication names: the freight verifier (who must sign),
/// the two parties and their token accounts, the asset, the entry, and its
/// vault. The host admits this context only when the entry names exactly
/// these parties and this asset.
#[derive(Clone, Copy, Debug)]
pub struct VerifyAndSettle {
    pub freight_verifier: u64,
    pub buyer: u64,
    pub seller: u64,
    pub mint_usd: u64,
    pub buyer_ata: CustodyAccount,
    pub seller_ata: CustodyAccount,
    pub escrow: Trade,
    pub vault: CustodyAccount,
}

impl VerifyAndSettle {
    /// The account constraints the host establishes before the operation
    /// runs: the entry names these parties and this asset, the three token
    /// accounts are live and carry that asset, and accounts holding units of
    /// one asset share a total supply that fits in a machine word.
    pub open spec fn accounts_wf(self) -> bool {
        &&& self.escrow.buyer == self.buyer
        &&& self.escrow.seller == self.seller
        &&& self.escrow.freight_verifier == self.freight_verifier
        &&& self.escrow.mint_usd == self.mint_usd
        &&& self.buyer_ata.asset_kind == self.mint_usd
        &&& self.seller_ata.asset_kind == self.mint_usd
        &&& self.vault.asset_kind == self.mint_usd
        &&& !self.buyer_ata.closed
        &&& !self.seller_ata.closed
        &&& !self.vault.closed
        &&& self.buyer_ata.balance + self.vault.balance <= u64::MAX
        &&& self.seller_ata.balance + self.vault.balance <= u64::MAX
    }

    /// Reject the submitted documents: refund the escrowed amount to the
    /// buyer, close the vault, and drive the entry to the terminal state
    /// `Failed`. Valid only from `DocumentsSubmitted` (else `UnreadyState`),
    /// and only while the vault holds exactly the escrowed amount (else
    /// `VaultMismatch`, a custody-consistency failure that leaves the funds
    /// locked). On failure nothing changes.
    pub fn reject_documents(&mut self) -> (r: Result<(), OperationError>)
        requires
            old(self).accounts_wf(),
        ensures
            reject_documents_rel(*old(self), *final(self), r),
            r is Ok ==> old(self).escrow.current_state.can_step_to(
                final(self).escrow.current_state,
            ),
            old(self).escrow.wf() ==> final(self).escrow.wf(),
    {
        if !(self.escrow.current_state == TradeState::DocumentsSubmitted) {
            return Err(OperationError::Trade(TradeError::UnreadyState));
        }
        if !(self.vault.balance == self.escrow.amount) {
            return Err(OperationError::Trade(TradeError::VaultMismatch));
        }
        let asset_kind: u64 = self.mint_usd;
        let refund: u64 = self.vault.balance;
        match transfer(&mut self.vault, &mut self.buyer_ata, refund, asset_kind) {
            Ok(()) => {},
            Err(e) => {
                return Err(OperationError::Custody(e));
            },
        }
        match close(&mut self.vault) {
            Ok(()) => {},
            Err(e) => {
                return Err(OperationError::Custody(e));
            },
        }
        self.escrow.current_state = TradeState::Failed;
        Ok(())
    }

    /// Confirm that the shipment arrived: advance the entry from
    /// `DocumentsSubmitted` to `ShipmentConfirmed`. No funds move. Outside
    /// `DocumentsSubmitted` the call fails with `InvalidState`; in it but
    /// with no digest stored it fails with `MissingDocuments`. On failure
    /// the entry is untouched.
    pub fn confirm_shipment_arrival(&mut self) -> (r: Result<(), TradeError>)
        ensures
            confirm_shipment_arrival_rel(*old(self), *final(self), r),
            r is Ok ==> old(self).escrow.current_state.can_step_to(
                final(self).escrow.current_state,
            ),
            old(self).escrow.wf() ==> final(self).escrow.wf(),
    {
        if !(self.escrow.current_state == TradeState::DocumentsSubmitted) {
            return Err(TradeError::InvalidState);
        }
        if self.escrow.document_hash.is_none() {
            return Err(TradeError::MissingDocuments);
        }
        self.escrow.current_state = TradeState::ShipmentConfirmed;
        Ok(())
    }

    /// Settle the trade: pay the escrowed amount out to the seller, close the
    /// vault, and drive the entry to the terminal state `Settled`. Valid only
    /// from `ShipmentConfirmed` (else `InvalidState`), and only while the
    /// vault holds exactly the escrowed amount (else `VaultMismatch`, a
    /// custody-consistency failure that leaves the funds locked). On failure
    /// nothing changes.
    pub fn settle_trade(&mut self) -> (r: Result<(), OperationError>)
        requires
            old(self).accounts_wf(),
        ensures
            settle_trade_rel(*old(self), *final(self), r),
            r is Ok ==> old(self).escrow.current_state.can_step_to(
                final(self).escrow.current_state,
            ),
            old(self).escrow.wf() ==> final(self).escrow.wf(),
    {
        if !(self.escrow.current_state == TradeState::ShipmentConfirmed) {
            return Err(OperationError::Trade(TradeError::InvalidState));
        }
        if !(self.vault.balance == self.escrow.amount) {
            return Err(OperationError::Trade(TradeError::VaultMismatch));
        }
        let asset_kind: u64 = self.mint_usd;
        let payout: u64 = self.vault.balance;
        match transfer(&mut self.vault, &mut self.seller_ata, payout, asset_kind) {
            Ok(()) => {},
            Err(e) => {
                return Err(OperationError::Custody(e));
            },
        }
        match close(&mut self.vault) {
            Ok(()) => {},
            Err(e) => {
                return Err(OperationError::Custody(e));
            },
        }
        self.escrow.current_state = TradeState::Settled;
        Ok(())
    }
}

/// The rejection relation: a rejection succeeds exactly from
/// `DocumentsSubmitted` with the vault holding exactly the escrowed amount;
/// it then refunds that amount to the buyer, destroys the vault, and leaves
/// the entry `Failed`. The seller's account never changes.
pub open spec fn reject_documents_rel(pre: VerifyAndSettle, post: VerifyAndSettle, r: Result<
    (),
    OperationError,
>) -> bool {
    &&& post.freight_verifier == pre.freight_verifier
    &&& post.buyer == pre.buyer
    &&& post.seller == pre.seller
    &&& post.mint_usd == pre.mint_usd
    &&& match r {
        Ok(()) => {
            &&& pre.escrow.current_state is DocumentsSubmitted
            &&& pre.vault.balance == pre.escrow.amount
            &&& post.buyer_ata.balance == pre.buyer_ata.balance + pre.escrow.amount
            &&& post.seller_ata == pre.seller_ata
            &&& post.vault.balance == 0
            &&& post.vault.closed
            &&& post.buyer_ata.balance + post.vault.balance
                == pre.buyer_ata.balance + pre.vault.balance
            &&& post.escrow == (Trade { current_state: TradeState::Failed, ..pre.escrow })
            &&& post.buyer_ata.asset_kind == pre.buyer_ata.asset_kind
            &&& post.vault.asset_kind == pre.vault.asset_kind
            &&& !post.buyer_ata.closed
        },
        Err(OperationError::Trade(TradeError::UnreadyState)) => {
            &&& !(pre.escrow.current_state is DocumentsSubmitted)
            &&& post == pre
        },
        Err(OperationError::Trade(TradeError::VaultMismatch)) => {
            &&& pre.escrow.current_state is DocumentsSubmitted
            &&& pre.vault.balance != pre.escrow.amount
            &&& post == pre
        },
        _ => false,
    }
}

/// The arrival-confirmation relation: it succeeds exactly from
/// `DocumentsSubmitted` with a digest stored, moves no funds, and only
/// advances the entry's state to `ShipmentConfirmed`.
pub open spec fn confirm_shipment_arrival_rel(
    pre: VerifyAndSettle,
    post: VerifyAndSettle,
    r: Result<(), TradeError>,
) -> bool {
    &&& post.freight_verifier == pre.freight_verifier
    &&& post.buyer == pre.buyer
    &&& post.seller == pre.seller
    &&& post.mint_usd == pre.mint_usd
    &&& post.buyer_ata == pre.buyer_ata
    &&& post.seller_ata == pre.seller_ata
    &&& post.vault == pre.vault
    &&& match r {
        Ok(()) => {
            &&& pre.escrow.current_state is DocumentsSubmitted
            &&& pre.escrow.document_hash is Some
            &&& post.escrow == (Trade {
                current_state: TradeState::ShipmentConfirmed,
                ..pre.escrow
            })
        },
        Err(TradeError::InvalidState) => {
            &&& !(pre.escrow.current_state is DocumentsSubmitted)
            &&& post == pre
        },
        Err(TradeError::MissingDocuments) => {
            &&& pre.escrow.current_state is DocumentsSubmitted
            &&& pre.escrow.document_hash is None
            &&& post == pre
        },
        _ => false,
    }
}

/// The settlement relation: a settlement succeeds exactly from
/// `ShipmentConfirmed` with the vault holding exactly the escrowed amount;
/// it then pays that amount to the seller, destroys the vault, and leaves
/// the entry `Settled`. The buyer's token account never changes.
pub open spec fn settle_trade_rel(pre: VerifyAndSettle, post: VerifyAndSettle, r: Result<
    (),
    OperationError,
>) -> bool {
    &&& post.freight_verifier == pre.freight_verifier
    &&& post.buyer == pre.buyer
    &&& post.seller == pre.seller
    &&& post.mint_usd == pre.mint_usd
    &&& match r {
        Ok(()) => {
            &&& pre.escrow.current_state is ShipmentConfirmed
            &&& pre.vault.balance == pre.escrow.amount
            &&& post.seller_ata.balance == pre.seller_ata.balance + pre.escrow.amount
            &&& post.buyer_ata == pre.buyer_ata
            &&& post.vault.balance == 0
            &&& post.vault.closed
            &&& post.seller_ata.balance + post.vault.balance
                == pre.seller_ata.balance + pre.vault.balance
            &&& post.escrow == (Trade { current_state: TradeState::Settled, ..pre.escrow })
            &&& post.seller_ata.asset_kind == pre.seller_ata.asset_kind
            &&& post.vault.asset_kind == pre.vault.asset_kind
            &&& !post.seller_ata.closed
        },
        Err(OperationError::Trade(TradeError::InvalidState)) => {
            &&& !(pre.escrow.current_state is ShipmentConfirmed)
            &&& post == pre
        },
        Err(OperationError::Trade(TradeError::VaultMismatch)) => {
            &&& pre.escrow.current_state is ShipmentConfirmed
            &&& pre.vault.balance != pre.escrow.amount
            &&& post == pre
        },
        _ => false,
    }
}

} // verus!
