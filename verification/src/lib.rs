use vstd::prelude::*;

pub mod buy;
pub mod cancel;
pub mod custody;
pub mod error;
pub mod laws;
pub mod settlement;
pub mod state;

use crate::buy::Buy;
use crate::buy::open_rel;
use crate::cancel::Cancel;
use crate::cancel::refund_and_close_rel;
use crate::error::OperationError;
use crate::error::TradeError;
use crate::settlement::Sell;
use crate::settlement::SettlementAction;
use crate::settlement::VerifyAndSettle;
use crate::settlement::confirm_shipment_arrival_rel;
use crate::settlement::reject_documents_rel;
use crate::settlement::settle_trade_rel;
use crate::settlement::submit_documents_rel;

verus! {

/// An operation context that names no accounts.
pub struct Initialize {}

/// Open a trade: write the entry for `(buyer, seed)` and lock the deposit in
/// the freshly created vault, as one atomic unit. On success the entry sits
/// in `FundsLocked` and the vault holds exactly `deposit`; on any failure —
/// a zero `amount`, or a deposit the buyer cannot fund — the context is
/// exactly as it was, so neither entry nor locked funds survive a rejected
/// opening.
pub fn buy(ctx: &mut Buy, seed: u64, deposit: u64, amount: u64) -> (r: Result<
    (),
    OperationError,
>)
    requires
        old(ctx).accounts_wf(),
    ensures
        open_rel(*old(ctx), seed, deposit, amount, *final(ctx), r),
{
    let saved: Buy = *ctx;
    match ctx.initialize_trade(seed, amount) {
        Ok(()) => {},
        Err(e) => {
            return Err(OperationError::Trade(e));
        },
    }
    match ctx.deposit(deposit) {
        Ok(()) => Ok(()),
        Err(e) => {
            *ctx = saved;
            Err(e)
        },
    }
}

/// Cancel a trade: the buyer takes the vault's whole balance back, the vault
/// is closed, and the entry reaches the terminal state `Cancelled`. Valid
/// only while the entry still allows a cancellation — once documents are
/// submitted the call fails with `InvalidStateTransition` and changes
/// nothing.
pub fn cancel(ctx: &mut Cancel) -> (r: Result<(), OperationError>)
    requires
        old(ctx).accounts_wf(),
    ensures
        refund_and_close_rel(*old(ctx), *final(ctx), r),
{
    ctx.refund_and_close()
}

/// Submit the shipping documents: the seller stores their digest in the
/// entry, write-once, and the entry advances from `FundsLocked` to
/// `DocumentsSubmitted`. No funds move.
pub fn sell(ctx: &mut Sell, document_hash: [u8; 32]) -> (r: Result<(), TradeError>)
    ensures
        submit_documents_rel(*old(ctx), document_hash, *final(ctx), r),
{
    ctx.submit_documents(document_hash)
}

/// Run one verifier adjudication, chosen by `action`: reject the documents,
/// confirm the shipment's arrival, or settle the trade. The three are
/// independent operations; each validates its own starting state and vault,
/// and only the one selected can have any effect.
pub fn settlement(ctx: &mut VerifyAndSettle, action: SettlementAction) -> (r: Result<
    (),
    OperationError,
>)
    requires
        old(ctx).accounts_wf(),
    ensures
        action is RejectDocuments ==> reject_documents_rel(*old(ctx), *final(ctx), r),
        action is Settle ==> settle_trade_rel(*old(ctx), *final(ctx), r),
        action is ConfirmArrival ==> (match r {
            Ok(()) => confirm_shipment_arrival_rel(*old(ctx), *final(ctx), Ok(())),
            Err(OperationError::Trade(e)) => confirm_shipment_arrival_rel(
                *old(ctx),
                *final(ctx),
                Err(e),
            ),
            Err(OperationError::Custody(_)) => false,
        }),
{
    match action {
        SettlementAction::RejectDocuments => ctx.reject_documents(),
        SettlementAction::ConfirmArrival => match ctx.confirm_shipment_arrival() {
            Ok(()) => Ok(()),
            Err(e) => Err(OperationError::Trade(e)),
        },
        SettlementAction::Settle => ctx.settle_trade(),
    }
}

} // verus!
