use vstd::prelude::*;

use crate::buy::Buy;
use crate::buy::open_rel;
use crate::cancel::Cancel;
use crate::cancel::refund_and_close_rel;
use crate::error::OperationError;
use crate::error::TradeError;
use crate::settlement::Sell;
use crate::settlement::VerifyAndSettle;
use crate::settlement::confirm_shipment_arrival_rel;
use crate::settlement::reject_documents_rel;
use crate::settlement::settle_trade_rel;
use crate::settlement::submit_documents_rel;
use crate::state::lemma_terminal_reaches_only_itself;

verus! {

/// At most one of the two fund-releasing adjudications succeeds in any run
/// of one trade: after a successful rejection the entry sits in the terminal
/// state `Failed`, so however many transitions later, no context holding
/// that trade's entry can satisfy a settlement — and conversely, after a
/// successful settlement no later context can satisfy a rejection.
pub proof fn lemma_one_adjudication_per_trade(
    f0: VerifyAndSettle,
    f1: VerifyAndSettle,
    g0: VerifyAndSettle,
    g1: VerifyAndSettle,
    n: nat,
)
    ensures
        reject_documents_rel(f0, f1, Ok(())) && f1.escrow.current_state.reachable_within(
            g0.escrow.current_state,
            n,
        ) ==> !settle_trade_rel(g0, g1, Ok(())),
        settle_trade_rel(f0, f1, Ok(())) && f1.escrow.current_state.reachable_within(
            g0.escrow.current_state,
            n,
        ) ==> !reject_documents_rel(g0, g1, Ok(())),
{
    if f1.escrow.current_state.spec_is_terminal() && f1.escrow.current_state.reachable_within(
        g0.escrow.current_state,
        n,
    ) {
        lemma_terminal_reaches_only_itself(
            f1.escrow.current_state,
            g0.escrow.current_state,
            n,
        );
    }
}

/// Funds round-trip on the cancellation path: a trade opened into an empty
/// vault and then cancelled returns the buyer's token account to exactly the
/// balance it had before the opening — no value is created or destroyed, and
/// the vault is destroyed empty. The hypotheses tie the two operation
/// contexts to the same entry, vault and buyer account.
pub proof fn lemma_open_cancel_round_trip(
    b0: Buy,
    seed: u64,
    deposit: u64,
    amount: u64,
    b1: Buy,
    c0: Cancel,
    c1: Cancel,
    rc: Result<(), OperationError>,
)
    requires
        b0.vault.balance == 0,
        open_rel(b0, seed, deposit, amount, b1, Ok(())),
        c0.escrow == b1.escrow,
        c0.vault == b1.vault,
        c0.buyer_ata == b1.buyer_ata,
        refund_and_close_rel(c0, c1, rc),
    ensures
        rc is Ok,
        c1.buyer_ata.balance == b0.buyer_ata.balance,
        c1.vault.balance == 0,
        c1.vault.closed,
        c1.escrow.current_state is Cancelled,
{
}

/// Funds round-trip on the rejection path: a trade opened with its deposit
/// equal to the escrowed amount, whose documents are submitted and then
/// rejected, refunds the buyer's token account to exactly the balance it had
/// before the opening; the seller's account never changes and the vault is
/// destroyed empty.
pub proof fn lemma_open_reject_round_trip(
    b0: Buy,
    seed: u64,
    deposit: u64,
    amount: u64,
    b1: Buy,
    s0: Sell,
    document_hash: [u8; 32],
    s1: Sell,
    rs: Result<(), TradeError>,
    v0: VerifyAndSettle,
    v1: VerifyAndSettle,
    rr: Result<(), OperationError>,
)
    requires
        b0.vault.balance == 0,
        deposit == amount,
        open_rel(b0, seed, deposit, amount, b1, Ok(())),
        s0.escrow == b1.escrow,
        submit_documents_rel(s0, document_hash, s1, rs),
        v0.escrow == s1.escrow,
        v0.vault == b1.vault,
        v0.buyer_ata == b1.buyer_ata,
        reject_documents_rel(v0, v1, rr),
    ensures
        rs is Ok,
        rr is Ok,
        v1.buyer_ata.balance == b0.buyer_ata.balance,
        v1.seller_ata == v0.seller_ata,
        v1.vault.balance == 0,
        v1.vault.closed,
        v1.escrow.current_state is Failed,
{
}

/// Funds round-trip on the settlement path: a trade opened with its deposit
/// equal to the escrowed amount, carried through submission, arrival
/// confirmation and settlement, pays the seller's token account exactly the
/// amount the buyer's account gave up at the opening; the vault is destroyed
/// empty. Together with the other two round trips: on every execution path
/// the deposit locked at the opening comes out exactly once, to exactly one
/// party.
pub proof fn lemma_open_settle_round_trip(
    b0: Buy,
    seed: u64,
    deposit: u64,
    amount: u64,
    b1: Buy,
    s0: Sell,
    document_hash: [u8; 32],
    s1: Sell,
    rs: Result<(), TradeError>,
    v0: VerifyAndSettle,
    v1: VerifyAndSettle,
    rc: Result<(), TradeError>,
    v2: VerifyAndSettle,
    rt: Result<(), OperationError>,
)
    requires
        b0.vault.balance == 0,
        deposit == amount,
        open_rel(b0, seed, deposit, amount, b1, Ok(())),
        s0.escrow == b1.escrow,
        submit_documents_rel(s0, document_hash, s1, rs),
        v0.escrow == s1.escrow,
        v0.vault == b1.vault,
        confirm_shipment_arrival_rel(v0, v1, rc),
        settle_trade_rel(v1, v2, rt),
    ensures
        rs is Ok,
        rc is Ok,
        rt is Ok,
        b1.buyer_ata.balance == b0.buyer_ata.balance - deposit,
        v2.seller_ata.balance == v0.seller_ata.balance + deposit,
        v2.buyer_ata == v1.buyer_ata,
        v2.vault.balance == 0,
        v2.vault.closed,
        v2.escrow.current_state is Settled,
        v2.escrow.document_hash == Some(document_hash),
{
}

} // verus!
