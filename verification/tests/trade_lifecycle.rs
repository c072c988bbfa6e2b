use tradelink_protocol::buy;
use tradelink_protocol::buy::Buy;
use tradelink_protocol::cancel;
use tradelink_protocol::cancel::Cancel;
use tradelink_protocol::custody::CustodyAccount;
use tradelink_protocol::custody::CustodyError;
use tradelink_protocol::error::OperationError;
use tradelink_protocol::error::TradeError;
use tradelink_protocol::sell;
use tradelink_protocol::settlement;
use tradelink_protocol::settlement::Sell;
use tradelink_protocol::settlement::SettlementAction;
use tradelink_protocol::settlement::VerifyAndSettle;
use tradelink_protocol::state::Trade;
use tradelink_protocol::state::TradeState;

const BUYER: u64 = 11;
const SELLER: u64 = 22;
const VERIFIER: u64 = 33;
const MINT: u64 = 9;

fn account(balance: u64) -> CustodyAccount {
    CustodyAccount { asset_kind: MINT, balance, closed: false }
}

fn blank_entry() -> Trade {
    Trade {
        buyer: 0,
        seller: 0,
        freight_verifier: 0,
        mint_usd: 0,
        amount: 0,
        document_hash: None,
        current_state: TradeState::Initialized,
        seed: 0,
        bump: 0,
    }
}

fn open_ctx(buyer_balance: u64) -> Buy {
    Buy {
        buyer: BUYER,
        seller: SELLER,
        freight_verifier: VERIFIER,
        mint_usd: MINT,
        buyer_ata: account(buyer_balance),
        escrow: blank_entry(),
        vault: account(0),
        bump: 254,
    }
}

fn opened(seed: u64, deposit: u64, amount: u64, buyer_balance: u64) -> Buy {
    let mut ctx = open_ctx(buyer_balance);
    let r = buy(&mut ctx, seed, deposit, amount);
    assert_eq!(r, Ok(()));
    ctx
}

fn sell_ctx(escrow: Trade) -> Sell {
    Sell { seller: SELLER, buyer: BUYER, mint_usd: MINT, escrow }
}

fn verify_ctx(escrow: Trade, vault: CustodyAccount, buyer_bal: u64, seller_bal: u64) -> VerifyAndSettle {
    VerifyAndSettle {
        freight_verifier: VERIFIER,
        buyer: BUYER,
        seller: SELLER,
        mint_usd: MINT,
        buyer_ata: account(buyer_bal),
        seller_ata: account(seller_bal),
        escrow,
        vault,
    }
}

#[test]
fn open_locks_funds_with_exact_deposit() {
    let mut ctx = open_ctx(1500);
    let r = buy(&mut ctx, 1, 1000, 1000);
    assert_eq!(r, Ok(()));
    assert_eq!(ctx.escrow.current_state, TradeState::FundsLocked);
    assert_eq!(ctx.escrow.buyer, BUYER);
    assert_eq!(ctx.escrow.seller, SELLER);
    assert_eq!(ctx.escrow.freight_verifier, VERIFIER);
    assert_eq!(ctx.escrow.mint_usd, MINT);
    assert_eq!(ctx.escrow.amount, 1000);
    assert_eq!(ctx.escrow.seed, 1);
    assert_eq!(ctx.escrow.bump, 254);
    assert_eq!(ctx.escrow.document_hash, None);
    assert_eq!(ctx.vault.balance, 1000);
    assert_eq!(ctx.buyer_ata.balance, 500);
}

#[test]
fn open_rejects_zero_amount() {
    let mut ctx = open_ctx(1500);
    let r = buy(&mut ctx, 1, 1000, 0);
    assert_eq!(r, Err(OperationError::Trade(TradeError::InvalidAmount)));
    assert_eq!(ctx.escrow.amount, 0);
    assert_eq!(ctx.escrow.current_state, TradeState::Initialized);
    assert_eq!(ctx.vault.balance, 0);
    assert_eq!(ctx.buyer_ata.balance, 1500);
}

#[test]
fn open_rolls_back_when_deposit_unfunded() {
    let mut ctx = open_ctx(999);
    let r = buy(&mut ctx, 1, 1000, 1000);
    assert_eq!(r, Err(OperationError::Custody(CustodyError::InsufficientBalance)));
    assert_eq!(ctx.escrow.amount, 0);
    assert_eq!(ctx.vault.balance, 0);
    assert_eq!(ctx.buyer_ata.balance, 999);
}

#[test]
fn open_with_largest_possible_deposit() {
    let ctx = opened(5, u64::MAX, u64::MAX, u64::MAX);
    assert_eq!(ctx.vault.balance, u64::MAX);
    assert_eq!(ctx.buyer_ata.balance, 0);
    assert_eq!(ctx.escrow.current_state, TradeState::FundsLocked);
}

#[test]
fn deposit_outside_creation_stage_fails() {
    let mut ctx = opened(1, 100, 100, 100);
    let r = ctx.deposit(50);
    assert_eq!(r, Err(OperationError::Trade(TradeError::UnexpectedState)));
    assert_eq!(ctx.vault.balance, 100);
}

#[test]
fn cancel_refunds_full_vault_balance() {
    let opened_ctx = opened(2, 500, 500, 800);
    let mut ctx = Cancel {
        buyer: BUYER,
        mint_usd: MINT,
        buyer_ata: opened_ctx.buyer_ata,
        escrow: opened_ctx.escrow,
        vault: opened_ctx.vault,
    };
    let r = cancel(&mut ctx);
    assert_eq!(r, Ok(()));
    assert_eq!(ctx.buyer_ata.balance, 800);
    assert_eq!(ctx.vault.balance, 0);
    assert!(ctx.vault.closed);
    assert_eq!(ctx.escrow.current_state, TradeState::Cancelled);
}

#[test]
fn cancel_after_submission_fails_and_leaves_state() {
    let opened_ctx = opened(2, 500, 500, 800);
    let mut sctx = sell_ctx(opened_ctx.escrow);
    assert_eq!(sell(&mut sctx, [1u8; 32]), Ok(()));
    let mut ctx = Cancel {
        buyer: BUYER,
        mint_usd: MINT,
        buyer_ata: opened_ctx.buyer_ata,
        escrow: sctx.escrow,
        vault: opened_ctx.vault,
    };
    let r = cancel(&mut ctx);
    assert_eq!(r, Err(OperationError::Trade(TradeError::InvalidStateTransition)));
    assert_eq!(ctx.escrow.current_state, TradeState::DocumentsSubmitted);
    assert_eq!(ctx.vault.balance, 500);
    assert!(!ctx.vault.closed);
    assert_eq!(ctx.buyer_ata.balance, 300);
}

#[test]
fn submit_documents_advances_and_stores_hash() {
    let opened_ctx = opened(1, 1000, 1000, 1000);
    let mut sctx = sell_ctx(opened_ctx.escrow);
    let digest = [42u8; 32];
    let r = sell(&mut sctx, digest);
    assert_eq!(r, Ok(()));
    assert_eq!(sctx.escrow.current_state, TradeState::DocumentsSubmitted);
    assert_eq!(sctx.escrow.document_hash, Some(digest));
}

#[test]
fn second_submission_rejected_keeps_first_hash() {
    let opened_ctx = opened(1, 1000, 1000, 1000);
    let mut sctx = sell_ctx(opened_ctx.escrow);
    let h1 = [1u8; 32];
    let h2 = [2u8; 32];
    assert_eq!(sell(&mut sctx, h1), Ok(()));
    let r = sell(&mut sctx, h2);
    assert_eq!(r, Err(TradeError::UnexpectedStateTransition));
    assert_eq!(sctx.escrow.document_hash, Some(h1));
    assert_eq!(sctx.escrow.current_state, TradeState::DocumentsSubmitted);
}

#[test]
fn submit_documents_requires_funds_locked() {
    let mut sctx = sell_ctx(blank_entry());
    let r = sell(&mut sctx, [3u8; 32]);
    assert_eq!(r, Err(TradeError::InvalidState));
    assert_eq!(sctx.escrow.document_hash, None);
}

#[test]
fn confirm_arrival_advances_state() {
    let opened_ctx = opened(1, 1000, 1000, 1000);
    let mut sctx = sell_ctx(opened_ctx.escrow);
    assert_eq!(sell(&mut sctx, [5u8; 32]), Ok(()));
    let mut vctx = verify_ctx(sctx.escrow, opened_ctx.vault, 0, 0);
    let r = settlement(&mut vctx, SettlementAction::ConfirmArrival);
    assert_eq!(r, Ok(()));
    assert_eq!(vctx.escrow.current_state, TradeState::ShipmentConfirmed);
    assert_eq!(vctx.vault.balance, 1000);
}

#[test]
fn confirm_arrival_outside_documents_submitted_fails() {
    let opened_ctx = opened(1, 1000, 1000, 1000);
    let mut vctx = verify_ctx(opened_ctx.escrow, opened_ctx.vault, 0, 0);
    let r = vctx.confirm_shipment_arrival();
    assert_eq!(r, Err(TradeError::InvalidState));
    assert_eq!(vctx.escrow.current_state, TradeState::FundsLocked);
}

#[test]
fn confirm_arrival_without_documents_fails() {
    let opened_ctx = opened(1, 1000, 1000, 1000);
    let mut corrupted = opened_ctx.escrow;
    corrupted.current_state = TradeState::DocumentsSubmitted;
    let mut vctx = verify_ctx(corrupted, opened_ctx.vault, 0, 0);
    let r = vctx.confirm_shipment_arrival();
    assert_eq!(r, Err(TradeError::MissingDocuments));
    assert_eq!(vctx.escrow.current_state, TradeState::DocumentsSubmitted);
}

#[test]
fn reject_refunds_buyer_and_fails_trade() {
    let opened_ctx = opened(2, 500, 500, 500);
    let mut sctx = sell_ctx(opened_ctx.escrow);
    assert_eq!(sell(&mut sctx, [6u8; 32]), Ok(()));
    let mut vctx = verify_ctx(sctx.escrow, opened_ctx.vault, opened_ctx.buyer_ata.balance, 0);
    let r = settlement(&mut vctx, SettlementAction::RejectDocuments);
    assert_eq!(r, Ok(()));
    assert_eq!(vctx.buyer_ata.balance, 500);
    assert_eq!(vctx.seller_ata.balance, 0);
    assert_eq!(vctx.vault.balance, 0);
    assert!(vctx.vault.closed);
    assert_eq!(vctx.escrow.current_state, TradeState::Failed);
}

#[test]
fn reject_outside_documents_submitted_fails() {
    let opened_ctx = opened(1, 1000, 1000, 1000);
    let mut vctx = verify_ctx(opened_ctx.escrow, opened_ctx.vault, 0, 0);
    let r = vctx.reject_documents();
    assert_eq!(r, Err(OperationError::Trade(TradeError::UnreadyState)));
    assert_eq!(vctx.escrow.current_state, TradeState::FundsLocked);
    assert_eq!(vctx.vault.balance, 1000);
}

#[test]
fn reject_with_vault_mismatch_fails() {
    let opened_ctx = opened(1, 400, 1000, 1000);
    let mut sctx = sell_ctx(opened_ctx.escrow);
    assert_eq!(sell(&mut sctx, [7u8; 32]), Ok(()));
    let mut vctx = verify_ctx(sctx.escrow, opened_ctx.vault, 0, 0);
    let r = vctx.reject_documents();
    assert_eq!(r, Err(OperationError::Trade(TradeError::VaultMismatch)));
    assert_eq!(vctx.vault.balance, 400);
    assert!(!vctx.vault.closed);
    assert_eq!(vctx.escrow.current_state, TradeState::DocumentsSubmitted);
}

#[test]
fn settle_pays_seller_and_closes_vault() {
    let opened_ctx = opened(1, 1000, 1000, 1000);
    assert_eq!(opened_ctx.escrow.current_state, TradeState::FundsLocked);
    assert_eq!(opened_ctx.vault.balance, 1000);
    let mut sctx = sell_ctx(opened_ctx.escrow);
    let digest = [9u8; 32];
    assert_eq!(sell(&mut sctx, digest), Ok(()));
    assert_eq!(sctx.escrow.current_state, TradeState::DocumentsSubmitted);
    let mut vctx = verify_ctx(sctx.escrow, opened_ctx.vault, opened_ctx.buyer_ata.balance, 0);
    assert_eq!(settlement(&mut vctx, SettlementAction::ConfirmArrival), Ok(()));
    assert_eq!(vctx.escrow.current_state, TradeState::ShipmentConfirmed);
    assert_eq!(settlement(&mut vctx, SettlementAction::Settle), Ok(()));
    assert_eq!(vctx.seller_ata.balance, 1000);
    assert_eq!(vctx.buyer_ata.balance, 0);
    assert_eq!(vctx.vault.balance, 0);
    assert!(vctx.vault.closed);
    assert_eq!(vctx.escrow.current_state, TradeState::Settled);
    let total: u64 = vctx.buyer_ata.balance + vctx.seller_ata.balance + vctx.vault.balance;
    assert_eq!(total, 1000);
}

#[test]
fn settle_outside_shipment_confirmed_fails() {
    let opened_ctx = opened(1, 1000, 1000, 1000);
    let mut vctx = verify_ctx(opened_ctx.escrow, opened_ctx.vault, 0, 0);
    let r = vctx.settle_trade();
    assert_eq!(r, Err(OperationError::Trade(TradeError::InvalidState)));
    assert_eq!(vctx.vault.balance, 1000);
    assert_eq!(vctx.seller_ata.balance, 0);
}

#[test]
fn settle_with_vault_mismatch_fails() {
    let opened_ctx = opened(1, 1000, 1000, 1000);
    let mut sctx = sell_ctx(opened_ctx.escrow);
    assert_eq!(sell(&mut sctx, [4u8; 32]), Ok(()));
    let mut vctx = verify_ctx(sctx.escrow, opened_ctx.vault, 0, 0);
    assert_eq!(vctx.confirm_shipment_arrival(), Ok(()));
    vctx.vault.balance = 999;
    let r = vctx.settle_trade();
    assert_eq!(r, Err(OperationError::Trade(TradeError::VaultMismatch)));
    assert_eq!(vctx.seller_ata.balance, 0);
    assert_eq!(vctx.escrow.current_state, TradeState::ShipmentConfirmed);
}

#[test]
fn settle_impossible_after_reject() {
    let opened_ctx = opened(2, 500, 500, 500);
    let mut sctx = sell_ctx(opened_ctx.escrow);
    assert_eq!(sell(&mut sctx, [8u8; 32]), Ok(()));
    let mut vctx = verify_ctx(sctx.escrow, opened_ctx.vault, 0, 0);
    assert_eq!(vctx.reject_documents(), Ok(()));
    assert_eq!(vctx.escrow.current_state, TradeState::Failed);
    let mut after = vctx;
    after.vault = CustodyAccount { asset_kind: MINT, balance: 500, closed: false };
    let r = after.settle_trade();
    assert_eq!(r, Err(OperationError::Trade(TradeError::InvalidState)));
    assert_eq!(after.seller_ata.balance, 0);
}

#[test]
fn reject_impossible_after_settle() {
    let opened_ctx = opened(1, 1000, 1000, 1000);
    let mut sctx = sell_ctx(opened_ctx.escrow);
    assert_eq!(sell(&mut sctx, [8u8; 32]), Ok(()));
    let mut vctx = verify_ctx(sctx.escrow, opened_ctx.vault, 0, 0);
    assert_eq!(vctx.confirm_shipment_arrival(), Ok(()));
    assert_eq!(vctx.settle_trade(), Ok(()));
    assert_eq!(vctx.escrow.current_state, TradeState::Settled);
    let mut after = vctx;
    after.vault = CustodyAccount { asset_kind: MINT, balance: 1000, closed: false };
    let r = after.reject_documents();
    assert_eq!(r, Err(OperationError::Trade(TradeError::UnreadyState)));
    assert_eq!(after.buyer_ata.balance, 0);
}

#[test]
fn terminal_states_admit_no_operation() {
    assert!(TradeState::Cancelled.is_terminal());
    assert!(TradeState::Failed.is_terminal());
    assert!(TradeState::Settled.is_terminal());
    assert!(!TradeState::Initialized.is_terminal());
    assert!(!TradeState::FundsLocked.is_terminal());
    assert!(!TradeState::DocumentsSubmitted.is_terminal());
    assert!(!TradeState::ShipmentConfirmed.is_terminal());
}

#[test]
fn initialize_trade_writes_the_entry() {
    let mut ctx = open_ctx(100);
    let r = ctx.initialize_trade(77, 50);
    assert_eq!(r, Ok(()));
    assert_eq!(ctx.escrow.current_state, TradeState::Initialized);
    assert_eq!(ctx.escrow.seed, 77);
    assert_eq!(ctx.escrow.amount, 50);
    assert_eq!(ctx.vault.balance, 0);
    let r2 = ctx.deposit(50);
    assert_eq!(r2, Ok(()));
    assert_eq!(ctx.escrow.current_state, TradeState::FundsLocked);
    assert_eq!(ctx.vault.balance, 50);
}
