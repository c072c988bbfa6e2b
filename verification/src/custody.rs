use vstd::prelude::*;

verus! {

/// Failures of the custody primitive.
#[derive(Clone, Copy, Debug, PartialEq, Eq, Structural)]
pub enum CustodyError {
    /// The asset kind named by the operation does not match an account's
    /// configured asset.
    AssetMismatch,
    /// The source account holds less than the requested amount.
    InsufficientBalance,
    /// The account still holds a balance and so cannot be closed.
    NotEmpty,
}

/// A custody account of the host ledger: it holds a balance of exactly one
/// fungible asset kind. The vault guarding a trade's deposit and the parties'
/// own token accounts are all accounts of this shape. A closed account is
/// destroyed; its reserve went back to the party that funded its creation.
#[derive(Clone, Copy, Debug)]
pub struct CustodyAccount {
    pub asset_kind: u64,
    pub balance: u64,
    pub closed: bool,
}

/// Move `amount` units of `asset_kind` between two live custody accounts.
/// Fails with `AssetMismatch` if either account is configured for another
/// asset, and with `InsufficientBalance` if the source holds less than
/// `amount`; on failure neither account changes. The caller guarantees that
/// the destination cannot overflow: the total supply of one asset kind fits
/// in a machine word, and both accounts hold units of the same supply.
pub fn transfer(
    from: &mut CustodyAccount,
    to: &mut CustodyAccount,
    amount: u64,
    asset_kind: u64,
) -> (r: Result<(), CustodyError>)
    requires
        !old(from).closed,
        !old(to).closed,
        old(to).balance + amount <= u64::MAX,
    ensures
        match r {
            Ok(()) => {
                &&& old(from).asset_kind == asset_kind
                &&& old(to).asset_kind == asset_kind
                &&& old(from).balance >= amount
                &&& final(from).balance == old(from).balance - amount
                &&& final(to).balance == old(to).balance + amount
                &&& final(from).asset_kind == old(from).asset_kind
                &&& final(to).asset_kind == old(to).asset_kind
                &&& !final(from).closed
                &&& !final(to).closed
            },
            Err(CustodyError::AssetMismatch) => {
                &&& !(old(from).asset_kind == asset_kind && old(to).asset_kind == asset_kind)
                &&& *final(from) == *old(from)
                &&& *final(to) == *old(to)
            },
            Err(CustodyError::InsufficientBalance) => {
                &&& old(from).asset_kind == asset_kind
                &&& old(to).asset_kind == asset_kind
                &&& old(from).balance < amount
                &&& *final(from) == *old(from)
                &&& *final(to) == *old(to)
            },
            Err(CustodyError::NotEmpty) => false,
        },
{
    if from.asset_kind != asset_kind || to.asset_kind != asset_kind {
        return Err(CustodyError::AssetMismatch);
    }
    if from.balance < amount {
        return Err(CustodyError::InsufficientBalance);
    }
    from.balance = from.balance - amount;
    to.balance = to.balance + amount;
    Ok(())
}

/// Irreversibly close a live custody account. Fails with `NotEmpty`, leaving
/// the account as it was, if a balance remains: the protocol always transfers
/// an account to zero before closing it. The account's rent reserve returns to
/// the party that funded its creation; the reserve is not a quantity of the
/// traded asset and is not accounted here.
pub fn close(account: &mut CustodyAccount) -> (r: Result<(), CustodyError>)
    requires
        !old(account).closed,
    ensures
        match r {
            Ok(()) => {
                &&& old(account).balance == 0
                &&& final(account).balance == 0
                &&& final(account).asset_kind == old(account).asset_kind
                &&& final(account).closed
            },
            Err(CustodyError::NotEmpty) => {
                &&& old(account).balance > 0
                &&& *final(account) == *old(account)
            },
            Err(CustodyError::AssetMismatch) => false,
            Err(CustodyError::InsufficientBalance) => false,
        },
{
    if account.balance > 0 {
        return Err(CustodyError::NotEmpty);
    }
    account.closed = true;
    Ok(())
}

} // verus!
