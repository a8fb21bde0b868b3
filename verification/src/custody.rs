use vstd::prelude::*;

verus! {

/// The identity of a party, as the host ledger resolves it: an opaque
/// numeric key. The engine never inspects an identity beyond comparing it.
pub type AccountId = u64;

/// A holding location on the host ledger.
///
/// Custody accounts are derived deterministically from the auction identity
/// alone: the variant is the derivation tag and the auction identity is the
/// seed. Two distinct auctions therefore never share an escrow or a vault,
/// and no custody account can collide with a user account.
#[derive(Clone, Copy, Debug, PartialEq, Eq, Hash, Structural)]
pub enum AccountRef {
    /// An ordinary user account (creator, bidder, winner).
    User(AccountId),
    /// The funds-escrow account of the auction with the given identity.
    Escrow(u64),
    /// The asset-custody (vault) account of the auction with the given identity.
    Vault(u64),
    /// The fixed platform destination for the fee cut.
    Platform,
}

/// An instruction to the host ledger: move `amount` of the native currency
/// from one account to another. The move is atomic; it fails on the host if
/// the source balance is insufficient, in which case the whole transition it
/// belongs to must not become visible.
#[derive(Clone, Copy, Debug, PartialEq, Eq, Structural)]
pub struct FundsTransfer {
    pub from: AccountRef,
    pub to: AccountRef,
    pub amount: u64,
}

/// An instruction to the host ledger: move exactly one unit of the unique,
/// non-fungible asset `nft_mint` from one account to another.
#[derive(Clone, Copy, Debug, PartialEq, Eq, Structural)]
pub struct AssetTransfer {
    pub from: AccountRef,
    pub to: AccountRef,
    pub nft_mint: AccountId,
}

/// The balance a ledger assigns to an account; 0 where the ledger has no
/// entry for it.
pub open spec fn balance_of(ledger: Map<AccountRef, int>, who: AccountRef) -> int {
    if ledger.dom().contains(who) {
        ledger[who]
    } else {
        0
    }
}

/// The ledger after one funds transfer: `amount` leaves `from` and reaches
/// `to` in the same indivisible step.
pub open spec fn ledger_after(ledger: Map<AccountRef, int>, t: FundsTransfer) -> Map<
    AccountRef,
    int,
> {
    let debited = ledger.insert(t.from, balance_of(ledger, t.from) - t.amount);
    debited.insert(t.to, balance_of(debited, t.to) + t.amount)
}

/// The holder of the asset after one asset transfer: it moves only if the
/// transfer's source is the current holder.
pub open spec fn holder_after(holder: AccountRef, t: AssetTransfer) -> AccountRef {
    if t.from == holder {
        t.to
    } else {
        holder
    }
}

} // verus!
