//! The on-chain accounts of a market and of a trader's wager.

use vstd::prelude::*;

verus! {

/// A Solana account address.
pub type Pubkey = [u8; 32];

/// Every byte of `a` is zero.
pub open spec fn all_zero(a: [u8; 32]) -> bool {
    forall|i: int| 0 <= i < 32 ==> #[trigger] a[i] == 0
}

/// Whether trading is open or the market has been resolved.
#[derive(Clone, Copy, Debug, PartialEq, Eq, Structural)]
pub enum MarketStatus {
    /// The market has been resolved.
    Resolved,
    /// The market is still active (not resolved).
    Active,
}

/// The winning side of a market, once known.
#[allow(non_camel_case_types)]
#[derive(Clone, Copy, Debug, PartialEq, Eq, Structural)]
pub enum MarketOutcome {
    YES,
    NO,
    NotResolved,
}

/// A market account. The share totals, the liquidity parameter, the initial
/// deposit and the liquidity are ciphertexts under the MXE key, valid for
/// `nonce`.
pub struct Market {
    pub outcome_yes_shares: [u8; 32],
    pub outcome_no_shares: [u8; 32],
    pub lsmr_b: [u8; 32],
    pub intial_deposite: [u8; 32],
    pub market_liquidity: [u8; 32],
    pub market_state: MarketStatus,
    pub market_outcome: MarketOutcome,
    /// Unix time from which the market can be resolved.
    pub dead_line: i64,
    pub market_vault_bump: u8,
    pub market_bump: u8,
    pub nonce: u128,
    pub creater: Pubkey,
    pub market_name: String,
    pub description: String,
}

impl Market {
    /// A market is resolved exactly when its outcome is known.
    pub open spec fn outcome_consistent(&self) -> bool {
        (self.market_state == MarketStatus::Resolved) <==> (self.market_outcome
            != MarketOutcome::NotResolved)
    }

    /// The side that a claim on this market pays out, if the market has an
    /// outcome.
    pub open spec fn winning_side(&self) -> Option<bool> {
        match self.market_outcome {
            MarketOutcome::YES => Some(true),
            MarketOutcome::NO => Some(false),
            MarketOutcome::NotResolved => None,
        }
    }
}

/// A trader's position in one market: the encrypted share counts and the
/// nonce they are encrypted under.
pub struct UserWager {
    pub yes_shares: [u8; 32],
    pub no_shares: [u8; 32],
    pub nonce: u128,
    pub user_pubkey: Pubkey,
    pub market_pubkey: Pubkey,
    pub is_intialized: bool,
    pub user_wager_bump: u8,
}

impl Default for UserWager {
    fn default() -> (w: Self)
        ensures
            all_zero(w.yes_shares),
            all_zero(w.no_shares),
            w.nonce == 0,
            all_zero(w.user_pubkey),
            all_zero(w.market_pubkey),
            !w.is_intialized,
            w.user_wager_bump == 0,
    {
        UserWager {
            yes_shares: [0u8; 32],
            no_shares: [0u8; 32],
            nonce: 0,
            user_pubkey: [0u8; 32],
            market_pubkey: [0u8; 32],
            is_intialized: false,
            user_wager_bump: 0,
        }
    }
}

/// An encrypted claim total, as announced to the claimant.
pub struct ClaimEvent {
    pub sum: [u8; 32],
    pub nonce: [u8; 16],
}

} // verus!
