//! What the program hands to the confidential computation network and what
//! it gets back: arguments, callback accounts, encrypted outputs, and the
//! offsets that name each computation definition.

use vstd::prelude::*;
use crate::state::Pubkey;

verus! {

/// An argument of a queued computation.
pub enum Argument {
    PlaintextBool(bool),
    PlaintextU128(u128),
    EncryptedBool([u8; 32]),
    EncryptedU8([u8; 32]),
    EncryptedU64([u8; 32]),
    ArcisPubkey([u8; 32]),
    /// An account whose data, from the offset and of the length given, is
    /// read as ciphertexts.
    Account(Pubkey, u32, u32),
}

/// An account that the computation's callback receives.
pub struct CallbackAccount {
    pub pubkey: Pubkey,
    pub is_writable: bool,
}

/// The result of a computation, as its callback receives it.
pub enum ComputationOutputs<O> {
    Success(O),
    Failure,
}

/// Values encrypted under the MXE key with `nonce`.
pub struct MXEEncryptedStruct<const LEN: usize> {
    pub nonce: u128,
    pub ciphertexts: [[u8; 32]; LEN],
}

/// A computation to queue: its definition's offset, its own offset, its
/// arguments and the accounts its callback receives.
pub struct QueuedComputation {
    pub comp_def_offset: u32,
    pub computation_offset: u64,
    pub args: Vec<Argument>,
    pub callback_accounts: Vec<CallbackAccount>,
}

/// The confidential instructions that the program queues.
#[derive(Clone, Copy, Debug, PartialEq, Eq, Structural)]
pub enum ComputationDefinition {
    CreateMarket,
    BuyShares,
    SellShares,
    ResolveMarket,
    ClaimAmount,
}

/// The offset of the computation definition of the confidential instruction
/// named `name` (a hash of the name).
pub uninterp spec fn comp_def_offset_of(name: Seq<char>) -> u32;

/// Calls `arcium_anchor::comp_def_offset`, which takes the first four bytes
/// of the SHA-256 digest of the name, little-endian. Claimed: the result
/// depends on the name alone.
#[verifier::external_body]
fn comp_def_offset_of_name(name: &str) -> (offset: u32)
    ensures
        offset == comp_def_offset_of(name@),
{
    arcium_anchor::comp_def_offset(name)
}

impl ComputationDefinition {
    pub open spec fn spec_name(self) -> Seq<char> {
        match self {
            ComputationDefinition::CreateMarket => "create_market"@,
            ComputationDefinition::BuyShares => "buy_shares"@,
            ComputationDefinition::SellShares => "sell_shares"@,
            ComputationDefinition::ResolveMarket => "resolve_market"@,
            ComputationDefinition::ClaimAmount => "claim_amount"@,
        }
    }

    /// The name of the confidential instruction.
    pub fn name(self) -> (name: &'static str)
        ensures
            name@ == self.spec_name(),
    {
        match self {
            ComputationDefinition::CreateMarket => "create_market",
            ComputationDefinition::BuyShares => "buy_shares",
            ComputationDefinition::SellShares => "sell_shares",
            ComputationDefinition::ResolveMarket => "resolve_market",
            ComputationDefinition::ClaimAmount => "claim_amount",
        }
    }

    /// The offset of this computation definition.
    pub fn offset(self) -> (offset: u32)
        ensures
            offset == comp_def_offset_of(self.spec_name()),
    {
        comp_def_offset_of_name(self.name())
    }
}

} // verus!
