//! The market program's instructions, each written as a transition: from the
//! accounts it reads and the values it is given to the new account state and
//! the work to hand on (a computation to queue, or lamports to transfer).

use vstd::prelude::*;
use crate::computation::{
    comp_def_offset_of, Argument, CallbackAccount, ComputationDefinition, ComputationOutputs,
    MXEEncryptedStruct, QueuedComputation,
};
use crate::error::ErrorCode;
use crate::state::{all_zero, Market, MarketOutcome, MarketStatus, Pubkey, UserWager};

verus! {

/// What `create_market` reads of its accounts.
pub struct CreateMarketAccounts {
    pub signer: Pubkey,
    pub market_account: Pubkey,
    pub market_bump: u8,
    pub liquidity_pool_bump: u8,
}

/// What the trading instructions read of their accounts.
pub struct TradeAccounts {
    pub signer: Pubkey,
    pub market_account: Pubkey,
    pub user_wager_account: Pubkey,
    pub user_wager_bump: u8,
}

/// The output of a trade: the market's new share ciphertexts, the wager's new
/// share ciphertexts, and the lamports to move.
/// (The market's and the wager's first two ciphertexts are their yes and no
/// share counts.)
pub struct TradeOutput<const M: usize, const W: usize> {
    pub field_0: MXEEncryptedStruct<M>,
    pub field_1: MXEEncryptedStruct<W>,
    pub field_2: u64,
}

/// A party to a lamport transfer.
#[derive(Clone, Copy, Debug, PartialEq, Eq, Structural)]
pub enum TransferParty {
    /// The signer of the transaction.
    Signer,
    /// The market's liquidity pool.
    LiquidityPool,
}

/// A system-program transfer of `lamports` from one party to the other.
#[derive(Clone, Copy, Debug, PartialEq, Eq, Structural)]
pub struct Transfer {
    pub from: TransferParty,
    pub to: TransferParty,
    pub lamports: u64,
}

/// The single callback account, writable.
pub open spec fn writable(key: Pubkey) -> CallbackAccount {
    CallbackAccount { pubkey: key, is_writable: true }
}

/// The arguments of a trade: the trader's key and nonce, the encrypted side
/// and amount, the market's nonce, and the market's and wager's ciphertexts.
pub open spec fn trade_arguments(
    accounts: TradeAccounts,
    market_nonce: u128,
    is_yes: [u8; 32],
    amount: [u8; 32],
    nonce: u128,
    pub_key: [u8; 32],
) -> Seq<Argument> {
    seq![
        Argument::ArcisPubkey(pub_key),
        Argument::PlaintextU128(nonce),
        Argument::EncryptedBool(is_yes),
        Argument::EncryptedU64(amount),
        Argument::PlaintextU128(market_nonce),
        Argument::Account(accounts.market_account, 8, 160),
        Argument::Account(accounts.user_wager_account, 8, 64),
    ]
}

/// `m` after a trade's callback stored the market's new share ciphertexts.
pub open spec fn market_after_trade<const M: usize>(m: Market, o: MXEEncryptedStruct<M>) -> Market {
    Market {
        nonce: o.nonce,
        outcome_yes_shares: o.ciphertexts[0],
        outcome_no_shares: o.ciphertexts[1],
        ..m
    }
}

/// `m` after its creation callback stored the five ciphertexts of `o`.
pub open spec fn market_after_creation(m: Market, o: MXEEncryptedStruct<5>) -> Market {
    Market {
        nonce: o.nonce,
        outcome_yes_shares: o.ciphertexts[0],
        outcome_no_shares: o.ciphertexts[1],
        lsmr_b: o.ciphertexts[2],
        intial_deposite: o.ciphertexts[3],
        market_liquidity: o.ciphertexts[4],
        ..m
    }
}

/// `w` after a trade's callback stored the wager's new share ciphertexts.
pub open spec fn wager_after_trade<const W: usize>(w: UserWager, o: MXEEncryptedStruct<W>) -> UserWager {
    UserWager { nonce: o.nonce, yes_shares: o.ciphertexts[0], no_shares: o.ciphertexts[1], ..w }
}

/// `m` after its resolution computation reported `yes_won`.
pub open spec fn resolved(m: Market, yes_won: bool) -> Market {
    Market {
        market_outcome: if yes_won {
            MarketOutcome::YES
        } else {
            MarketOutcome::NO
        },
        market_state: MarketStatus::Resolved,
        ..m
    }
}

fn single_writable(key: Pubkey) -> (accounts: Vec<CallbackAccount>)
    ensures
        accounts@ == seq![writable(key)],
{
    let mut accounts = Vec::new();
    accounts.push(CallbackAccount { pubkey: key, is_writable: true });
    accounts
}

/// Creates a market: the new account holds zeroed ciphertexts, is active and
/// unresolved, and records the deadline, bumps, nonce, creator, name and
/// description; the creation computation is queued on the encrypted
/// liquidity parameter, with the market account for its callback.
pub fn create_market(
    accounts: &CreateMarketAccounts,
    computation_offset: u64,
    market_name: String,
    market_description: String,
    dead_line: i64,
    lmsr_b: [u8; 32],
    pub_key: [u8; 32],
    nonce: u128,
) -> (res: (Market, QueuedComputation))
    ensures
        all_zero(res.0.outcome_yes_shares),
        all_zero(res.0.outcome_no_shares),
        all_zero(res.0.lsmr_b),
        all_zero(res.0.intial_deposite),
        all_zero(res.0.market_liquidity),
        res.0.market_state == MarketStatus::Active,
        res.0.market_outcome == MarketOutcome::NotResolved,
        res.0.dead_line == dead_line,
        res.0.market_vault_bump == accounts.liquidity_pool_bump,
        res.0.market_bump == accounts.market_bump,
        res.0.nonce == nonce,
        res.0.creater == accounts.signer,
        res.0.market_name == market_name,
        res.0.description == market_description,
        res.0.outcome_consistent(),
        res.1.comp_def_offset == comp_def_offset_of(
            ComputationDefinition::CreateMarket.spec_name(),
        ),
        res.1.computation_offset == computation_offset,
        res.1.args@ == seq![
            Argument::ArcisPubkey(pub_key),
            Argument::PlaintextU128(nonce),
            Argument::EncryptedU8(lmsr_b),
        ],
        res.1.callback_accounts@ == seq![writable(accounts.market_account)],
{
    let mut args = Vec::new();
    args.push(Argument::ArcisPubkey(pub_key));
    args.push(Argument::PlaintextU128(nonce));
    args.push(Argument::EncryptedU8(lmsr_b));
    let market = Market {
        outcome_yes_shares: [0; 32],
        outcome_no_shares: [0; 32],
        lsmr_b: [0; 32],
        intial_deposite: [0; 32],
        dead_line,
        market_liquidity: [0; 32],
        market_state: MarketStatus::Active,
        market_outcome: MarketOutcome::NotResolved,
        market_vault_bump: accounts.liquidity_pool_bump,
        market_bump: accounts.market_bump,
        nonce,
        creater: accounts.signer,
        market_name,
        description: market_description,
    };
    let queued = QueuedComputation {
        comp_def_offset: ComputationDefinition::CreateMarket.offset(),
        computation_offset,
        args,
        callback_accounts: single_writable(accounts.market_account),
    };
    (market, queued)
}

/// Stores the market's encrypted state when the creation computation
/// succeeded: the nonce and, in order, the yes and no totals, the liquidity
/// parameter, the initial deposit and the liquidity. A failed computation
/// leaves the market as it was and is reported as aborted.
pub fn create_market_callback(
    market: &mut Market,
    output: ComputationOutputs<MXEEncryptedStruct<5>>,
) -> (res: Result<(), ErrorCode>)
    ensures
        old(market).outcome_consistent() ==> final(market).outcome_consistent(),
        match output {
            ComputationOutputs::Success(o) => {
                &&& res == Ok::<(), ErrorCode>(())
                &&& *final(market) == market_after_creation(*old(market), o)
            },
            ComputationOutputs::Failure => {
                &&& res == Err::<(), ErrorCode>(ErrorCode::AbortedComputation)
                &&& *final(market) == *old(market)
            },
        },
{
    let o = match output {
        ComputationOutputs::Success(field_0) => field_0,
        ComputationOutputs::Failure => {
            return Err(ErrorCode::AbortedComputation);
        },
    };
    market.nonce = o.nonce;
    market.outcome_yes_shares = o.ciphertexts[0];
    market.outcome_no_shares = o.ciphertexts[1];
    market.lsmr_b = o.ciphertexts[2];
    market.intial_deposite = o.ciphertexts[3];
    market.market_liquidity = o.ciphertexts[4];
    Ok(())
}

fn trade_callback_accounts(accounts: &TradeAccounts) -> (res: Vec<CallbackAccount>)
    ensures
        res@ == seq![writable(accounts.market_account), writable(accounts.user_wager_account)],
{
    let mut res = Vec::new();
    res.push(CallbackAccount { pubkey: accounts.market_account, is_writable: true });
    res.push(CallbackAccount { pubkey: accounts.user_wager_account, is_writable: true });
    res
}

fn trade_args(
    accounts: &TradeAccounts,
    market_nonce: u128,
    is_yes: [u8; 32],
    amount: [u8; 32],
    nonce: u128,
    pub_key: [u8; 32],
) -> (args: Vec<Argument>)
    ensures
        args@ == trade_arguments(*accounts, market_nonce, is_yes, amount, nonce, pub_key),
{
    let mut args = Vec::new();
    args.push(Argument::ArcisPubkey(pub_key));
    args.push(Argument::PlaintextU128(nonce));
    args.push(Argument::EncryptedBool(is_yes));
    args.push(Argument::EncryptedU64(amount));
    args.push(Argument::PlaintextU128(market_nonce));
    args.push(Argument::Account(accounts.market_account, 8, 160));
    args.push(Argument::Account(accounts.user_wager_account, 8, 64));
    args
}

/// Queues a purchase. A wager account that is not yet initialized is first
/// set up for the signer and this market, with zeroed ciphertexts and the
/// trader's nonce; an initialized one is left alone.
pub fn buy_shares(
    accounts: &TradeAccounts,
    market: &Market,
    user_wager: &mut UserWager,
    computation_offset: u64,
    is_yes: [u8; 32],
    amount: [u8; 32],
    nonce: u128,
    pub_key: [u8; 32],
) -> (queued: QueuedComputation)
    ensures
        old(user_wager).is_intialized ==> *final(user_wager) == *old(user_wager),
        !old(user_wager).is_intialized ==> {
            &&& all_zero(final(user_wager).yes_shares)
            &&& all_zero(final(user_wager).no_shares)
            &&& final(user_wager).nonce == nonce
            &&& final(user_wager).user_pubkey == accounts.signer
            &&& final(user_wager).market_pubkey == accounts.market_account
            &&& final(user_wager).is_intialized
            &&& final(user_wager).user_wager_bump == accounts.user_wager_bump
        },
        queued.comp_def_offset == comp_def_offset_of(ComputationDefinition::BuyShares.spec_name()),
        queued.computation_offset == computation_offset,
        queued.args@ == trade_arguments(*accounts, market.nonce, is_yes, amount, nonce, pub_key),
        queued.callback_accounts@ == seq![
            writable(accounts.market_account),
            writable(accounts.user_wager_account),
        ],
{
    if !user_wager.is_intialized {
        *user_wager = UserWager {
            yes_shares: [0; 32],
            no_shares: [0; 32],
            nonce,
            user_pubkey: accounts.signer,
            market_pubkey: accounts.market_account,
            is_intialized: true,
            user_wager_bump: accounts.user_wager_bump,
        };
    }
    QueuedComputation {
        comp_def_offset: ComputationDefinition::BuyShares.offset(),
        computation_offset,
        args: trade_args(accounts, market.nonce, is_yes, amount, nonce, pub_key),
        callback_accounts: trade_callback_accounts(accounts),
    }
}

/// Stores the outcome of a successful trade computation in the market and
/// the wager, and moves the lamports it reports from the signer to the
/// liquidity pool. A failed computation changes nothing and is reported as
/// aborted.
pub fn buy_shares_callback<const M: usize, const W: usize>(
    market: &mut Market,
    user_wager: &mut UserWager,
    output: ComputationOutputs<TradeOutput<M, W>>,
) -> (res: Result<Transfer, ErrorCode>)
    requires
        M >= 2,
        W >= 2,
    ensures
        old(market).outcome_consistent() ==> final(market).outcome_consistent(),
        match output {
            ComputationOutputs::Success(o) => {
                &&& res == Ok::<Transfer, ErrorCode>(
                    Transfer {
                        from: TransferParty::Signer,
                        to: TransferParty::LiquidityPool,
                        lamports: o.field_2,
                    },
                )
                &&& *final(market) == market_after_trade(*old(market), o.field_0)
                &&& *final(user_wager) == wager_after_trade(*old(user_wager), o.field_1)
            },
            ComputationOutputs::Failure => {
                &&& res == Err::<Transfer, ErrorCode>(ErrorCode::AbortedComputation)
                &&& *final(market) == *old(market)
                &&& *final(user_wager) == *old(user_wager)
            },
        },
{
    apply_trade_output(market, user_wager, output)
}

fn apply_trade_output<const M: usize, const W: usize>(
    market: &mut Market,
    user_wager: &mut UserWager,
    output: ComputationOutputs<TradeOutput<M, W>>,
) -> (res: Result<Transfer, ErrorCode>)
    requires
        M >= 2,
        W >= 2,
    ensures
        old(market).outcome_consistent() ==> final(market).outcome_consistent(),
        match output {
            ComputationOutputs::Success(o) => {
                &&& res == Ok::<Transfer, ErrorCode>(
                    Transfer {
                        from: TransferParty::Signer,
                        to: TransferParty::LiquidityPool,
                        lamports: o.field_2,
                    },
                )
                &&& *final(market) == market_after_trade(*old(market), o.field_0)
                &&& *final(user_wager) == wager_after_trade(*old(user_wager), o.field_1)
            },
            ComputationOutputs::Failure => {
                &&& res == Err::<Transfer, ErrorCode>(ErrorCode::AbortedComputation)
                &&& *final(market) == *old(market)
                &&& *final(user_wager) == *old(user_wager)
            },
        },
{
    let o = match output {
        ComputationOutputs::Success(field_0) => field_0,
        ComputationOutputs::Failure => {
            return Err(ErrorCode::AbortedComputation);
        },
    };
    let lmsr_data = o.field_0;
    let user_wager_data = o.field_1;
    let transfer_data = o.field_2;
    market.nonce = lmsr_data.nonce;
    market.outcome_yes_shares = lmsr_data.ciphertexts[0];
    market.outcome_no_shares = lmsr_data.ciphertexts[1];
    user_wager.nonce = user_wager_data.nonce;
    user_wager.yes_shares = user_wager_data.ciphertexts[0];
    user_wager.no_shares = user_wager_data.ciphertexts[1];
    Ok(Transfer { from: TransferParty::Signer, to: TransferParty::LiquidityPool, lamports: transfer_data })
}

/// Queues a sale, with the same arguments and callback accounts as a
/// purchase; the wager account is not touched.
pub fn sell_shares(
    accounts: &TradeAccounts,
    market: &Market,
    computation_offset: u64,
    is_yes: [u8; 32],
    amount: [u8; 32],
    nonce: u128,
    pub_key: [u8; 32],
) -> (queued: QueuedComputation)
    ensures
        queued.comp_def_offset == comp_def_offset_of(ComputationDefinition::SellShares.spec_name()),
        queued.computation_offset == computation_offset,
        queued.args@ == trade_arguments(*accounts, market.nonce, is_yes, amount, nonce, pub_key),
        queued.callback_accounts@ == seq![
            writable(accounts.market_account),
            writable(accounts.user_wager_account),
        ],
{
    QueuedComputation {
        comp_def_offset: ComputationDefinition::SellShares.offset(),
        computation_offset,
        args: trade_args(accounts, market.nonce, is_yes, amount, nonce, pub_key),
        callback_accounts: trade_callback_accounts(accounts),
    }
}

/// Stores the outcome of a successful sale computation exactly as a
/// purchase's callback does, and likewise moves the reported lamports from
/// the signer to the liquidity pool. A failed computation changes nothing
/// and is reported as aborted.
pub fn sell_shares_callback<const M: usize, const W: usize>(
    market: &mut Market,
    user_wager: &mut UserWager,
    output: ComputationOutputs<TradeOutput<M, W>>,
) -> (res: Result<Transfer, ErrorCode>)
    requires
        M >= 2,
        W >= 2,
    ensures
        old(market).outcome_consistent() ==> final(market).outcome_consistent(),
        match output {
            ComputationOutputs::Success(o) => {
                &&& res == Ok::<Transfer, ErrorCode>(
                    Transfer {
                        from: TransferParty::Signer,
                        to: TransferParty::LiquidityPool,
                        lamports: o.field_2,
                    },
                )
                &&& *final(market) == market_after_trade(*old(market), o.field_0)
                &&& *final(user_wager) == wager_after_trade(*old(user_wager), o.field_1)
            },
            ComputationOutputs::Failure => {
                &&& res == Err::<Transfer, ErrorCode>(ErrorCode::AbortedComputation)
                &&& *final(market) == *old(market)
                &&& *final(user_wager) == *old(user_wager)
            },
        },
{
    apply_trade_output(market, user_wager, output)
}

/// Queues the resolution of a market, refused with `MarketNotResolved`
/// before the market's deadline (`now` is the cluster's Unix time).
pub fn resolve_market(
    market: &Market,
    market_account: Pubkey,
    now: i64,
    computation_offset: u64,
    is_yes: [u8; 32],
    nonce: u128,
    pub_key: [u8; 32],
) -> (res: Result<QueuedComputation, ErrorCode>)
    ensures
        (now < market.dead_line) <==> res is Err,
        res matches Err(e) ==> e == ErrorCode::MarketNotResolved,
        res matches Ok(queued) ==> {
            &&& queued.comp_def_offset == comp_def_offset_of(
                ComputationDefinition::ResolveMarket.spec_name(),
            )
            &&& queued.computation_offset == computation_offset
            &&& queued.args@ == seq![
                Argument::PlaintextU128(nonce),
                Argument::ArcisPubkey(pub_key),
                Argument::EncryptedBool(is_yes),
            ]
            &&& queued.callback_accounts@ == seq![writable(market_account)]
        },
{
    if !(now >= market.dead_line) {
        return Err(ErrorCode::MarketNotResolved);
    }
    let mut args = Vec::new();
    args.push(Argument::PlaintextU128(nonce));
    args.push(Argument::ArcisPubkey(pub_key));
    args.push(Argument::EncryptedBool(is_yes));
    Ok(
        QueuedComputation {
            comp_def_offset: ComputationDefinition::ResolveMarket.offset(),
            computation_offset,
            args,
            callback_accounts: single_writable(market_account),
        },
    )
}

/// Records the decrypted outcome: `YES` when the computation reported true,
/// `NO` otherwise, and marks the market resolved. A failed computation
/// changes nothing and is reported as aborted.
pub fn resolve_market_callback(market: &mut Market, output: ComputationOutputs<bool>) -> (res:
    Result<(), ErrorCode>)
    ensures
        old(market).outcome_consistent() ==> final(market).outcome_consistent(),
        match output {
            ComputationOutputs::Success(yes_won) => {
                &&& res == Ok::<(), ErrorCode>(())
                &&& *final(market) == resolved(*old(market), yes_won)
            },
            ComputationOutputs::Failure => {
                &&& res == Err::<(), ErrorCode>(ErrorCode::AbortedComputation)
                &&& *final(market) == *old(market)
            },
        },
{
    let o = match output {
        ComputationOutputs::Success(field_0) => field_0,
        ComputationOutputs::Failure => {
            return Err(ErrorCode::AbortedComputation);
        },
    };
    if o {
        market.market_outcome = MarketOutcome::YES;
    } else {
        market.market_outcome = MarketOutcome::NO;
    }
    market.market_state = MarketStatus::Resolved;
    Ok(())
}

/// Queues the computation of a wager's payout on the winning side; refused
/// with `MarketNotResolved` while the market has no outcome.
pub fn claim_amount(
    market: &Market,
    user_wager: &UserWager,
    user_wager_account: Pubkey,
    computation_offset: u64,
) -> (res: Result<QueuedComputation, ErrorCode>)
    ensures
        market.winning_side() is None <==> res is Err,
        res matches Err(e) ==> e == ErrorCode::MarketNotResolved,
        res matches Ok(queued) ==> {
            &&& queued.comp_def_offset == comp_def_offset_of(
                ComputationDefinition::ClaimAmount.spec_name(),
            )
            &&& queued.computation_offset == computation_offset
            &&& queued.args@ == seq![
                Argument::PlaintextU128(user_wager.nonce),
                Argument::Account(user_wager_account, 8, 64),
                Argument::PlaintextBool(market.winning_side().unwrap()),
            ]
            &&& queued.callback_accounts@ == seq![writable(user_wager_account)]
        },
{
    let is_yes = match market.market_outcome {
        MarketOutcome::YES => true,
        MarketOutcome::NO => false,
        MarketOutcome::NotResolved => {
            return Err(ErrorCode::MarketNotResolved);
        },
    };
    let mut args = Vec::new();
    args.push(Argument::PlaintextU128(user_wager.nonce));
    args.push(Argument::Account(user_wager_account, 8, 64));
    args.push(Argument::PlaintextBool(is_yes));
    Ok(
        QueuedComputation {
            comp_def_offset: ComputationDefinition::ClaimAmount.offset(),
            computation_offset,
            args,
            callback_accounts: single_writable(user_wager_account),
        },
    )
}

/// Pays a successful claim: a positive amount moves from the liquidity pool
/// to the signer, a zero amount moves nothing. A failed computation is
/// reported as aborted.
pub fn claim_amount_callback(output: ComputationOutputs<u64>) -> (res: Result<
    Option<Transfer>,
    ErrorCode,
>)
    ensures
        match output {
            ComputationOutputs::Success(amount) => res == Ok::<Option<Transfer>, ErrorCode>(
                if amount > 0 {
                    Some(
                        Transfer {
                            from: TransferParty::LiquidityPool,
                            to: TransferParty::Signer,
                            lamports: amount,
                        },
                    )
                } else {
                    None
                },
            ),
            ComputationOutputs::Failure => res == Err::<Option<Transfer>, ErrorCode>(
                ErrorCode::AbortedComputation,
            ),
        },
{
    let o = match output {
        ComputationOutputs::Success(field_0) => field_0,
        ComputationOutputs::Failure => {
            return Err(ErrorCode::AbortedComputation);
        },
    };
    if o > 0 {
        Ok(Some(Transfer { from: TransferParty::LiquidityPool, to: TransferParty::Signer, lamports: o }))
    } else {
        Ok(None)
    }
}

/// Once a resolution is recorded, a claim on the market is accepted and pays
/// the side that the resolution reported; a market that is resolved is
/// resolved consistently.
pub proof fn lemma_claim_follows_resolution(m: Market, yes_won: bool)
    ensures
        resolved(m, yes_won).winning_side() == Some(yes_won),
        resolved(m, yes_won).outcome_consistent(),
{
}

/// `m` and `n` are the same market: the same deadline, bumps, creator, name
/// and description.
pub open spec fn same_market(m: Market, n: Market) -> bool {
    &&& m.dead_line == n.dead_line
    &&& m.market_vault_bump == n.market_vault_bump
    &&& m.market_bump == n.market_bump
    &&& m.creater == n.creater
    &&& m.market_name == n.market_name
    &&& m.description == n.description
}

/// No callback changes which market an account holds: its deadline, bumps,
/// creator, name and description stay as created. Trading, moreover, never
/// changes whether or how the market is resolved.
pub proof fn lemma_callbacks_keep_the_market<const M: usize>(
    m: Market,
    created: MXEEncryptedStruct<5>,
    traded: MXEEncryptedStruct<M>,
    yes_won: bool,
)
    ensures
        same_market(market_after_creation(m, created), m),
        same_market(market_after_trade(m, traded), m),
        same_market(resolved(m, yes_won), m),
        market_after_trade(m, traded).market_state == m.market_state,
        market_after_trade(m, traded).market_outcome == m.market_outcome,
        market_after_creation(m, created).market_state == m.market_state,
        market_after_creation(m, created).market_outcome == m.market_outcome,
{
}

/// A market is resolved exactly when a claim on it is accepted.
pub proof fn lemma_claimable_iff_resolved(m: Market)
    requires
        m.outcome_consistent(),
    ensures
        (m.winning_side() is Some) <==> (m.market_state == MarketStatus::Resolved),
{
}

} // verus!
