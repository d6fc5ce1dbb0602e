use blindbet::computation::{
    Argument, ComputationDefinition, ComputationOutputs, MXEEncryptedStruct,
};
use blindbet::error::ErrorCode;
use blindbet::program::{
    buy_shares, buy_shares_callback, claim_amount, claim_amount_callback, create_market,
    create_market_callback, resolve_market, resolve_market_callback, sell_shares,
    sell_shares_callback, CreateMarketAccounts, TradeAccounts, TradeOutput, Transfer,
    TransferParty,
};
use blindbet::state::{Market, MarketOutcome, MarketStatus, UserWager};

fn accounts() -> CreateMarketAccounts {
    CreateMarketAccounts { signer: [1; 32], market_account: [2; 32], market_bump: 254, liquidity_pool_bump: 253 }
}

fn trade_accounts() -> TradeAccounts {
    TradeAccounts { signer: [1; 32], market_account: [2; 32], user_wager_account: [3; 32], user_wager_bump: 252 }
}

fn new_market() -> Market {
    create_market(&accounts(), 9, String::from("will it rain"), String::from("tomorrow"), 1_700_000_000, [5; 32], [6; 32], 77).0
}

fn is_arg(a: &Argument, b: &Argument) -> bool {
    match (a, b) {
        (Argument::PlaintextBool(x), Argument::PlaintextBool(y)) => x == y,
        (Argument::PlaintextU128(x), Argument::PlaintextU128(y)) => x == y,
        (Argument::EncryptedBool(x), Argument::EncryptedBool(y)) => x == y,
        (Argument::EncryptedU8(x), Argument::EncryptedU8(y)) => x == y,
        (Argument::EncryptedU64(x), Argument::EncryptedU64(y)) => x == y,
        (Argument::ArcisPubkey(x), Argument::ArcisPubkey(y)) => x == y,
        (Argument::Account(k, o, l), Argument::Account(k2, o2, l2)) => k == k2 && o == o2 && l == l2,
        _ => false,
    }
}

fn same_args(a: &[Argument], b: &[Argument]) -> bool {
    a.len() == b.len() && a.iter().zip(b.iter()).all(|(x, y)| is_arg(x, y))
}

#[test]
fn comp_def_offsets_hash_the_names() {
    assert_eq!(ComputationDefinition::CreateMarket.offset(), 1192370992);
    assert_eq!(ComputationDefinition::BuyShares.offset(), 2231982687);
    assert_eq!(ComputationDefinition::SellShares.offset(), 1127678651);
    assert_eq!(ComputationDefinition::ResolveMarket.offset(), 484556922);
    assert_eq!(ComputationDefinition::ClaimAmount.offset(), 3100294274);
    assert_eq!(ComputationDefinition::BuyShares.name(), "buy_shares");
    assert_eq!(
        ComputationDefinition::ResolveMarket.offset(),
        arcium_anchor::comp_def_offset("resolve_market")
    );
}

#[test]
fn create_market_starts_active_and_queues_creation() {
    let (m, q) = create_market(&accounts(), 9, String::from("will it rain"), String::from("tomorrow"), 1_700_000_000, [5; 32], [6; 32], 77);
    assert_eq!(m.outcome_yes_shares, [0; 32]);
    assert_eq!(m.outcome_no_shares, [0; 32]);
    assert_eq!(m.lsmr_b, [0; 32]);
    assert_eq!(m.intial_deposite, [0; 32]);
    assert_eq!(m.market_liquidity, [0; 32]);
    assert_eq!(m.market_state, MarketStatus::Active);
    assert_eq!(m.market_outcome, MarketOutcome::NotResolved);
    assert_eq!(m.dead_line, 1_700_000_000);
    assert_eq!(m.market_vault_bump, 253);
    assert_eq!(m.market_bump, 254);
    assert_eq!(m.nonce, 77);
    assert_eq!(m.creater, [1; 32]);
    assert_eq!(m.market_name, "will it rain");
    assert_eq!(m.description, "tomorrow");
    assert_eq!(q.comp_def_offset, 1192370992);
    assert_eq!(q.computation_offset, 9);
    assert!(same_args(&q.args, &[Argument::ArcisPubkey([6; 32]), Argument::PlaintextU128(77), Argument::EncryptedU8([5; 32])]));
    assert_eq!(q.callback_accounts.len(), 1);
    assert_eq!(q.callback_accounts[0].pubkey, [2; 32]);
    assert!(q.callback_accounts[0].is_writable);
}

#[test]
fn create_market_callback_stores_ciphertexts() {
    let mut m = new_market();
    let out = MXEEncryptedStruct { nonce: 5, ciphertexts: [[10; 32], [11; 32], [12; 32], [13; 32], [14; 32]] };
    assert_eq!(create_market_callback(&mut m, ComputationOutputs::Success(out)), Ok(()));
    assert_eq!(m.nonce, 5);
    assert_eq!(m.outcome_yes_shares, [10; 32]);
    assert_eq!(m.outcome_no_shares, [11; 32]);
    assert_eq!(m.lsmr_b, [12; 32]);
    assert_eq!(m.intial_deposite, [13; 32]);
    assert_eq!(m.market_liquidity, [14; 32]);
    assert_eq!(m.market_state, MarketStatus::Active);
}

#[test]
fn failed_create_market_callback_is_aborted() {
    let mut m = new_market();
    assert_eq!(create_market_callback(&mut m, ComputationOutputs::Failure), Err(ErrorCode::AbortedComputation));
    assert_eq!(m.nonce, 77);
    assert_eq!(m.outcome_yes_shares, [0; 32]);
}

#[test]
fn buy_shares_initialises_a_new_wager_once() {
    let m = new_market();
    let mut w = UserWager::default();
    assert!(!w.is_intialized);
    let q = buy_shares(&trade_accounts(), &m, &mut w, 4, [8; 32], [9; 32], 31, [6; 32]);
    assert!(w.is_intialized);
    assert_eq!(w.nonce, 31);
    assert_eq!(w.user_pubkey, [1; 32]);
    assert_eq!(w.market_pubkey, [2; 32]);
    assert_eq!(w.user_wager_bump, 252);
    assert_eq!(w.yes_shares, [0; 32]);
    assert_eq!(q.comp_def_offset, 2231982687);
    assert_eq!(q.computation_offset, 4);
    assert!(same_args(&q.args, &[
        Argument::ArcisPubkey([6; 32]),
        Argument::PlaintextU128(31),
        Argument::EncryptedBool([8; 32]),
        Argument::EncryptedU64([9; 32]),
        Argument::PlaintextU128(77),
        Argument::Account([2; 32], 8, 160),
        Argument::Account([3; 32], 8, 64),
    ]));
    assert_eq!(q.callback_accounts.len(), 2);
    assert_eq!(q.callback_accounts[1].pubkey, [3; 32]);

    w.yes_shares = [4; 32];
    buy_shares(&trade_accounts(), &m, &mut w, 5, [8; 32], [9; 32], 99, [6; 32]);
    assert_eq!(w.nonce, 31);
    assert_eq!(w.yes_shares, [4; 32]);
}

#[test]
fn sell_shares_queues_the_trade() {
    let m = new_market();
    let q = sell_shares(&trade_accounts(), &m, 6, [8; 32], [9; 32], 31, [6; 32]);
    assert_eq!(q.comp_def_offset, 1127678651);
    assert_eq!(q.computation_offset, 6);
    assert_eq!(q.args.len(), 7);
    assert!(is_arg(&q.args[5], &Argument::Account([2; 32], 8, 160)));
}

fn trade_output() -> TradeOutput<5, 2> {
    TradeOutput {
        field_0: MXEEncryptedStruct { nonce: 40, ciphertexts: [[20; 32], [21; 32], [22; 32], [23; 32], [24; 32]] },
        field_1: MXEEncryptedStruct { nonce: 41, ciphertexts: [[30; 32], [31; 32]] },
        field_2: 1234,
    }
}

#[test]
fn trade_callbacks_store_shares_and_charge_the_signer() {
    let mut m = new_market();
    let mut w = UserWager::default();
    let t = buy_shares_callback(&mut m, &mut w, ComputationOutputs::Success(trade_output()));
    assert_eq!(t, Ok(Transfer { from: TransferParty::Signer, to: TransferParty::LiquidityPool, lamports: 1234 }));
    assert_eq!(m.nonce, 40);
    assert_eq!(m.outcome_yes_shares, [20; 32]);
    assert_eq!(m.outcome_no_shares, [21; 32]);
    assert_eq!(m.lsmr_b, [0; 32]);
    assert_eq!(w.nonce, 41);
    assert_eq!(w.yes_shares, [30; 32]);
    assert_eq!(w.no_shares, [31; 32]);

    let mut m = new_market();
    let mut w = UserWager::default();
    let t = sell_shares_callback(&mut m, &mut w, ComputationOutputs::Success(trade_output()));
    assert_eq!(t, Ok(Transfer { from: TransferParty::Signer, to: TransferParty::LiquidityPool, lamports: 1234 }));
    assert_eq!(m.outcome_no_shares, [21; 32]);
    assert_eq!(w.no_shares, [31; 32]);
}

#[test]
fn failed_trade_callbacks_change_nothing() {
    let mut m = new_market();
    let mut w = UserWager::default();
    assert_eq!(buy_shares_callback(&mut m, &mut w, ComputationOutputs::<TradeOutput<5, 2>>::Failure), Err(ErrorCode::AbortedComputation));
    assert_eq!(sell_shares_callback(&mut m, &mut w, ComputationOutputs::<TradeOutput<5, 2>>::Failure), Err(ErrorCode::AbortedComputation));
    assert_eq!(m.nonce, 77);
    assert_eq!(w.nonce, 0);
}

#[test]
fn resolve_market_waits_for_the_deadline() {
    let m = new_market();
    assert!(matches!(resolve_market(&m, [2; 32], 1_699_999_999, 1, [8; 32], 3, [6; 32]), Err(ErrorCode::MarketNotResolved)));
    let q = resolve_market(&m, [2; 32], 1_700_000_000, 1, [8; 32], 3, [6; 32]).ok().unwrap();
    assert_eq!(q.comp_def_offset, 484556922);
    assert!(same_args(&q.args, &[Argument::PlaintextU128(3), Argument::ArcisPubkey([6; 32]), Argument::EncryptedBool([8; 32])]));
    assert_eq!(q.callback_accounts[0].pubkey, [2; 32]);
}

#[test]
fn resolution_then_claim() {
    let mut m = new_market();
    let w = UserWager { nonce: 12, ..UserWager::default() };
    assert!(matches!(claim_amount(&m, &w, [3; 32], 2), Err(ErrorCode::MarketNotResolved)));

    assert_eq!(resolve_market_callback(&mut m, ComputationOutputs::Failure), Err(ErrorCode::AbortedComputation));
    assert_eq!(m.market_state, MarketStatus::Active);

    assert_eq!(resolve_market_callback(&mut m, ComputationOutputs::Success(false)), Ok(()));
    assert_eq!(m.market_outcome, MarketOutcome::NO);
    assert_eq!(m.market_state, MarketStatus::Resolved);
    let q = claim_amount(&m, &w, [3; 32], 2).ok().unwrap();
    assert_eq!(q.comp_def_offset, 3100294274);
    assert!(same_args(&q.args, &[Argument::PlaintextU128(12), Argument::Account([3; 32], 8, 64), Argument::PlaintextBool(false)]));
    assert_eq!(q.callback_accounts[0].pubkey, [3; 32]);

    assert_eq!(resolve_market_callback(&mut m, ComputationOutputs::Success(true)), Ok(()));
    assert_eq!(m.market_outcome, MarketOutcome::YES);
    let q = claim_amount(&m, &w, [3; 32], 2).ok().unwrap();
    assert!(is_arg(&q.args[2], &Argument::PlaintextBool(true)));
}

#[test]
fn claim_callback_pays_positive_amounts() {
    assert_eq!(
        claim_amount_callback(ComputationOutputs::Success(500)),
        Ok(Some(Transfer { from: TransferParty::LiquidityPool, to: TransferParty::Signer, lamports: 500 }))
    );
    assert_eq!(claim_amount_callback(ComputationOutputs::Success(0)), Ok(None));
    assert_eq!(claim_amount_callback(ComputationOutputs::Failure), Err(ErrorCode::AbortedComputation));
}

#[test]
fn callbacks_keep_the_market() {
    let mut m = new_market();
    let mut w = UserWager::default();
    let out = MXEEncryptedStruct { nonce: 5, ciphertexts: [[10; 32], [11; 32], [12; 32], [13; 32], [14; 32]] };
    create_market_callback(&mut m, ComputationOutputs::Success(out)).unwrap();
    buy_shares_callback(&mut m, &mut w, ComputationOutputs::Success(trade_output())).unwrap();
    assert_eq!(m.market_state, MarketStatus::Active);
    assert_eq!(m.market_outcome, MarketOutcome::NotResolved);
    resolve_market_callback(&mut m, ComputationOutputs::Success(true)).unwrap();
    sell_shares_callback(&mut m, &mut w, ComputationOutputs::Success(trade_output())).unwrap();
    assert_eq!(m.market_state, MarketStatus::Resolved);
    assert_eq!(m.market_outcome, MarketOutcome::YES);
    assert_eq!(m.dead_line, 1_700_000_000);
    assert_eq!(m.market_bump, 254);
    assert_eq!(m.market_vault_bump, 253);
    assert_eq!(m.creater, [1; 32]);
    assert_eq!(m.market_name, "will it rain");
    assert_eq!(m.description, "tomorrow");
}
