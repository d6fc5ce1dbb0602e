use anchor_lang::prelude::Pubkey;
use blindbet::address::{
    is_liquidity_pool, is_market_account, is_user_wager_account, liquidity_pool_seeds,
    market_seeds, program_id, same_key, user_wager_seeds,
};
use blindbet::program::{create_market, CreateMarketAccounts};
use blindbet::state::{Market, UserWager};
use std::str::FromStr;

const NAME: &str = "will it rain in lisbon on monday? asks the desk";

fn market(bump: u8, vault_bump: u8) -> Market {
    let accounts = CreateMarketAccounts { signer: [1; 32], market_account: [2; 32], market_bump: bump, liquidity_pool_bump: vault_bump };
    create_market(&accounts, 0, String::from(NAME), String::new(), 0, [0; 32], [0; 32], 0).0
}

fn id() -> Pubkey {
    Pubkey::new_from_array(program_id())
}

#[test]
fn program_id_is_the_declared_one() {
    assert_eq!(id(), Pubkey::from_str("38wcjbfbT2aNs6kiikGvZeQ4ULKg9qkmtmXTuuQNLqFw").unwrap());
}

#[test]
fn seeds_are_label_then_keys() {
    let s = market_seeds(&String::from(NAME));
    assert_eq!(s, vec![b"market".to_vec(), NAME.as_bytes()[..32].to_vec()]);
    let s = liquidity_pool_seeds(&[9; 32]);
    assert_eq!(s, vec![b"liquidity_pool".to_vec(), vec![9; 32]]);
    let s = user_wager_seeds(&[4; 32], &[9; 32]);
    assert_eq!(s, vec![b"user_account".to_vec(), vec![4; 32], vec![9; 32]]);
}

#[test]
fn same_key_compares_every_byte() {
    let mut b = [7; 32];
    assert!(same_key(&[7; 32], &b));
    b[31] = 8;
    assert!(!same_key(&[7; 32], &b));
}

#[test]
fn market_account_is_checked_against_its_seeds() {
    let (key, bump) = Pubkey::find_program_address(&[b"market", &NAME.as_bytes()[..32]], &id());
    let m = market(bump, 0);
    assert!(is_market_account(&m, &program_id(), &key.to_bytes()));
    assert!(!is_market_account(&m, &program_id(), &[3; 32]));
    let other = market(bump.wrapping_sub(1), 0);
    assert!(!is_market_account(&other, &program_id(), &key.to_bytes()));
}

#[test]
fn liquidity_pool_is_checked_against_its_seeds() {
    let market_key = [2u8; 32];
    let (key, bump) = Pubkey::find_program_address(&[b"liquidity_pool", &market_key], &id());
    let m = market(0, bump);
    assert!(is_liquidity_pool(&m, &market_key, &program_id(), &key.to_bytes()));
    assert!(!is_liquidity_pool(&m, &[5; 32], &program_id(), &key.to_bytes()));
}

#[test]
fn user_wager_is_checked_against_its_seeds() {
    let (user, market_key) = ([1u8; 32], [2u8; 32]);
    let (key, bump) = Pubkey::find_program_address(&[b"user_account", &user, &market_key], &id());
    let w = UserWager { user_wager_bump: bump, ..UserWager::default() };
    assert!(is_user_wager_account(&user, &market_key, &w, &program_id(), &key.to_bytes()));
    assert!(!is_user_wager_account(&market_key, &user, &w, &program_id(), &key.to_bytes()));
}
