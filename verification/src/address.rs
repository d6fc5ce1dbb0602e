//! The program-derived addresses of the market's accounts: which seeds name
//! each account, and whether a given account is the one they name.

use vstd::prelude::*;
use vstd::string::StringSliceAdditionalSpecFns;
use vstd::utf8::encode_utf8;
use crate::state::{Market, Pubkey, UserWager};

verus! {

/// The program's own address, `38wcjbfbT2aNs6kiikGvZeQ4ULKg9qkmtmXTuuQNLqFw`
/// in base58.
pub open spec fn spec_program_id() -> Seq<u8> {
    seq![
        31u8, 192, 49, 179, 206, 238, 144, 36, 78, 107, 147, 1, 36, 25, 9, 233, 91, 70, 202, 15, 13,
        107, 27, 101, 139, 243, 161, 40, 179, 52, 227, 202,
    ]
}

/// The program's own address.
pub fn program_id() -> (id: Pubkey)
    ensures
        id@ == spec_program_id(),
{
    let id: Pubkey = [
        31, 192, 49, 179, 206, 238, 144, 36, 78, 107, 147, 1, 36, 25, 9, 233, 91, 70, 202, 15, 13,
        107, 27, 101, 139, 243, 161, 40, 179, 52, 227, 202,
    ];
    assert(id@ =~= spec_program_id());
    id
}

/// The bytes of each seed.
pub open spec fn seeds_view(seeds: Seq<Vec<u8>>) -> Seq<Seq<u8>> {
    seeds.map_values(|seed: Vec<u8>| seed@)
}

/// The address derived from `seeds` for `program_id`, or `None` where the
/// seeds derive no address.
pub uninterp spec fn program_address_of(seeds: Seq<Seq<u8>>, program_id: Seq<u8>) -> Option<
    Seq<u8>,
>;

/// Calls `Pubkey::create_program_address`, which hashes the seeds, the
/// program id and a marker and refuses a hash that lies on the curve.
/// Claimed: the result depends on the seeds and the program id alone, and
/// more than 16 seeds, or a seed longer than 32 bytes, derive no address.
#[verifier::external_body]
fn create_program_address(seeds: &Vec<Vec<u8>>, program_id: &Pubkey) -> (address: Option<Pubkey>)
    ensures
        match address {
            Some(a) => program_address_of(seeds_view(seeds@), program_id@) == Some(a@),
            None => program_address_of(seeds_view(seeds@), program_id@) is None,
        },
        seeds.len() > 16 ==> address is None,
        (exists|i: int| 0 <= i < seeds.len() && #[trigger] seeds@[i].len() > 32) ==> address is None,
{
    let seeds: Vec<&[u8]> = seeds.iter().map(|s| s.as_slice()).collect();
    let program_id = anchor_lang::prelude::Pubkey::new_from_array(*program_id);
    anchor_lang::prelude::Pubkey::create_program_address(&seeds, &program_id).ok().map(|a| a.to_bytes())
}

/// Whether two addresses are equal, byte by byte.
pub fn same_key(a: &Pubkey, b: &Pubkey) -> (same: bool)
    ensures
        same == (a@ == b@),
{
    let mut i: usize = 0;
    while i < 32
        invariant
            0 <= i <= 32,
            forall|j: int| 0 <= j < i ==> a@[j] == b@[j],
        decreases 32 - i,
    {
        if a[i] != b[i] {
            return false;
        }
        i = i + 1;
    }
    assert(a@ =~= b@);
    true
}

fn bytes_of(s: &str) -> (bytes: Vec<u8>)
    ensures
        bytes@ == s.spec_bytes(),
{
    vstd::slice::slice_to_vec(s.as_bytes())
}

/// The seeds of a market's account: the label `market` and the first 32
/// bytes of the market's name.
pub open spec fn market_seeds_of(market_name: Seq<char>) -> Seq<Seq<u8>> {
    seq!["market".spec_bytes(), encode_utf8(market_name).take(32)]
}

/// The seeds of a market's liquidity pool: the label `liquidity_pool` and
/// the market account's address.
pub open spec fn liquidity_pool_seeds_of(market_account: Pubkey) -> Seq<Seq<u8>> {
    seq!["liquidity_pool".spec_bytes(), market_account@]
}

/// The seeds of a trader's wager account: the label `user_account`, the
/// trader's address and the market account's address.
pub open spec fn user_wager_seeds_of(user: Pubkey, market_account: Pubkey) -> Seq<Seq<u8>> {
    seq!["user_account".spec_bytes(), user@, market_account@]
}

/// The seeds of a market's account. The name must hold at least 32 bytes.
pub fn market_seeds(market_name: &String) -> (seeds: Vec<Vec<u8>>)
    requires
        encode_utf8(market_name@).len() >= 32,
    ensures
        seeds_view(seeds@) == market_seeds_of(market_name@),
        seeds@.len() == 2,
        seeds@[0]@ == "market".spec_bytes(),
        seeds@[1]@ == encode_utf8(market_name@).subrange(0, 32),
{
    let name = market_name.as_str().as_bytes();
    let mut seeds = Vec::new();
    seeds.push(bytes_of("market"));
    seeds.push(vstd::slice::slice_to_vec(vstd::slice::slice_subrange(name, 0, 32)));
    assert(seeds_view(seeds@) =~= market_seeds_of(market_name@));
    seeds
}

/// The seeds of a market's liquidity pool.
pub fn liquidity_pool_seeds(market_account: &Pubkey) -> (seeds: Vec<Vec<u8>>)
    ensures
        seeds_view(seeds@) == liquidity_pool_seeds_of(*market_account),
        seeds@.len() == 2,
        seeds@[0]@ == "liquidity_pool".spec_bytes(),
        seeds@[1]@ == market_account@,
{
    let mut seeds = Vec::new();
    seeds.push(bytes_of("liquidity_pool"));
    seeds.push(vstd::slice::slice_to_vec(market_account.as_slice()));
    assert(seeds_view(seeds@) =~= liquidity_pool_seeds_of(*market_account));
    seeds
}

/// The seeds of a trader's wager account in a market.
pub fn user_wager_seeds(user: &Pubkey, market_account: &Pubkey) -> (seeds: Vec<Vec<u8>>)
    ensures
        seeds_view(seeds@) == user_wager_seeds_of(*user, *market_account),
        seeds@.len() == 3,
        seeds@[0]@ == "user_account".spec_bytes(),
        seeds@[1]@ == user@,
        seeds@[2]@ == market_account@,
{
    let mut seeds = Vec::new();
    seeds.push(bytes_of("user_account"));
    seeds.push(vstd::slice::slice_to_vec(user.as_slice()));
    seeds.push(vstd::slice::slice_to_vec(market_account.as_slice()));
    assert(seeds_view(seeds@) =~= user_wager_seeds_of(*user, *market_account));
    seeds
}

/// `key` is the address that `seeds` and the bump seed `bump` derive for
/// `program_id`.
pub open spec fn is_address_of(seeds: Seq<Seq<u8>>, bump: u8, program_id: Pubkey, key: Pubkey) -> bool {
    program_address_of(seeds.push(seq![bump]), program_id@) == Some(key@)
}

/// Whether `key` is the address that `seeds`, with the bump seed `bump`
/// appended, derive for `program_id`.
pub fn is_program_address(seeds: Vec<Vec<u8>>, bump: u8, program_id: &Pubkey, key: &Pubkey) -> (ok: bool)
    ensures
        ok == is_address_of(seeds_view(seeds@), bump, *program_id, *key),
{
    let ghost given = seeds_view(seeds@);
    let mut seeds = seeds;
    let mut bump_seed = Vec::new();
    bump_seed.push(bump);
    seeds.push(bump_seed);
    assert(seeds_view(seeds@) =~= given.push(seq![bump]));
    match create_program_address(&seeds, program_id) {
        Some(address) => same_key(&address, key),
        None => false,
    }
}

/// Whether `key` is the address of `market`'s account: the market seeds
/// with the market's bump.
pub fn is_market_account(market: &Market, program_id: &Pubkey, key: &Pubkey) -> (ok: bool)
    requires
        encode_utf8(market.market_name@).len() >= 32,
    ensures
        ok == is_address_of(market_seeds_of(market.market_name@), market.market_bump, *program_id, *key),
        ok == is_address_of(
            seq!["market".spec_bytes(), encode_utf8(market.market_name@).subrange(0, 32)],
            market.market_bump,
            *program_id,
            *key,
        ),
{
    is_program_address(market_seeds(&market.market_name), market.market_bump, program_id, key)
}

/// Whether `key` is the address of the liquidity pool of the market at
/// `market_account`: the pool seeds with the market's vault bump.
pub fn is_liquidity_pool(market: &Market, market_account: &Pubkey, program_id: &Pubkey, key: &Pubkey) -> (ok: bool)
    ensures
        ok == is_address_of(
            liquidity_pool_seeds_of(*market_account),
            market.market_vault_bump,
            *program_id,
            *key,
        ),
        ok == is_address_of(
            seq!["liquidity_pool".spec_bytes(), market_account@],
            market.market_vault_bump,
            *program_id,
            *key,
        ),
{
    is_program_address(liquidity_pool_seeds(market_account), market.market_vault_bump, program_id, key)
}

/// Whether `key` is the address of `user`'s wager account in the market at
/// `market_account`: the wager seeds with the wager's bump.
pub fn is_user_wager_account(
    user: &Pubkey,
    market_account: &Pubkey,
    user_wager: &UserWager,
    program_id: &Pubkey,
    key: &Pubkey,
) -> (ok: bool)
    ensures
        ok == is_address_of(
            user_wager_seeds_of(*user, *market_account),
            user_wager.user_wager_bump,
            *program_id,
            *key,
        ),
        ok == is_address_of(
            seq!["user_account".spec_bytes(), user@, market_account@],
            user_wager.user_wager_bump,
            *program_id,
            *key,
        ),
{
    is_program_address(user_wager_seeds(user, market_account), user_wager.user_wager_bump, program_id, key)
}

/// A market's seeds are the label `market` followed by the first 32 bytes of
/// the UTF-8 encoding of its name, byte for byte and in order.
pub proof fn lemma_market_seeds_are_name_prefix(market_name: Seq<char>)
    requires
        encode_utf8(market_name).len() >= 32,
    ensures
        market_seeds_of(market_name).len() == 2,
        market_seeds_of(market_name)[0] == "market".spec_bytes(),
        market_seeds_of(market_name)[1].len() == 32,
        forall|i: int|
            0 <= i < 32 ==> #[trigger] market_seeds_of(market_name)[1][i] == encode_utf8(
                market_name,
            )[i],
{
}

/// A liquidity pool's seeds are the label `liquidity_pool` followed by the
/// market account's address, byte for byte and in order.
pub proof fn lemma_liquidity_pool_seeds_are_market_key(market_account: Pubkey)
    ensures
        liquidity_pool_seeds_of(market_account).len() == 2,
        liquidity_pool_seeds_of(market_account)[0] == "liquidity_pool".spec_bytes(),
        liquidity_pool_seeds_of(market_account)[1].len() == 32,
        forall|i: int|
            0 <= i < 32 ==> #[trigger] liquidity_pool_seeds_of(market_account)[1][i]
                == market_account[i],
{
}

/// A wager's seeds are the label `user_account`, then the trader's address,
/// then the market account's address, each byte for byte and in order.
pub proof fn lemma_user_wager_seeds_are_keys(user: Pubkey, market_account: Pubkey)
    ensures
        user_wager_seeds_of(user, market_account).len() == 3,
        user_wager_seeds_of(user, market_account)[0] == "user_account".spec_bytes(),
        user_wager_seeds_of(user, market_account)[1].len() == 32,
        user_wager_seeds_of(user, market_account)[2].len() == 32,
        forall|i: int|
            0 <= i < 32 ==> #[trigger] user_wager_seeds_of(user, market_account)[1][i] == user[i],
        forall|i: int|
            0 <= i < 32 ==> #[trigger] user_wager_seeds_of(user, market_account)[2][i]
                == market_account[i],
{
}

} // verus!
