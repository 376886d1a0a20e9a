//! Reading the token ledger's account records, through spl-token's own
//! layouts.
use vstd::prelude::*;

use solana_program::program_pack::Pack;

use crate::codec::u64_at;
use crate::error::AmmError;

verus! {

pub const TOKEN_ACCOUNT_LEN: usize = 165;

pub const MINT_LEN: usize = 82;

/// The four bytes at `off` tag an optional field: `[0, 0, 0, 0]` or `[1, 0, 0, 0]`.
pub open spec fn option_tag_ok(data: Seq<u8>, off: int) -> bool {
    (data[off] == 0 || data[off] == 1) && data[off + 1] == 0 && data[off + 2] == 0 && data[off + 3] == 0
}

/// The bytes are an initialized token account: 165 bytes, valid tags for the
/// delegate (at 72), native amount (at 109) and close authority (at 129), and
/// a state byte (at 108) of 1, initialized, or 2, frozen.
pub open spec fn token_account_ok(data: Seq<u8>) -> bool {
    &&& data.len() == TOKEN_ACCOUNT_LEN
    &&& option_tag_ok(data, 72)
    &&& (data[108] == 1 || data[108] == 2)
    &&& option_tag_ok(data, 109)
    &&& option_tag_ok(data, 129)
}

/// The bytes are an initialized mint: 82 bytes, valid tags for the mint
/// authority (at 0) and freeze authority (at 46), and an initialized flag (at
/// 45) of 1.
pub open spec fn mint_ok(data: Seq<u8>) -> bool {
    &&& data.len() == MINT_LEN
    &&& option_tag_ok(data, 0)
    &&& data[45] == 1
    &&& option_tag_ok(data, 46)
}

/// Relies on spl_token's `Account::unpack`: it accepts exactly an initialized
/// 165-byte account record, and reads the balance as the little-endian u64 at
/// offset 64.
#[verifier::external_body]
fn unpack_token_amount(data: &[u8]) -> (r: Option<u64>)
    ensures
        r is Some <==> token_account_ok(data@),
        r matches Some(amount) ==> amount == u64_at(data@, 64),
{
    spl_token::state::Account::unpack(data).ok().map(|a| a.amount)
}

/// Relies on spl_token's `Mint::unpack`: it accepts exactly an initialized
/// 82-byte mint record, reads the supply as the little-endian u64 at offset 36
/// and the decimals as the byte at offset 44.
#[verifier::external_body]
fn unpack_mint(data: &[u8]) -> (r: Option<(u64, u8)>)
    ensures
        r is Some <==> mint_ok(data@),
        r matches Some((supply, decimals)) ==> supply == u64_at(data@, 36) && decimals == data@[44],
{
    spl_token::state::Mint::unpack(data).ok().map(|m| (m.supply, m.decimals))
}

/// The balance held by a token account; `InvalidAccountData` when the data
/// is not an initialized token account.
pub fn token_balance(data: &[u8]) -> (r: Result<u64, AmmError>)
    ensures
        r is Ok <==> token_account_ok(data@),
        r is Err ==> r == Err::<u64, AmmError>(AmmError::InvalidAccountData),
        r matches Ok(amount) ==> amount == u64_at(data@, 64),
{
    match unpack_token_amount(data) {
        Some(amount) => Ok(amount),
        None => Err(AmmError::InvalidAccountData),
    }
}

/// The supply and decimals of a mint; `InvalidAccountData` when the data is
/// not an initialized mint.
pub fn mint_supply(data: &[u8]) -> (r: Result<(u64, u8), AmmError>)
    ensures
        r is Ok <==> mint_ok(data@),
        r is Err ==> r == Err::<(u64, u8), AmmError>(AmmError::InvalidAccountData),
        r matches Ok((supply, decimals)) ==> supply == u64_at(data@, 36) && decimals == data@[44],
{
    match unpack_mint(data) {
        Some(m) => Ok(m),
        None => Err(AmmError::InvalidAccountData),
    }
}

} // verus!
