//! The persistent Pool Config record, its fixed 112-byte layout, pool
//! creation, and the pool's state machine for deposits and swaps.
use vstd::bytes::*;
use vstd::prelude::*;

use crate::address::{bump_for, canonical_address, check_pda_and_get_bump, with_bump, Address};
use crate::codec::{bytes32_at, push_address, push_u16, push_u64, read_address, read_u16, read_u64, u16_at, u64_at};
use crate::error::AmmError;
use crate::instruction::Initialize;

verus! {

pub const CONFIG_LEN: usize = 112;

/// One pool instance.
///
/// Layout: seed u64 at 0, authority at 8, mint_x at 40, mint_y at 72,
/// fee_bps u16 at 104, locked at 106 (0 or 1), then the config, LP-mint,
/// x-vault and y-vault bumps at 107..111, and one zero byte of padding.
#[derive(Clone, Copy, Debug)]
pub struct Config {
    pub seed: u64,
    pub authority: Address,
    pub mint_x: Address,
    pub mint_y: Address,
    pub fee_bps: u16,
    pub locked: bool,
    pub config_bump: u8,
    pub lp_bump: u8,
    pub x_bump: u8,
    pub y_bump: u8,
}

/// The addresses of a pool's accounts, as presented by a caller.
#[derive(Clone, Copy, Debug)]
pub struct PoolKeys {
    pub config: Address,
    pub mint_x: Address,
    pub mint_y: Address,
    pub mint_lp: Address,
    pub vault_x: Address,
    pub vault_y: Address,
}

/// The ASCII bytes of "config", the first seed of a pool's address.
pub open spec fn config_prefix() -> Seq<u8> {
    seq![99u8, 111u8, 110u8, 102u8, 105u8, 103u8]
}

/// Seeds of the pool's own address (before its bump).
pub open spec fn config_seeds(seed: u64) -> Seq<Seq<u8>> {
    seq![config_prefix(), spec_u64_to_le_bytes(seed)]
}

/// Seeds of the pool's LP mint (before its bump).
pub open spec fn lp_seeds(config: Seq<u8>) -> Seq<Seq<u8>> {
    seq![config]
}

/// Seeds of the pool's vault for `mint` (before its bump).
pub open spec fn vault_seeds(mint: Seq<u8>, config: Seq<u8>) -> Seq<Seq<u8>> {
    seq![mint, config]
}

/// A byte vector's deep view is its view.
proof fn lemma_bytes_deep_view(v: Vec<u8>)
    ensures
        v.deep_view() == v@,
{
    assert(v.deep_view() =~= v@);
}

pub fn config_seeds_of(seed: u64) -> (r: Vec<Vec<u8>>)
    ensures
        r.deep_view() == config_seeds(seed),
{
    let prefix: Vec<u8> = vec![99u8, 111u8, 110u8, 102u8, 105u8, 103u8];
    let le = u64_to_le_bytes(seed);
    proof {
        lemma_bytes_deep_view(prefix);
        lemma_bytes_deep_view(le);
    }
    assert(prefix@ =~= config_prefix());
    let r: Vec<Vec<u8>> = vec![prefix, le];
    assert(r.deep_view() =~= config_seeds(seed));
    r
}

pub fn lp_seeds_of(config: &Address) -> (r: Vec<Vec<u8>>)
    ensures
        r.deep_view() == lp_seeds(config@),
{
    let c = config.to_seed();
    proof {
        lemma_bytes_deep_view(c);
    }
    let r: Vec<Vec<u8>> = vec![c];
    assert(r.deep_view() =~= lp_seeds(config@));
    r
}

pub fn vault_seeds_of(mint: &Address, config: &Address) -> (r: Vec<Vec<u8>>)
    ensures
        r.deep_view() == vault_seeds(mint@, config@),
{
    let m = mint.to_seed();
    let c = config.to_seed();
    proof {
        lemma_bytes_deep_view(m);
        lemma_bytes_deep_view(c);
    }
    let r: Vec<Vec<u8>> = vec![m, c];
    assert(r.deep_view() =~= vault_seeds(mint@, config@));
    r
}

/// Appends the one-byte bump seed.
pub fn push_bump(seeds: &mut Vec<Vec<u8>>, bump: u8)
    ensures
        final(seeds).deep_view() == with_bump(old(seeds).deep_view(), bump),
{
    let b: Vec<u8> = vec![bump];
    proof {
        lemma_bytes_deep_view(b);
    }
    assert(b@ =~= seq![bump]);
    seeds.push(b);
    assert(seeds.deep_view() =~= with_bump(old(seeds).deep_view(), bump));
}

/// The outcome of creating a pool: the fee is checked first, then each
/// account must be the canonical derived address for its seeds.
pub open spec fn initialize_outcome(program_id: Seq<u8>, args: Initialize, keys: PoolKeys) -> Result<
    Config,
    AmmError,
> {
    let x = bump_for(canonical_address(vault_seeds(keys.mint_x@, keys.config@), program_id), keys.vault_x@);
    let y = bump_for(canonical_address(vault_seeds(keys.mint_y@, keys.config@), program_id), keys.vault_y@);
    let lp = bump_for(canonical_address(lp_seeds(keys.config@), program_id), keys.mint_lp@);
    let c = bump_for(canonical_address(config_seeds(args.seed), program_id), keys.config@);
    if args.fee_bps >= 10000 {
        Err(AmmError::InvalidFee)
    } else if x is Err || y is Err || lp is Err || c is Err {
        Err(AmmError::InvalidDerivedAddress)
    } else {
        Ok(
            Config {
                seed: args.seed,
                authority: args.authority,
                mint_x: keys.mint_x,
                mint_y: keys.mint_y,
                fee_bps: args.fee_bps,
                locked: false,
                config_bump: c->Ok_0,
                lp_bump: lp->Ok_0,
                x_bump: x->Ok_0,
                y_bump: y->Ok_0,
            },
        )
    }
}

/// `c` is what the 112 bytes of `data` hold.
pub open spec fn config_fields(data: Seq<u8>, c: Config) -> bool {
    &&& c.seed == u64_at(data, 0)
    &&& c.authority@ == bytes32_at(data, 8)
    &&& c.mint_x@ == bytes32_at(data, 40)
    &&& c.mint_y@ == bytes32_at(data, 72)
    &&& c.fee_bps == u16_at(data, 104)
    &&& c.locked == (data[106] == 1)
    &&& c.config_bump == data[107]
    &&& c.lp_bump == data[108]
    &&& c.x_bump == data[109]
    &&& c.y_bump == data[110]
}

/// The bytes hold a pool record: the right length, a locked flag of 0 or 1,
/// and a fee below 100%.
pub open spec fn config_layout_ok(data: Seq<u8>) -> bool {
    &&& data.len() == CONFIG_LEN
    &&& (data[106] == 0 || data[106] == 1)
    &&& u16_at(data, 104) < 10000
}

pub open spec fn config_bytes(c: Config) -> Seq<u8> {
    spec_u64_to_le_bytes(c.seed) + c.authority@ + c.mint_x@ + c.mint_y@ + spec_u16_to_le_bytes(c.fee_bps)
        + seq![
        if c.locked {
            1u8
        } else {
            0u8
        },
        c.config_bump,
        c.lp_bump,
        c.x_bump,
        c.y_bump,
        0u8,
    ]
}

impl Config {
    /// The record's invariant: the fee is below 100%.
    pub open spec fn wf(&self) -> bool {
        self.fee_bps < 10000
    }

    /// Validates pool creation and gives the record to store. The fee is
    /// checked before anything else; then the vaults, the LP mint and the
    /// record itself must sit at the canonical derived addresses, whose bumps
    /// the record keeps. The pool starts unlocked.
    pub fn initialize(program_id: &Address, args: &Initialize, keys: &PoolKeys) -> (r: Result<Config, AmmError>)
        ensures
            r == initialize_outcome(program_id@, *args, *keys),
            r matches Ok(c) ==> c.wf(),
    {
        if args.fee_bps >= 10000 {
            return Err(AmmError::InvalidFee);
        }
        let x_bump = check_pda_and_get_bump(&vault_seeds_of(&keys.mint_x, &keys.config), program_id, &keys.vault_x)?;
        let y_bump = check_pda_and_get_bump(&vault_seeds_of(&keys.mint_y, &keys.config), program_id, &keys.vault_y)?;
        let lp_bump = check_pda_and_get_bump(&lp_seeds_of(&keys.config), program_id, &keys.mint_lp)?;
        let config_bump = check_pda_and_get_bump(&config_seeds_of(args.seed), program_id, &keys.config)?;
        Ok(
            Config {
                seed: args.seed,
                authority: args.authority,
                mint_x: keys.mint_x,
                mint_y: keys.mint_y,
                fee_bps: args.fee_bps,
                locked: false,
                config_bump,
                lp_bump,
                x_bump,
                y_bump,
            },
        )
    }

    /// Decodes a stored pool record; `InvalidAccountData` when the bytes do
    /// not hold one.
    pub fn try_from(data: &[u8]) -> (r: Result<Config, AmmError>)
        ensures
            r is Ok <==> config_layout_ok(data@),
            r is Err ==> r == Err::<Config, AmmError>(AmmError::InvalidAccountData),
            r matches Ok(c) ==> config_fields(data@, c) && c.wf(),
    {
        if data.len() != CONFIG_LEN {
            return Err(AmmError::InvalidAccountData);
        }
        let fee_bps = read_u16(data, 104);
        let locked = data[106];
        if locked > 1 || fee_bps >= 10000 {
            return Err(AmmError::InvalidAccountData);
        }
        Ok(
            Config {
                seed: read_u64(data, 0),
                authority: read_address(data, 8),
                mint_x: read_address(data, 40),
                mint_y: read_address(data, 72),
                fee_bps,
                locked: locked == 1,
                config_bump: data[107],
                lp_bump: data[108],
                x_bump: data[109],
                y_bump: data[110],
            },
        )
    }

    /// Encodes the record in its stored layout.
    pub fn to_bytes(&self) -> (r: Vec<u8>)
        ensures
            r@ == config_bytes(*self),
    {
        let mut out: Vec<u8> = Vec::new();
        push_u64(&mut out, self.seed);
        push_address(&mut out, &self.authority);
        push_address(&mut out, &self.mint_x);
        push_address(&mut out, &self.mint_y);
        push_u16(&mut out, self.fee_bps);
        out.push(if self.locked { 1u8 } else { 0u8 });
        out.push(self.config_bump);
        out.push(self.lp_bump);
        out.push(self.x_bump);
        out.push(self.y_bump);
        out.push(0u8);
        assert(out@ =~= config_bytes(*self));
        out
    }

    /// The seeds with which the pool signs as the authority of its vaults and LP mint.
    pub fn signer_seeds(&self) -> (r: Vec<Vec<u8>>)
        ensures
            r.deep_view() == with_bump(config_seeds(self.seed), self.config_bump),
    {
        let mut seeds = config_seeds_of(self.seed);
        push_bump(&mut seeds, self.config_bump);
        seeds
    }
}

/// Decoding the stored layout of a well-formed record gives the record back.
pub proof fn lemma_config_round_trip(c: Config)
    requires
        c.wf(),
    ensures
        config_layout_ok(config_bytes(c)),
        config_fields(config_bytes(c), c),
{
    lemma_auto_spec_u64_to_from_le_bytes();
    lemma_auto_spec_u16_to_from_le_bytes();
    let d = config_bytes(c);
    assert(d.subrange(0, 8) =~= spec_u64_to_le_bytes(c.seed));
    assert(d.subrange(8, 40) =~= c.authority@);
    assert(d.subrange(40, 72) =~= c.mint_x@);
    assert(d.subrange(72, 104) =~= c.mint_y@);
    assert(d.subrange(104, 106) =~= spec_u16_to_le_bytes(c.fee_bps));
}

} // verus!
