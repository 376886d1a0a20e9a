//! The deposit and swap orchestrators. Each validates the whole call before
//! anything moves: the lock flag, the record's owner, the mint pair and every
//! derived address against the stored bumps; then it reads the live balances,
//! prices the operation, and returns the ledger actions to issue, in order.
//! A rejected call returns no action at all.
use vstd::prelude::*;

use crate::address::{check_pda_with_bump, program_address, with_bump, Address};
use crate::codec::u64_at;
use crate::error::AmmError;
use crate::instruction::{Deposit, Swap};
use crate::pool::{deposit_outcome, swap_outcome_of, PoolState};
use crate::state::{
    config_seeds, config_seeds_of, lp_seeds, lp_seeds_of, push_bump, vault_seeds, vault_seeds_of, Config,
    PoolKeys,
};
use crate::token::{mint_ok, mint_supply, token_account_ok, token_balance};

verus! {

/// One call to the token ledger. Where `authority` is the pool's own
/// address, the pool signs with its seeds.
#[derive(Clone, Copy, Debug)]
pub enum LedgerAction {
    Transfer {
        source: Address,
        destination: Address,
        mint: Address,
        authority: Address,
        amount: u64,
        decimals: u8,
    },
    MintTo { mint: Address, destination: Address, authority: Address, amount: u64, decimals: u8 },
}

/// The depositor's accounts.
#[derive(Clone, Copy, Debug)]
pub struct DepositUser {
    pub user: Address,
    pub user_x: Address,
    pub user_y: Address,
    pub user_lp: Address,
}

/// The trader's accounts.
#[derive(Clone, Copy, Debug)]
pub struct SwapUser {
    pub user: Address,
    pub user_x: Address,
    pub user_y: Address,
}

/// The checks that precede every deposit and swap, in order.
pub open spec fn basic_checks_outcome(
    config: Config,
    program_id: Seq<u8>,
    config_owner: Seq<u8>,
    keys: PoolKeys,
) -> Result<(), AmmError> {
    if config.locked {
        Err(AmmError::PoolLocked)
    } else if config_owner != program_id {
        Err(AmmError::IncorrectOwner)
    } else if keys.mint_x@ != config.mint_x@ || keys.mint_y@ != config.mint_y@ {
        Err(AmmError::InvalidMint)
    } else if program_address(with_bump(config_seeds(config.seed), config.config_bump), program_id)
        != Some(keys.config@) || program_address(with_bump(lp_seeds(keys.config@), config.lp_bump), program_id)
        != Some(keys.mint_lp@) || program_address(
        with_bump(vault_seeds(config.mint_x@, keys.config@), config.x_bump),
        program_id,
    ) != Some(keys.vault_x@) || program_address(
        with_bump(vault_seeds(config.mint_y@, keys.config@), config.y_bump),
        program_id,
    ) != Some(keys.vault_y@) {
        Err(AmmError::InvalidDerivedAddress)
    } else {
        Ok(())
    }
}

/// Rejects a call on a locked pool, on a record that this program does not
/// own, on another mint pair, or with an account that does not re-derive from
/// the pool's seeds and the bump stored for it.
pub fn perform_basic_checks(config: &Config, program_id: &Address, config_owner: &Address, keys: &PoolKeys) -> (r:
    Result<(), AmmError>)
    ensures
        r == basic_checks_outcome(*config, program_id@, config_owner@, *keys),
{
    if config.locked {
        return Err(AmmError::PoolLocked);
    }
    if *config_owner != *program_id {
        return Err(AmmError::IncorrectOwner);
    }
    if keys.mint_x != config.mint_x || keys.mint_y != config.mint_y {
        return Err(AmmError::InvalidMint);
    }
    let mut seeds = config_seeds_of(config.seed);
    push_bump(&mut seeds, config.config_bump);
    check_pda_with_bump(&seeds, program_id, &keys.config)?;
    let mut seeds = lp_seeds_of(&keys.config);
    push_bump(&mut seeds, config.lp_bump);
    check_pda_with_bump(&seeds, program_id, &keys.mint_lp)?;
    let mut seeds = vault_seeds_of(&config.mint_x, &keys.config);
    push_bump(&mut seeds, config.x_bump);
    check_pda_with_bump(&seeds, program_id, &keys.vault_x)?;
    let mut seeds = vault_seeds_of(&config.mint_y, &keys.config);
    push_bump(&mut seeds, config.y_bump);
    check_pda_with_bump(&seeds, program_id, &keys.vault_y)?;
    Ok(())
}

/// The ledger actions of a deposit that mints `lp`: both amounts move from
/// the depositor to the vaults, then the pool mints `lp` to the depositor.
pub open spec fn deposit_actions(
    keys: PoolKeys,
    user: DepositUser,
    args: Deposit,
    lp: u64,
    decimals_x: u8,
    decimals_y: u8,
    decimals_lp: u8,
) -> Seq<LedgerAction> {
    seq![
        LedgerAction::Transfer {
            source: user.user_x,
            destination: keys.vault_x,
            mint: keys.mint_x,
            authority: user.user,
            amount: args.amount_x,
            decimals: decimals_x,
        },
        LedgerAction::Transfer {
            source: user.user_y,
            destination: keys.vault_y,
            mint: keys.mint_y,
            authority: user.user,
            amount: args.amount_y,
            decimals: decimals_y,
        },
        LedgerAction::MintTo {
            mint: keys.mint_lp,
            destination: user.user_lp,
            authority: keys.config,
            amount: lp,
            decimals: decimals_lp,
        },
    ]
}

/// The ledger actions of a swap that pays out `out`: the input moves from the
/// trader to its vault first, then the pool pays the output from the other.
pub open spec fn swap_actions(
    keys: PoolKeys,
    user: SwapUser,
    args: Swap,
    out: u64,
    decimals_x: u8,
    decimals_y: u8,
) -> Seq<LedgerAction> {
    if args.x_to_y {
        seq![
            LedgerAction::Transfer {
                source: user.user_x,
                destination: keys.vault_x,
                mint: keys.mint_x,
                authority: user.user,
                amount: args.amount_in,
                decimals: decimals_x,
            },
            LedgerAction::Transfer {
                source: keys.vault_y,
                destination: user.user_y,
                mint: keys.mint_y,
                authority: keys.config,
                amount: out,
                decimals: decimals_y,
            },
        ]
    } else {
        seq![
            LedgerAction::Transfer {
                source: user.user_y,
                destination: keys.vault_y,
                mint: keys.mint_y,
                authority: user.user,
                amount: args.amount_in,
                decimals: decimals_y,
            },
            LedgerAction::Transfer {
                source: keys.vault_x,
                destination: user.user_x,
                mint: keys.mint_x,
                authority: keys.config,
                amount: out,
                decimals: decimals_x,
            },
        ]
    }
}

/// The pool as read from the vault records and the LP-mint record.
pub open spec fn pool_read(config: Config, vault_x: Seq<u8>, vault_y: Seq<u8>, mint_lp: Seq<u8>) -> PoolState {
    PoolState {
        config,
        reserve_x: u64_at(vault_x, 64),
        reserve_y: u64_at(vault_y, 64),
        lp_supply: u64_at(mint_lp, 36),
    }
}

/// The pool with the reserves read from the vault records and a supply that a
/// swap does not use.
pub open spec fn pool_read_for_swap(config: Config, vault_x: Seq<u8>, vault_y: Seq<u8>) -> PoolState {
    PoolState { config, reserve_x: u64_at(vault_x, 64), reserve_y: u64_at(vault_y, 64), lp_supply: 0 }
}

/// The outcome of a deposit call: the checks, then the account records, then
/// the pricing of the deposit against the balances read.
pub open spec fn deposit_call_outcome(
    config: Config,
    program_id: Seq<u8>,
    config_owner: Seq<u8>,
    keys: PoolKeys,
    vault_x: Seq<u8>,
    vault_y: Seq<u8>,
    mint_x: Seq<u8>,
    mint_y: Seq<u8>,
    mint_lp: Seq<u8>,
    args: Deposit,
) -> Result<u64, AmmError> {
    match basic_checks_outcome(config, program_id, config_owner, keys) {
        Err(e) => Err(e),
        Ok(_) => if !(token_account_ok(vault_x) && token_account_ok(vault_y) && mint_ok(mint_x) && mint_ok(
            mint_y,
        ) && mint_ok(mint_lp)) {
            Err(AmmError::InvalidAccountData)
        } else {
            deposit_outcome(pool_read(config, vault_x, vault_y, mint_lp), args.amount_x, args.amount_y, args.min_lp)
        },
    }
}

/// The outcome of a swap call: the checks, then the expiration, then the
/// account records, then the pricing of the swap against the balances read.
pub open spec fn swap_call_outcome(
    config: Config,
    program_id: Seq<u8>,
    config_owner: Seq<u8>,
    keys: PoolKeys,
    vault_x: Seq<u8>,
    vault_y: Seq<u8>,
    mint_x: Seq<u8>,
    mint_y: Seq<u8>,
    args: Swap,
    now: i64,
) -> Result<u64, AmmError> {
    match basic_checks_outcome(config, program_id, config_owner, keys) {
        Err(e) => Err(e),
        Ok(_) => if args.expiration matches Some(t) && now > t {
            Err(AmmError::InstructionExpired)
        } else if !(token_account_ok(vault_x) && token_account_ok(vault_y) && mint_ok(mint_x) && mint_ok(
            mint_y,
        )) {
            Err(AmmError::InvalidAccountData)
        } else {
            swap_outcome_of(pool_read_for_swap(config, vault_x, vault_y), args.amount_in, args.min_amount_out, args.x_to_y)
        },
    }
}

impl Config {
    /// Validates and prices a deposit of `args.amount_x` and `args.amount_y`
    /// and gives the ledger actions that carry it out.
    pub fn add_liquidity(
        &self,
        program_id: &Address,
        config_owner: &Address,
        keys: &PoolKeys,
        user: &DepositUser,
        vault_x_data: &[u8],
        vault_y_data: &[u8],
        mint_x_data: &[u8],
        mint_y_data: &[u8],
        mint_lp_data: &[u8],
        args: &Deposit,
    ) -> (r: Result<Vec<LedgerAction>, AmmError>)
        requires
            self.wf(),
        ensures
            r is Ok <==> deposit_call_outcome(
                *self,
                program_id@,
                config_owner@,
                *keys,
                vault_x_data@,
                vault_y_data@,
                mint_x_data@,
                mint_y_data@,
                mint_lp_data@,
                *args,
            ) is Ok,
            r matches Err(e) ==> deposit_call_outcome(
                *self,
                program_id@,
                config_owner@,
                *keys,
                vault_x_data@,
                vault_y_data@,
                mint_x_data@,
                mint_y_data@,
                mint_lp_data@,
                *args,
            ) == Err::<u64, AmmError>(e),
            r matches Ok(actions) ==> deposit_call_outcome(
                *self,
                program_id@,
                config_owner@,
                *keys,
                vault_x_data@,
                vault_y_data@,
                mint_x_data@,
                mint_y_data@,
                mint_lp_data@,
                *args,
            ) matches Ok(lp) && actions@ == deposit_actions(
                *keys,
                *user,
                *args,
                lp,
                mint_x_data@[44],
                mint_y_data@[44],
                mint_lp_data@[44],
            ),
    {
        perform_basic_checks(self, program_id, config_owner, keys)?;
        let reserve_x = token_balance(vault_x_data)?;
        let reserve_y = token_balance(vault_y_data)?;
        let (_, decimals_x) = mint_supply(mint_x_data)?;
        let (_, decimals_y) = mint_supply(mint_y_data)?;
        let (lp_supply, decimals_lp) = mint_supply(mint_lp_data)?;
        let mut pool = PoolState { config: *self, reserve_x, reserve_y, lp_supply };
        let lp = pool.deposit(args.amount_x, args.amount_y, args.min_lp)?;
        let actions: Vec<LedgerAction> = vec![
            LedgerAction::Transfer {
                source: user.user_x,
                destination: keys.vault_x,
                mint: keys.mint_x,
                authority: user.user,
                amount: args.amount_x,
                decimals: decimals_x,
            },
            LedgerAction::Transfer {
                source: user.user_y,
                destination: keys.vault_y,
                mint: keys.mint_y,
                authority: user.user,
                amount: args.amount_y,
                decimals: decimals_y,
            },
            LedgerAction::MintTo {
                mint: keys.mint_lp,
                destination: user.user_lp,
                authority: keys.config,
                amount: lp,
                decimals: decimals_lp,
            },
        ];
        assert(actions@ =~= deposit_actions(*keys, *user, *args, lp, decimals_x, decimals_y, decimals_lp));
        Ok(actions)
    }

    /// Validates and prices a swap of `args.amount_in` at host time `now` and
    /// gives the ledger actions that carry it out. A swap whose expiration is
    /// set and earlier than `now` is rejected with `InstructionExpired`.
    pub fn perform_swap(
        &self,
        program_id: &Address,
        config_owner: &Address,
        keys: &PoolKeys,
        user: &SwapUser,
        vault_x_data: &[u8],
        vault_y_data: &[u8],
        mint_x_data: &[u8],
        mint_y_data: &[u8],
        args: &Swap,
        now: i64,
    ) -> (r: Result<Vec<LedgerAction>, AmmError>)
        requires
            self.wf(),
        ensures
            r is Ok <==> swap_call_outcome(
                *self,
                program_id@,
                config_owner@,
                *keys,
                vault_x_data@,
                vault_y_data@,
                mint_x_data@,
                mint_y_data@,
                *args,
                now,
            ) is Ok,
            r matches Err(e) ==> swap_call_outcome(
                *self,
                program_id@,
                config_owner@,
                *keys,
                vault_x_data@,
                vault_y_data@,
                mint_x_data@,
                mint_y_data@,
                *args,
                now,
            ) == Err::<u64, AmmError>(e),
            r matches Ok(actions) ==> swap_call_outcome(
                *self,
                program_id@,
                config_owner@,
                *keys,
                vault_x_data@,
                vault_y_data@,
                mint_x_data@,
                mint_y_data@,
                *args,
                now,
            ) matches Ok(out) && actions@ == swap_actions(
                *keys,
                *user,
                *args,
                out,
                mint_x_data@[44],
                mint_y_data@[44],
            ),
    {
        perform_basic_checks(self, program_id, config_owner, keys)?;
        if let Some(t) = args.expiration {
            if now > t {
                return Err(AmmError::InstructionExpired);
            }
        }
        let reserve_x = token_balance(vault_x_data)?;
        let reserve_y = token_balance(vault_y_data)?;
        let (_, decimals_x) = mint_supply(mint_x_data)?;
        let (_, decimals_y) = mint_supply(mint_y_data)?;
        let mut pool = PoolState { config: *self, reserve_x, reserve_y, lp_supply: 0 };
        let out = pool.swap(args.amount_in, args.min_amount_out, args.x_to_y)?;
        let actions: Vec<LedgerAction> = if args.x_to_y {
            vec![
                LedgerAction::Transfer {
                    source: user.user_x,
                    destination: keys.vault_x,
                    mint: keys.mint_x,
                    authority: user.user,
                    amount: args.amount_in,
                    decimals: decimals_x,
                },
                LedgerAction::Transfer {
                    source: keys.vault_y,
                    destination: user.user_y,
                    mint: keys.mint_y,
                    authority: keys.config,
                    amount: out,
                    decimals: decimals_y,
                },
            ]
        } else {
            vec![
                LedgerAction::Transfer {
                    source: user.user_y,
                    destination: keys.vault_y,
                    mint: keys.mint_y,
                    authority: user.user,
                    amount: args.amount_in,
                    decimals: decimals_y,
                },
                LedgerAction::Transfer {
                    source: keys.vault_x,
                    destination: user.user_x,
                    mint: keys.mint_x,
                    authority: keys.config,
                    amount: out,
                    decimals: decimals_x,
                },
            ]
        };
        assert(actions@ =~= swap_actions(*keys, *user, *args, out, decimals_x, decimals_y));
        Ok(actions)
    }
}

} // verus!
