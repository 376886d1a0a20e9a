//! A constant-product automated market maker: the pool record and its state
//! machine, fee-aware integer pricing, the instruction codec, and
//! verification of the derived addresses a pool controls.

pub mod address;
pub mod codec;
pub mod error;
pub mod instruction;
pub mod ops;
pub mod pool;
pub mod pricing;
pub mod state;
pub mod token;

pub use address::{check_pda_and_get_bump, check_pda_with_bump, Address};
pub use error::AmmError;
pub use instruction::{unpack_instruction, AmmInstructions, Deposit, Initialize, Instruction, Swap};
pub use ops::{perform_basic_checks, DepositUser, LedgerAction, SwapUser};
pub use pool::PoolState;
pub use pricing::isqrt;
pub use state::{Config, PoolKeys};
