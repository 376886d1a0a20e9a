use vstd::prelude::*;

verus! {

/// Every way an instruction of the pool can be rejected.
#[derive(Clone, Copy, Debug, PartialEq, Eq, Structural)]
pub enum AmmError {
    /// The leading tag byte names no operation.
    InvalidInstruction,
    /// The payload does not have the layout of the tagged operation.
    InvalidPayload,
    /// The fee rate is 100% or more.
    InvalidFee,
    /// An account does not re-derive from the pool's seeds and stored bump.
    InvalidDerivedAddress,
    /// The pool is locked against deposits and swaps.
    PoolLocked,
    /// A reserve is empty, or the trade would drain the opposite reserve.
    InsufficientLiquidity,
    /// The computed amount is below the caller's stated minimum.
    SlippageExceeded,
    /// The caller's expiration time has passed.
    InstructionExpired,
    /// A mint does not match the pool's mint pair.
    InvalidMint,
    /// An account's data does not have the expected layout.
    InvalidAccountData,
    /// The pool record is not owned by this program.
    IncorrectOwner,
    /// A balance or supply would not fit in 64 bits.
    ArithmeticOverflow,
}

impl AmmError {
    /// A stable numeric code for the error, distinct for each variant.
    pub fn code(&self) -> (r: u32)
        ensures
            r == error_code(*self),
    {
        match self {
            AmmError::InvalidInstruction => 0,
            AmmError::InvalidPayload => 1,
            AmmError::InvalidFee => 2,
            AmmError::InvalidDerivedAddress => 3,
            AmmError::PoolLocked => 4,
            AmmError::InsufficientLiquidity => 5,
            AmmError::SlippageExceeded => 6,
            AmmError::InstructionExpired => 7,
            AmmError::InvalidMint => 8,
            AmmError::InvalidAccountData => 9,
            AmmError::IncorrectOwner => 10,
            AmmError::ArithmeticOverflow => 11,
        }
    }
}

pub open spec fn error_code(e: AmmError) -> u32 {
    match e {
        AmmError::InvalidInstruction => 0,
        AmmError::InvalidPayload => 1,
        AmmError::InvalidFee => 2,
        AmmError::InvalidDerivedAddress => 3,
        AmmError::PoolLocked => 4,
        AmmError::InsufficientLiquidity => 5,
        AmmError::SlippageExceeded => 6,
        AmmError::InstructionExpired => 7,
        AmmError::InvalidMint => 8,
        AmmError::InvalidAccountData => 9,
        AmmError::IncorrectOwner => 10,
        AmmError::ArithmeticOverflow => 11,
    }
}

} // verus!
