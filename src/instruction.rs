//! The instruction codec: one tag byte, then a fixed-layout little-endian
//! payload for the tagged operation.
//!
//! | operation  | tag | payload                                                          |
//! |------------|-----|------------------------------------------------------------------|
//! | Initialize | 0   | seed u64, fee_bps u16, authority 32 bytes (42 bytes)             |
//! | Deposit    | 1   | amount_x u64, amount_y u64, min_lp u64 (24 bytes)                |
//! | Swap       | 3   | amount_in u64, min_amount_out u64, x_to_y u8 (0 or 1),           |
//! |            |     | expiration flag u8 (0 or 1), expiration i64 (zero when unset)    |
//! |            |     | (26 bytes)                                                       |
use vstd::bytes::*;
use vstd::prelude::*;
use vstd::slice::slice_subrange;

use crate::address::Address;
use crate::codec::{bytes32_at, push_address, push_u16, push_u64, read_address, read_u16, read_u64, u16_at, u64_at};
use crate::error::AmmError;

verus! {

pub const INITIALIZE_LEN: usize = 42;

pub const DEPOSIT_LEN: usize = 24;

pub const SWAP_LEN: usize = 26;

/// The operation that an instruction's tag byte names.
#[derive(Clone, Copy, Debug, PartialEq, Eq, Structural)]
pub enum AmmInstructions {
    Initialize,
    Deposit,
    Swap,
}

pub open spec fn kind_of_tag(tag: u8) -> Result<AmmInstructions, AmmError> {
    if tag == 0 {
        Ok(AmmInstructions::Initialize)
    } else if tag == 1 {
        Ok(AmmInstructions::Deposit)
    } else if tag == 3 {
        Ok(AmmInstructions::Swap)
    } else {
        Err(AmmError::InvalidInstruction)
    }
}

pub open spec fn tag_of_kind(kind: AmmInstructions) -> u8 {
    match kind {
        AmmInstructions::Initialize => 0,
        AmmInstructions::Deposit => 1,
        AmmInstructions::Swap => 3,
    }
}

impl AmmInstructions {
    /// The operation named by `tag`; `InvalidInstruction` for an unknown tag.
    pub fn try_from(tag: u8) -> (r: Result<AmmInstructions, AmmError>)
        ensures
            r == kind_of_tag(tag),
    {
        match tag {
            0 => Ok(AmmInstructions::Initialize),
            1 => Ok(AmmInstructions::Deposit),
            3 => Ok(AmmInstructions::Swap),
            _ => Err(AmmError::InvalidInstruction),
        }
    }

    pub fn tag(&self) -> (r: u8)
        ensures
            r == tag_of_kind(*self),
            kind_of_tag(r) == Ok::<AmmInstructions, AmmError>(*self),
    {
        match self {
            AmmInstructions::Initialize => 0,
            AmmInstructions::Deposit => 1,
            AmmInstructions::Swap => 3,
        }
    }
}

/// Payload of pool creation.
#[derive(Clone, Copy, Debug)]
pub struct Initialize {
    pub seed: u64,
    pub fee_bps: u16,
    /// The optional privileged account; all zeros when unset.
    pub authority: Address,
}

/// Payload of a deposit of both tokens.
#[derive(Clone, Copy, Debug, PartialEq, Eq, Structural)]
pub struct Deposit {
    pub amount_x: u64,
    pub amount_y: u64,
    pub min_lp: u64,
}

/// Payload of a swap.
#[derive(Clone, Copy, Debug, PartialEq, Eq, Structural)]
pub struct Swap {
    pub amount_in: u64,
    pub min_amount_out: u64,
    /// Token x is paid in and token y paid out; the reverse when false.
    pub x_to_y: bool,
    /// The last host time at which the swap may execute.
    pub expiration: Option<i64>,
}

/// `p` is what the 42 bytes of `data` hold.
pub open spec fn initialize_fields(data: Seq<u8>, p: Initialize) -> bool {
    &&& p.seed == u64_at(data, 0)
    &&& p.fee_bps == u16_at(data, 8)
    &&& p.authority@ == bytes32_at(data, 10)
}

pub open spec fn initialize_bytes(p: Initialize) -> Seq<u8> {
    spec_u64_to_le_bytes(p.seed) + spec_u16_to_le_bytes(p.fee_bps) + p.authority@
}

pub open spec fn deposit_from(data: Seq<u8>) -> Result<Deposit, AmmError> {
    if data.len() != DEPOSIT_LEN {
        Err(AmmError::InvalidPayload)
    } else {
        Ok(Deposit { amount_x: u64_at(data, 0), amount_y: u64_at(data, 8), min_lp: u64_at(data, 16) })
    }
}

pub open spec fn deposit_bytes(p: Deposit) -> Seq<u8> {
    spec_u64_to_le_bytes(p.amount_x) + spec_u64_to_le_bytes(p.amount_y) + spec_u64_to_le_bytes(p.min_lp)
}

/// The 26 bytes of `data` are a swap payload: both flags are 0 or 1, and an
/// unset expiration is all zeros.
pub open spec fn swap_layout_ok(data: Seq<u8>) -> bool {
    &&& data.len() == SWAP_LEN
    &&& (data[16] == 0 || data[16] == 1)
    &&& (data[17] == 0 || data[17] == 1)
    &&& (data[17] == 0 ==> u64_at(data, 18) == 0)
}

pub open spec fn swap_from(data: Seq<u8>) -> Result<Swap, AmmError> {
    if !swap_layout_ok(data) {
        Err(AmmError::InvalidPayload)
    } else {
        Ok(
            Swap {
                amount_in: u64_at(data, 0),
                min_amount_out: u64_at(data, 8),
                x_to_y: data[16] == 1,
                expiration: if data[17] == 1 {
                    Some(u64_at(data, 18) as i64)
                } else {
                    None
                },
            },
        )
    }
}

pub open spec fn swap_bytes(p: Swap) -> Seq<u8> {
    spec_u64_to_le_bytes(p.amount_in) + spec_u64_to_le_bytes(p.min_amount_out) + seq![
        if p.x_to_y {
            1u8
        } else {
            0u8
        },
        if p.expiration is Some {
            1u8
        } else {
            0u8
        },
    ] + spec_u64_to_le_bytes(
        match p.expiration {
            Some(e) => e as u64,
            None => 0u64,
        },
    )
}

impl Initialize {
    /// Decodes a pool-creation payload.
    pub fn try_from(data: &[u8]) -> (r: Result<Initialize, AmmError>)
        ensures
            r is Ok <==> data@.len() == INITIALIZE_LEN,
            r is Err ==> r == Err::<Initialize, AmmError>(AmmError::InvalidPayload),
            r matches Ok(p) ==> initialize_fields(data@, p),
    {
        if data.len() != INITIALIZE_LEN {
            return Err(AmmError::InvalidPayload);
        }
        Ok(
            Initialize {
                seed: read_u64(data, 0),
                fee_bps: read_u16(data, 8),
                authority: read_address(data, 10),
            },
        )
    }

    pub fn pack(&self) -> (r: Vec<u8>)
        ensures
            r@ == initialize_bytes(*self),
    {
        let mut out: Vec<u8> = Vec::new();
        push_u64(&mut out, self.seed);
        push_u16(&mut out, self.fee_bps);
        push_address(&mut out, &self.authority);
        assert(out@ =~= initialize_bytes(*self));
        out
    }
}

impl Deposit {
    /// Decodes a deposit payload.
    pub fn try_from(data: &[u8]) -> (r: Result<Deposit, AmmError>)
        ensures
            r == deposit_from(data@),
    {
        if data.len() != DEPOSIT_LEN {
            return Err(AmmError::InvalidPayload);
        }
        Ok(Deposit { amount_x: read_u64(data, 0), amount_y: read_u64(data, 8), min_lp: read_u64(data, 16) })
    }

    pub fn pack(&self) -> (r: Vec<u8>)
        ensures
            r@ == deposit_bytes(*self),
    {
        let mut out: Vec<u8> = Vec::new();
        push_u64(&mut out, self.amount_x);
        push_u64(&mut out, self.amount_y);
        push_u64(&mut out, self.min_lp);
        assert(out@ =~= deposit_bytes(*self));
        out
    }
}

impl Swap {
    /// Decodes a swap payload.
    pub fn try_from(data: &[u8]) -> (r: Result<Swap, AmmError>)
        ensures
            r == swap_from(data@),
    {
        if data.len() != SWAP_LEN {
            return Err(AmmError::InvalidPayload);
        }
        let direction = data[16];
        let flag = data[17];
        let raw_expiration = read_u64(data, 18);
        if direction > 1 || flag > 1 || (flag == 0 && raw_expiration != 0) {
            return Err(AmmError::InvalidPayload);
        }
        let expiration = if flag == 1 {
            Some(raw_expiration as i64)
        } else {
            None
        };
        Ok(
            Swap {
                amount_in: read_u64(data, 0),
                min_amount_out: read_u64(data, 8),
                x_to_y: direction == 1,
                expiration,
            },
        )
    }

    pub fn pack(&self) -> (r: Vec<u8>)
        ensures
            r@ == swap_bytes(*self),
    {
        let mut out: Vec<u8> = Vec::new();
        push_u64(&mut out, self.amount_in);
        push_u64(&mut out, self.min_amount_out);
        out.push(if self.x_to_y { 1u8 } else { 0u8 });
        let raw = match self.expiration {
            Some(e) => {
                out.push(1u8);
                e as u64
            },
            None => {
                out.push(0u8);
                0u64
            },
        };
        push_u64(&mut out, raw);
        assert(out@ =~= swap_bytes(*self));
        out
    }
}

/// A decoded instruction: the operation with its payload.
#[derive(Clone, Copy, Debug)]
pub enum Instruction {
    Initialize(Initialize),
    Deposit(Deposit),
    Swap(Swap),
}

pub open spec fn payload_of(data: Seq<u8>) -> Seq<u8> {
    data.subrange(1, data.len() as int)
}

/// Why `data` is not an instruction, if it is not one.
pub open spec fn instruction_error(data: Seq<u8>) -> Option<AmmError> {
    if data.len() == 0 {
        Some(AmmError::InvalidInstruction)
    } else {
        match kind_of_tag(data[0]) {
            Err(e) => Some(e),
            Ok(AmmInstructions::Initialize) => if payload_of(data).len() == INITIALIZE_LEN {
                None
            } else {
                Some(AmmError::InvalidPayload)
            },
            Ok(AmmInstructions::Deposit) => match deposit_from(payload_of(data)) {
                Ok(_) => None,
                Err(e) => Some(e),
            },
            Ok(AmmInstructions::Swap) => match swap_from(payload_of(data)) {
                Ok(_) => None,
                Err(e) => Some(e),
            },
        }
    }
}

/// `ix` is what the bytes `data` decode to.
pub open spec fn decodes_to(data: Seq<u8>, ix: Instruction) -> bool {
    &&& data.len() > 0
    &&& match ix {
        Instruction::Initialize(p) => data[0] == 0 && payload_of(data).len() == INITIALIZE_LEN
            && initialize_fields(payload_of(data), p),
        Instruction::Deposit(p) => data[0] == 1 && deposit_from(payload_of(data)) == Ok::<
            Deposit,
            AmmError,
        >(p),
        Instruction::Swap(p) => data[0] == 3 && swap_from(payload_of(data)) == Ok::<Swap, AmmError>(p),
    }
}

pub open spec fn instruction_bytes(ix: Instruction) -> Seq<u8> {
    match ix {
        Instruction::Initialize(p) => seq![0u8] + initialize_bytes(p),
        Instruction::Deposit(p) => seq![1u8] + deposit_bytes(p),
        Instruction::Swap(p) => seq![3u8] + swap_bytes(p),
    }
}

/// Decodes a raw instruction: the tag byte, then the payload of that operation.
pub fn unpack_instruction(data: &[u8]) -> (r: Result<Instruction, AmmError>)
    ensures
        r is Ok <==> instruction_error(data@) is None,
        r matches Err(e) ==> instruction_error(data@) == Some(e),
        r matches Ok(ix) ==> decodes_to(data@, ix),
{
    if data.len() == 0 {
        return Err(AmmError::InvalidInstruction);
    }
    let kind = AmmInstructions::try_from(data[0])?;
    let payload = slice_subrange(data, 1, data.len());
    assert(payload@ == payload_of(data@));
    match kind {
        AmmInstructions::Initialize => {
            let p = Initialize::try_from(payload)?;
            Ok(Instruction::Initialize(p))
        },
        AmmInstructions::Deposit => {
            let p = Deposit::try_from(payload)?;
            Ok(Instruction::Deposit(p))
        },
        AmmInstructions::Swap => {
            let p = Swap::try_from(payload)?;
            Ok(Instruction::Swap(p))
        },
    }
}

/// Decoding the encoding of an instruction gives that instruction back.
pub proof fn lemma_instruction_round_trip(ix: Instruction)
    ensures
        instruction_error(instruction_bytes(ix)) is None,
        decodes_to(instruction_bytes(ix), ix),
{
    lemma_auto_spec_u64_to_from_le_bytes();
    lemma_auto_spec_u16_to_from_le_bytes();
    let data = instruction_bytes(ix);
    match ix {
        Instruction::Initialize(p) => {
            let pl = payload_of(data);
            assert(pl =~= initialize_bytes(p));
            assert(pl.subrange(0, 8) =~= spec_u64_to_le_bytes(p.seed));
            assert(pl.subrange(8, 10) =~= spec_u16_to_le_bytes(p.fee_bps));
            assert(pl.subrange(10, 42) =~= p.authority@);
        },
        Instruction::Deposit(p) => {
            let pl = payload_of(data);
            assert(pl =~= deposit_bytes(p));
            assert(pl.subrange(0, 8) =~= spec_u64_to_le_bytes(p.amount_x));
            assert(pl.subrange(8, 16) =~= spec_u64_to_le_bytes(p.amount_y));
            assert(pl.subrange(16, 24) =~= spec_u64_to_le_bytes(p.min_lp));
        },
        Instruction::Swap(p) => {
            let pl = payload_of(data);
            let raw = match p.expiration {
                Some(e) => e as u64,
                None => 0u64,
            };
            assert(pl =~= swap_bytes(p));
            assert(pl.subrange(0, 8) =~= spec_u64_to_le_bytes(p.amount_in));
            assert(pl.subrange(8, 16) =~= spec_u64_to_le_bytes(p.min_amount_out));
            assert(pl.subrange(18, 26) =~= spec_u64_to_le_bytes(raw));
            if let Some(e) = p.expiration {
                assert((e as u64) as i64 == e) by (bit_vector);
            }
        },
    }
}

impl Instruction {
    /// Encodes the instruction: its tag byte, then its payload.
    pub fn pack(&self) -> (r: Vec<u8>)
        ensures
            r@ == instruction_bytes(*self),
    {
        let (tag, payload) = match self {
            Instruction::Initialize(p) => (0u8, p.pack()),
            Instruction::Deposit(p) => (1u8, p.pack()),
            Instruction::Swap(p) => (3u8, p.pack()),
        };
        let mut out: Vec<u8> = Vec::new();
        out.push(tag);
        crate::codec::push_all(&mut out, payload.as_slice());
        assert(out@ =~= instruction_bytes(*self));
        out
    }
}

} // verus!
