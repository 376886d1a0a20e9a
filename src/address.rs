//! Addresses and the derived-address verifier. A derived address is computed
//! from a list of seeds and the program's identity; the pool stores the bump
//! (a last one-byte seed) of each account it controls and re-derives the
//! address on every call.
use vstd::prelude::*;

use solana_program::pubkey::Pubkey;

use crate::error::AmmError;

verus! {

/// A 32-byte account identity.
#[derive(Clone, Copy, Debug)]
pub struct Address {
    pub bytes: [u8; 32],
}

impl View for Address {
    type V = Seq<u8>;

    open spec fn view(&self) -> Seq<u8> {
        self.bytes@
    }
}

impl PartialEq for Address {
    fn eq(&self, other: &Address) -> (r: bool)
        ensures
            r == (self@ == other@),
    {
        let mut i: usize = 0;
        while i < 32
            invariant
                i <= 32,
                forall|j: int| 0 <= j < i ==> self@[j] == other@[j],
            decreases 32 - i,
        {
            if self.bytes[i] != other.bytes[i] {
                return false;
            }
            i = i + 1;
        }
        assert(self@ =~= other@);
        true
    }
}

impl vstd::std_specs::cmp::PartialEqSpecImpl for Address {
    open spec fn obeys_eq_spec() -> bool {
        true
    }

    open spec fn eq_spec(&self, other: &Address) -> bool {
        self@ == other@
    }
}

impl Eq for Address {

}

impl Address {
    pub fn new(bytes: [u8; 32]) -> (r: Address)
        ensures
            r.bytes == bytes,
    {
        Address { bytes }
    }

    /// The all-zero address, which stands for "unset".
    pub fn zero() -> (r: Address)
        ensures
            r@ == Seq::new(32, |i: int| 0u8),
    {
        let r = Address { bytes: [0u8; 32] };
        assert(r@ =~= Seq::new(32, |i: int| 0u8));
        r
    }

    /// The bytes as a vector, for use as a seed.
    pub fn to_seed(&self) -> (r: Vec<u8>)
        ensures
            r@ == self@,
    {
        let mut r: Vec<u8> = Vec::new();
        let mut i: usize = 0;
        while i < 32
            invariant
                i <= 32,
                r@ == self@.subrange(0, i as int),
            decreases 32 - i,
        {
            r.push(self.bytes[i]);
            i = i + 1;
        }
        assert(r@ =~= self@);
        r
    }
}

/// The seed lists that the derivation accepts: at most 16 seeds of at most 32 bytes each.
pub open spec fn seeds_within_limits(seeds: Seq<Seq<u8>>) -> bool {
    seeds.len() <= 16 && forall|i: int| 0 <= i < seeds.len() ==> (#[trigger] seeds[i]).len() <= 32
}

/// The address derived from `seeds` under `program_id`, or `None` where the
/// hash of the seeds lies on the signing curve or the seeds are refused.
pub uninterp spec fn program_address(seeds: Seq<Seq<u8>>, program_id: Seq<u8>) -> Option<Seq<u8>>;

pub open spec fn address_view(a: Option<Address>) -> Option<Seq<u8>> {
    match a {
        Some(x) => Some(x@),
        None => None,
    }
}

/// Relies on solana_program's `Pubkey::create_program_address`: the result
/// depends on the seeds and the program id alone, and more than 16 seeds or a
/// seed longer than 32 bytes is refused.
#[verifier::external_body]
fn create_program_address(seeds: &Vec<Vec<u8>>, program_id: &Address) -> (r: Option<Address>)
    ensures
        address_view(r) == program_address(seeds.deep_view(), program_id@),
        !seeds_within_limits(seeds.deep_view()) ==> r is None,
{
    let refs: Vec<&[u8]> = seeds.iter().map(|s| s.as_slice()).collect();
    let program = Pubkey::new_from_array(program_id.bytes);
    Pubkey::create_program_address(&refs, &program).ok().map(|k| Address { bytes: k.to_bytes() })
}

/// The seeds followed by the one-byte bump seed.
pub open spec fn with_bump(seeds: Seq<Seq<u8>>, bump: u8) -> Seq<Seq<u8>> {
    seeds.push(seq![bump])
}

/// The highest bump in `1..=b` under which the seeds derive an address.
pub open spec fn bump_search(seeds: Seq<Seq<u8>>, program_id: Seq<u8>, b: int) -> Option<u8>
    decreases b,
{
    if b < 1 || b > 255 {
        None
    } else if program_address(with_bump(seeds, b as u8), program_id) is Some {
        Some(b as u8)
    } else {
        bump_search(seeds, program_id, b - 1)
    }
}

/// The canonical bump: the first one, searching from 255 down to 1, under
/// which the seeds derive an address.
pub open spec fn canonical_bump(seeds: Seq<Seq<u8>>, program_id: Seq<u8>) -> Option<u8> {
    bump_search(seeds, program_id, 255)
}

/// The address and bump that the canonical search finds, if any.
pub open spec fn canonical_address(seeds: Seq<Seq<u8>>, program_id: Seq<u8>) -> Option<(Seq<u8>, u8)> {
    match canonical_bump(seeds, program_id) {
        Some(b) => Some((program_address(with_bump(seeds, b), program_id).unwrap(), b)),
        None => None,
    }
}

pub open spec fn found_view(r: Option<(Address, u8)>) -> Option<(Seq<u8>, u8)> {
    match r {
        Some((a, b)) => Some((a@, b)),
        None => None,
    }
}

/// Relies on solana_program's `Pubkey::try_find_program_address`: it calls
/// `create_program_address` with the seeds and a last one-byte seed for bumps
/// 255 down to 1, and returns the first address found with its bump.
#[verifier::external_body]
fn try_find_program_address(seeds: &Vec<Vec<u8>>, program_id: &Address) -> (r: Option<(Address, u8)>)
    ensures
        found_view(r) == canonical_address(seeds.deep_view(), program_id@),
{
    let refs: Vec<&[u8]> = seeds.iter().map(|s| s.as_slice()).collect();
    let program = Pubkey::new_from_array(program_id.bytes);
    Pubkey::try_find_program_address(&refs, &program).map(|(k, b)| (Address { bytes: k.to_bytes() }, b))
}

/// Accepts `address` exactly when it is the derived one.
pub fn address_matches(derived: Option<Address>, address: &Address) -> (r: Result<(), AmmError>)
    ensures
        r is Ok <==> address_view(derived) == Some(address@),
        r is Err ==> r == Err::<(), AmmError>(AmmError::InvalidDerivedAddress),
{
    match derived {
        Some(d) => {
            if d == *address {
                Ok(())
            } else {
                Err(AmmError::InvalidDerivedAddress)
            }
        },
        None => Err(AmmError::InvalidDerivedAddress),
    }
}

/// Re-derives the address from `seeds` (the bump included) and accepts
/// `address` exactly when it is that address.
pub fn check_pda_with_bump(seeds: &Vec<Vec<u8>>, program_id: &Address, address: &Address) -> (r: Result<
    (),
    AmmError,
>)
    ensures
        r is Ok <==> program_address(seeds.deep_view(), program_id@) == Some(address@),
        r is Err ==> r == Err::<(), AmmError>(AmmError::InvalidDerivedAddress),
{
    let derived = create_program_address(seeds, program_id);
    address_matches(derived, address)
}

/// The bump of a search result whose address is `address`; a refusal otherwise.
pub open spec fn bump_for(found: Option<(Seq<u8>, u8)>, address: Seq<u8>) -> Result<u8, AmmError> {
    match found {
        Some((a, b)) => if a == address {
            Ok(b)
        } else {
            Err(AmmError::InvalidDerivedAddress)
        },
        None => Err(AmmError::InvalidDerivedAddress),
    }
}

/// Gives the bump of a canonical search result when its address is `address`.
pub fn bump_if_matches(found: Option<(Address, u8)>, address: &Address) -> (r: Result<u8, AmmError>)
    ensures
        r == bump_for(found_view(found), address@),
{
    match found {
        Some((a, b)) => {
            if a == *address {
                Ok(b)
            } else {
                Err(AmmError::InvalidDerivedAddress)
            }
        },
        None => Err(AmmError::InvalidDerivedAddress),
    }
}

/// Searches the canonical bump of `seeds` and accepts `address` exactly when
/// it is the address found; returns that bump.
pub fn check_pda_and_get_bump(seeds: &Vec<Vec<u8>>, program_id: &Address, address: &Address) -> (r: Result<
    u8,
    AmmError,
>)
    ensures
        r == bump_for(canonical_address(seeds.deep_view(), program_id@), address@),
{
    let found = try_find_program_address(seeds, program_id);
    bump_if_matches(found, address)
}

} // verus!
