//! Identities and addresses, and the deterministic derivation of the address
//! of an identity-scoped record from a domain tag and its owner.
use anchor_lang::solana_program::pubkey::{Pubkey, PubkeyError};
use vstd::prelude::*;

verus! {

/// Width in bytes of an identity or an address.
pub const ADDRESS_BYTES: usize = 32;

/// An identity or a storage address: 32 raw bytes.
#[derive(Debug, Clone, Copy)]
pub struct Address {
    pub bytes: [u8; 32],
}

impl View for Address {
    type V = Seq<u8>;

    open spec fn view(&self) -> Seq<u8> {
        self.bytes@
    }
}

impl PartialEq for Address {
    fn eq(&self, other: &Address) -> (r: bool) {
        let mut i: usize = 0;
        while i < ADDRESS_BYTES
            invariant
                0 <= i <= ADDRESS_BYTES,
                self@.len() == ADDRESS_BYTES,
                other@.len() == ADDRESS_BYTES,
                forall|j: int| 0 <= j < i ==> self@[j] == other@[j],
            decreases ADDRESS_BYTES - i,
        {
            if self.bytes[i] != other.bytes[i] {
                return false;
            }
            i = i + 1;
        }
        proof {
            assert(self@ =~= other@);
        }
        true
    }
}

impl vstd::std_specs::cmp::PartialEqSpecImpl for Address {
    open spec fn obeys_eq_spec() -> bool {
        true
    }

    open spec fn eq_spec(&self, other: &Address) -> bool {
        self@ == other@
    }
}

impl Eq for Address {
}

impl Address {
    /// The address made of the given bytes.
    pub fn new(bytes: [u8; 32]) -> (r: Address)
        ensures
            r@ == bytes@,
    {
        Address { bytes }
    }

    /// Whether two addresses hold the same bytes.
    pub fn same(&self, other: &Address) -> (r: bool)
        ensures
            r == (self@ == other@),
    {
        *self == *other
    }
}

#[verifier::external_type_specification]
#[verifier::external_body]
pub struct ExPubkeyError(PubkeyError);

/// The address, if any, that the host derives from a list of seeds and a
/// program id without searching for a bump.
pub uninterp spec fn program_address(seeds: Seq<Seq<u8>>, program_id: Seq<u8>) -> Option<Seq<u8>>;

/// The address and bump that the host's bump search finds, if any, for a
/// list of seeds and a program id.
pub uninterp spec fn found_program_address(seeds: Seq<Seq<u8>>, program_id: Seq<u8>) -> Option<(Seq<u8>, u8)>;

/// The seeds of an identity-scoped record: the domain tag and the owner.
pub open spec fn record_seeds(domain: Seq<u8>, owner: Seq<u8>) -> Seq<Seq<u8>> {
    seq![domain, owner]
}

/// The seeds of an identity-scoped record followed by its bump.
pub open spec fn record_seeds_with_bump(domain: Seq<u8>, owner: Seq<u8>, bump: u8) -> Seq<Seq<u8>> {
    seq![domain, owner, seq![bump]]
}

/// Relies on Pubkey::try_find_program_address: the search tries bumps from
/// 255 down and returns the first address that create_program_address
/// accepts, so the result is a function of the seeds and the program id.
#[verifier::external_body]
fn try_find_program_address(domain: &[u8], owner: &Address, program_id: &Address) -> (r: Option<(Address, u8)>)
    ensures
        match r {
            Some((a, b)) => found_program_address(record_seeds(domain@, owner@), program_id@)
                == Some((a@, b)) && program_address(
                record_seeds_with_bump(domain@, owner@, b),
                program_id@,
            ) == Some(a@),
            None => found_program_address(record_seeds(domain@, owner@), program_id@) is None,
        },
{
    let program = Pubkey::new_from_array(program_id.bytes);
    Pubkey::try_find_program_address(&[domain, &owner.bytes], &program).map(
        |(a, b)| (Address { bytes: a.to_bytes() }, b),
    )
}

/// Relies on Pubkey::create_program_address: the address, or an error, is a
/// function of the seeds and the program id.
#[verifier::external_body]
fn create_program_address(domain: &[u8], owner: &Address, bump: u8, program_id: &Address) -> (r:
    Result<Address, PubkeyError>)
    ensures
        match r {
            Ok(a) => program_address(record_seeds_with_bump(domain@, owner@, bump), program_id@)
                == Some(a@),
            Err(_) => program_address(
                record_seeds_with_bump(domain@, owner@, bump),
                program_id@,
            ) is None,
        },
{
    let program = Pubkey::new_from_array(program_id.bytes);
    Pubkey::create_program_address(&[domain, &owner.bytes, &[bump]], &program).map(
        |a| Address { bytes: a.to_bytes() },
    )
}

/// Derives the address and bump of the record that `owner` holds under the
/// domain tag `domain`.
pub fn derive_address(domain: &[u8], owner: &Address, program_id: &Address) -> (r: Option<
    (Address, u8),
>)
    ensures
        match r {
            Some((a, b)) => found_program_address(record_seeds(domain@, owner@), program_id@)
                == Some((a@, b)),
            None => found_program_address(record_seeds(domain@, owner@), program_id@) is None,
        },
        r matches Some((a, b)) ==> program_address(
            record_seeds_with_bump(domain@, owner@, b),
            program_id@,
        ) == Some(a@),
{
    try_find_program_address(domain, owner, program_id)
}

/// Re-derives the address that `owner` holds under `domain` from the bump
/// stored in its record.
pub fn rederive_address(domain: &[u8], owner: &Address, bump: u8, program_id: &Address) -> (r:
    Option<Address>)
    ensures
        match r {
            Some(a) => program_address(record_seeds_with_bump(domain@, owner@, bump), program_id@)
                == Some(a@),
            None => program_address(
                record_seeds_with_bump(domain@, owner@, bump),
                program_id@,
            ) is None,
        },
{
    match create_program_address(domain, owner, bump, program_id) {
        Ok(a) => Some(a),
        Err(_) => None,
    }
}

/// Whether a derivation gave exactly `address`.
pub open spec fn derived_is(derived: Option<Address>, address: Address) -> bool {
    derived matches Some(a) && a@ == address@
}

/// Whether `derived` is `address`.
pub fn is_derived(derived: &Option<Address>, address: &Address) -> (r: bool)
    ensures
        r == derived_is(*derived, *address),
{
    match derived {
        Some(a) => a.same(address),
        None => false,
    }
}

/// Derivation is deterministic: two derivations from the same domain tag,
/// owner and program give the same address and the same bump.
pub proof fn lemma_derivation_deterministic(
    domain: Seq<u8>,
    owner: Seq<u8>,
    program_id: Seq<u8>,
    first: Option<(Seq<u8>, u8)>,
    second: Option<(Seq<u8>, u8)>,
)
    requires
        first == found_program_address(record_seeds(domain, owner), program_id),
        second == found_program_address(record_seeds(domain, owner), program_id),
    ensures
        first == second,
{
}

} // verus!
