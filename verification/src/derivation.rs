//! Deterministic derivation of keyless addresses.
//!
//! An address is derived from a domain tag, an input address and a one-byte
//! disambiguation nonce. The nonce of a derivation is the largest value for
//! which an address exists; an account at such an address has no private key,
//! and authority over it is shown by presenting the derivation inputs again.

use crate::address::Address;
use anchor_lang::prelude::Pubkey;
use anchor_lang::solana_program::pubkey::PubkeyError;
use vstd::prelude::*;

verus! {

/// Domain tag of a record's address, which is derived from its owner: the
/// bytes of `state`.
pub const STATE_TAG: [u8; 5] = [115, 116, 97, 116, 101];

/// Domain tag of a holding account's address, which is derived from its
/// record: the bytes of `vault`.
pub const VAULT_TAG: [u8; 5] = [118, 97, 117, 108, 116];

/// The error type of `Pubkey::create_program_address`; its values are only carried.
#[verifier::external_type_specification]
#[verifier::external_body]
pub struct ExPubkeyError(PubkeyError);

/// The address that `Pubkey::create_program_address` computes from `seeds`
/// under `program_id`, and `None` where it reports an error.
pub uninterp spec fn program_address(seeds: Seq<Seq<u8>>, program_id: Seq<u8>) -> Option<Seq<u8>>;

/// The seed list of a derivation: the tag, the input, then the nonce as one byte.
pub open spec fn seeds_with_nonce(tag: Seq<u8>, input: Seq<u8>, nonce: u8) -> Seq<Seq<u8>> {
    seq![tag, input, seq![nonce]]
}

/// The address derived under `program_id` from `tag`, `input` and `nonce`,
/// where one exists.
pub open spec fn address_at(
    program_id: Seq<u8>,
    tag: Seq<u8>,
    input: Seq<u8>,
    nonce: u8,
) -> Option<Seq<u8>> {
    program_address(seeds_with_nonce(tag, input, nonce), program_id)
}

/// `nonce` is the nonce of the derivation: the largest value, zero left out,
/// at which an address exists.
pub open spec fn is_canonical(
    program_id: Seq<u8>,
    tag: Seq<u8>,
    input: Seq<u8>,
    nonce: u8,
) -> bool {
    &&& nonce >= 1
    &&& address_at(program_id, tag, input, nonce) is Some
    &&& forall|n: u8| nonce < n ==> address_at(program_id, tag, input, n) is None
}

/// The derivation of `tag` and `input` yields `address` with `nonce`.
pub open spec fn derives_to(
    program_id: Seq<u8>,
    tag: Seq<u8>,
    input: Seq<u8>,
    address: Seq<u8>,
    nonce: u8,
) -> bool {
    &&& is_canonical(program_id, tag, input, nonce)
    &&& address_at(program_id, tag, input, nonce) == Some(address)
}

/// No nonce gives `tag` and `input` an address.
pub open spec fn underivable(program_id: Seq<u8>, tag: Seq<u8>, input: Seq<u8>) -> bool {
    forall|n: u8| n >= 1 ==> address_at(program_id, tag, input, n) is None
}

/// What a call of `Pubkey::create_program_address` returned, as plain bytes.
pub open spec fn returned_address(r: Result<Address, PubkeyError>) -> Option<Seq<u8>> {
    match r {
        Ok(address) => Some(address@),
        Err(_) => None,
    }
}

/// What a derivation returned, as plain bytes.
pub open spec fn returned_derivation(r: Option<(Address, u8)>) -> Option<(Seq<u8>, u8)> {
    match r {
        Some((address, nonce)) => Some((address@, nonce)),
        None => None,
    }
}

/// Calls `Pubkey::create_program_address` on the seeds `[tag, input, [nonce]]`.
/// Claimed of it: what it returns is the named address of exactly these
/// seeds under this program, an error standing for `None`.
#[verifier::external_body]
fn create_program_address(
    program_id: &Address,
    tag: &[u8],
    input: &Address,
    nonce: u8,
) -> (r: Result<Address, PubkeyError>)
    ensures
        returned_address(r) == program_address(seeds_with_nonce(tag@, input@, nonce), program_id@),
{
    let id = Pubkey::new_from_array(program_id.bytes);
    match Pubkey::create_program_address(&[tag, &input.bytes, &[nonce]], &id) {
        Ok(key) => Ok(Address { bytes: key.to_bytes() }),
        Err(e) => Err(e),
    }
}

/// Calls `Pubkey::try_find_program_address` on the seeds `[tag, input]`.
/// Claimed of it: it tries the nonces from 255 down to 1 and returns the first
/// at which `create_program_address` yields an address, with that address;
/// it returns `None` where no nonce in that range yields one.
#[verifier::external_body]
fn try_find_program_address(
    program_id: &Address,
    tag: &[u8],
    input: &Address,
) -> (r: Option<(Address, u8)>)
    ensures
        r matches Some((a, n)) ==> derives_to(program_id@, tag@, input@, a@, n),
        r is None ==> underivable(program_id@, tag@, input@),
{
    let id = Pubkey::new_from_array(program_id.bytes);
    match Pubkey::try_find_program_address(&[tag, &input.bytes], &id) {
        Some((key, nonce)) => Some((Address { bytes: key.to_bytes() }, nonce)),
        None => None,
    }
}

/// What the derivation of `tag` and `input` yields: the address and its
/// nonce, or `None` where no nonce gives them an address.
pub open spec fn derived(
    program_id: Seq<u8>,
    tag: Seq<u8>,
    input: Seq<u8>,
) -> Option<(Seq<u8>, u8)> {
    if exists|n: u8| is_canonical(program_id, tag, input, n) {
        let nonce = choose|n: u8| is_canonical(program_id, tag, input, n);
        Some((address_at(program_id, tag, input, nonce)->Some_0, nonce))
    } else {
        None
    }
}

/// The nonce with which the derivation of `tag` and `input` yields `address`;
/// `None` where it yields another address, or none.
pub open spec fn nonce_to(
    program_id: Seq<u8>,
    tag: Seq<u8>,
    input: Seq<u8>,
    address: Seq<u8>,
) -> Option<u8> {
    match derived(program_id, tag, input) {
        Some((a, nonce)) => if a == address {
            Some(nonce)
        } else {
            None
        },
        None => None,
    }
}

/// Derives the address and nonce that belong to `tag` and `input`.
///
/// `None` is returned only where no nonce yields an address.
pub fn derive(program_id: &Address, tag: &[u8], input: &Address) -> (r: Option<(Address, u8)>)
    ensures
        returned_derivation(r) == derived(program_id@, tag@, input@),
{
    let r = try_find_program_address(program_id, tag, input);
    proof {
        derived_is_the_largest(program_id@, tag@, input@);
    }
    r
}

/// Whether `claimed` is the address derived from `tag`, `input` and `nonce`.
pub fn verify(
    program_id: &Address,
    tag: &[u8],
    input: &Address,
    nonce: u8,
    claimed: &Address,
) -> (ok: bool)
    ensures
        ok == (address_at(program_id@, tag@, input@, nonce) == Some(claimed@)),
{
    match create_program_address(program_id, tag, input, nonce) {
        Ok(a) => a.same(claimed),
        Err(_) => false,
    }
}

/// Derives afresh and gives the nonce if the address that comes out is
/// `claimed`.
pub fn nonce_for(
    program_id: &Address,
    tag: &[u8],
    input: &Address,
    claimed: &Address,
) -> (r: Option<u8>)
    ensures
        r == nonce_to(program_id@, tag@, input@, claimed@),
{
    match derive(program_id, tag, input) {
        Some((a, n)) => if a.same(claimed) {
            Some(n)
        } else {
            None
        },
        None => None,
    }
}

/// Below `bound` and above it no nonce has an address, or some nonce is the
/// largest that has one.
proof fn largest_exists(program_id: Seq<u8>, tag: Seq<u8>, input: Seq<u8>, bound: u8)
    requires
        forall|n: u8| bound < n ==> address_at(program_id, tag, input, n) is None,
    ensures
        underivable(program_id, tag, input)
            || exists|n: u8| is_canonical(program_id, tag, input, n),
    decreases bound,
{
    if bound >= 1 {
        if address_at(program_id, tag, input, bound) is Some {
            assert(is_canonical(program_id, tag, input, bound));
        } else {
            largest_exists(program_id, tag, input, (bound - 1) as u8);
        }
    }
}

/// What `derived` stands for: the address at the largest nonce that has one,
/// and `None` exactly where no nonce from 1 to 255 has an address.
pub proof fn derived_is_the_largest(program_id: Seq<u8>, tag: Seq<u8>, input: Seq<u8>)
    ensures
        forall|a: Seq<u8>, n: u8|
            #[trigger] derives_to(program_id, tag, input, a, n)
                <==> derived(program_id, tag, input) == Some((a, n)),
        derived(program_id, tag, input) is None <==> underivable(program_id, tag, input),
{
    largest_exists(program_id, tag, input, 255);
}

/// A derivation has one outcome, and the address it yields verifies against
/// the nonce it yields.
pub proof fn derivation_is_deterministic(
    program_id: Seq<u8>,
    tag: Seq<u8>,
    input: Seq<u8>,
    a1: Seq<u8>,
    n1: u8,
    a2: Seq<u8>,
    n2: u8,
)
    requires
        derives_to(program_id, tag, input, a1, n1),
        derives_to(program_id, tag, input, a2, n2),
    ensures
        a1 == a2,
        n1 == n2,
        address_at(program_id, tag, input, n1) == Some(a1),
        nonce_to(program_id, tag, input, a1) == Some(n1),
{
    derived_is_the_largest(program_id, tag, input);
}

} // verus!
