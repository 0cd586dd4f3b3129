use vstd::prelude::*;

use anchor_lang::solana_program::pubkey::Pubkey;

use crate::address::Address;

verus! {

/// What `Pubkey::try_find_program_address` returns for one seed and a
/// program id: the derived address and its bump, or nothing.
pub uninterp spec fn program_address(seed: Seq<u8>, program_id: Seq<u8>) -> Option<(Seq<u8>, u8)>;

/// Relies on `Pubkey::try_find_program_address`: it returns the first
/// off-curve address derived from the seeds, the program id and a bump,
/// or `None`; the result depends on its arguments alone.
#[verifier::external_body]
fn try_find_program_address(seed: &[u8], program_id: &Address) -> (r: Option<(Address, u8)>)
    ensures
        match r {
            Some(found) => program_address(seed@, program_id@) == Some((found.0@, found.1)),
            None => program_address(seed@, program_id@) is None,
        },
{
    let id = Pubkey::new_from_array(program_id.bytes);
    match Pubkey::try_find_program_address(&[seed], &id) {
        Some((key, bump)) => Some((Address { bytes: key.to_bytes() }, bump)),
        None => None,
    }
}

/// The seed of the custodian authority: the bytes of "escrow".
pub open spec fn custodian_seed_spec() -> Seq<u8> {
    seq![101u8, 115u8, 99u8, 114u8, 111u8, 119u8]
}

pub fn custodian_seed() -> (r: Vec<u8>)
    ensures
        r@ == custodian_seed_spec(),
{
    let r: Vec<u8> = vec![101u8, 115u8, 99u8, 114u8, 111u8, 119u8];
    assert(r@ =~= custodian_seed_spec());
    r
}

/// The custodian authority of a program: derived from the fixed seed and
/// the program id, with no private key behind it.
pub open spec fn custodian_of(program_id: Seq<u8>) -> Option<Seq<u8>> {
    match program_address(custodian_seed_spec(), program_id) {
        Some(found) => Some(found.0),
        None => None,
    }
}

pub(crate) fn custodian(program_id: &Address) -> (r: Option<Address>)
    ensures
        match r {
            Some(c) => custodian_of(program_id@) == Some(c@),
            None => custodian_of(program_id@) is None,
        },
{
    let seed = custodian_seed();
    match try_find_program_address(seed.as_slice(), program_id) {
        Some(found) => Some(found.0),
        None => None,
    }
}

} // verus!
