//! Deterministic derivation of the custody authority's address.
use vstd::prelude::*;

use crate::key::Pubkey;

verus! {

/// The program-derived address, with its bump seed, that the runtime finds
/// for a single seed under a program identity; `None` when no bump seed
/// yields an address off the curve.
pub uninterp spec fn program_address(seed: Seq<u8>, program_id: Seq<u8>) -> Option<(Seq<u8>, u8)>;

/// The view of a derived address with its bump seed.
pub open spec fn derived_view(d: Option<(Pubkey, u8)>) -> Option<(Seq<u8>, u8)> {
    match d {
        Some((k, b)) => Some((k@, b)),
        None => None,
    }
}

/// Relies on `Pubkey::try_find_program_address` (anchor-lang's re-export of
/// solana-address): a pure function of the seeds and the program identity,
/// which returns `None` rather than panicking.
#[verifier::external_body]
pub(crate) fn find_custody_address(seed: &Vec<u8>, program_id: &Pubkey) -> (r: Option<(Pubkey, u8)>)
    ensures
        derived_view(r) == program_address(seed@, program_id@),
{
    let program = anchor_lang::prelude::Pubkey::new_from_array(program_id.bytes);
    match anchor_lang::prelude::Pubkey::try_find_program_address(&[seed.as_slice()], &program) {
        Some((k, b)) => Some((Pubkey { bytes: k.to_bytes() }, b)),
        None => None,
    }
}

} // verus!
