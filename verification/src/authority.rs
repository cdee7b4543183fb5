//! The custody authority: a deterministic address derived from the fixed
//! seed, the per-escrow secret and the program's own address. The program
//! proves control of it algorithmically, so it owns the locked asset between
//! initiation and settlement or cancellation.
use vstd::prelude::*;

use crate::KEY_LEN;

verus! {

/// The address (with its bump seed) that the host's program-address
/// derivation returns for the seed list `["escrow", pass]` under
/// `program_id`, or `None` in the statistically improbable event that no
/// bump seed yields a usable address. The derivation is a pure hash of its
/// inputs, so the result is a function of `pass` and `program_id` alone.
pub uninterp spec fn custody_authority(pass: Seq<u8>, program_id: Seq<u8>) -> Option<Seq<u8>>;

/// Relies on solana_program's Pubkey::try_find_program_address: derives the
/// custody authority for this escrow from the seed list `["escrow", pass]`
/// and the program's address. The derivation is deterministic, and a derived
/// address is always full width.
#[verifier::external_body]
pub(crate) fn derive_custody_authority(pass: &Vec<u8>, program_id: &Vec<u8>) -> (r: Option<
    Vec<u8>,
>)
    requires
        pass@.len() == KEY_LEN,
        program_id@.len() == KEY_LEN,
    ensures
        r matches Some(k) ==> custody_authority(pass@, program_id@) == Some(k@) && k@.len()
            == KEY_LEN,
        r is None ==> custody_authority(pass@, program_id@) is None,
{
    let pid = match solana_program::pubkey::Pubkey::try_from(program_id.as_slice()) {
        Ok(p) => p,
        Err(_) => return None,
    };
    let seeds: [&[u8]; 2] = [b"escrow", pass.as_slice()];
    match solana_program::pubkey::Pubkey::try_find_program_address(&seeds, &pid) {
        Some((address, _bump)) => Some(address.to_bytes().to_vec()),
        None => None,
    }
}

/// The recognized token-ledger program's address: the 32 bytes that the
/// base58 string `TokenkegQfeZyiNwAJbNbGKPFXCWuBvf9Ss623VQ5DA` decodes to.
pub open spec fn spec_token_ledger_id() -> Seq<u8> {
    seq![
        6u8,
        221u8,
        246u8,
        225u8,
        215u8,
        101u8,
        161u8,
        147u8,
        217u8,
        203u8,
        225u8,
        70u8,
        206u8,
        235u8,
        121u8,
        172u8,
        28u8,
        180u8,
        133u8,
        237u8,
        95u8,
        91u8,
        55u8,
        145u8,
        58u8,
        140u8,
        245u8,
        133u8,
        126u8,
        255u8,
        0u8,
        169u8,
    ]
}

/// The recognized token-ledger program's address, as a byte vector. Only an
/// account owned by this program is accepted as an asset-Y receiving account.
pub fn token_ledger_id() -> (r: Vec<u8>)
    ensures
        r@ == spec_token_ledger_id(),
        r@.len() == KEY_LEN,
{
    let r: Vec<u8> = vec![
        6u8, 221u8, 246u8, 225u8, 215u8, 101u8, 161u8, 147u8, 217u8, 203u8, 225u8, 70u8, 206u8,
        235u8, 121u8, 172u8, 28u8, 180u8, 133u8, 237u8, 95u8, 91u8, 55u8, 145u8, 58u8, 140u8,
        245u8, 133u8, 126u8, 255u8, 0u8, 169u8,
    ];
    proof {
        assert(r@ =~= spec_token_ledger_id());
    }
    r
}

} // verus!
