use vstd::prelude::*;

use crate::account_id::AccountId;
use crate::constants::LOCKER_SEED;

verus! {

/// What the host's program-derived-address search returns for the given seed
/// prefix, owner, token mint and program identities: the derived authority and
/// its bump seed, or nothing when no bump seed yields a valid address. The
/// result is a function of these inputs alone, so the escrow authority is
/// reproducible by any party that knows them.
pub uninterp spec fn custody_authority_of(
    seed: Seq<u8>,
    owner: Seq<u8>,
    token_mint: Seq<u8>,
    program: Seq<u8>,
) -> Option<(Seq<u8>, u8)>;

/// The keyless signing identity that exclusively controls the escrow holding
/// of one (owner, token mint) lock position, together with the bump seed that
/// completes its derivation proof.
pub struct CustodyAuthority {
    pub authority: AccountId,
    pub bump: u8,
}

/// Relies on `Pubkey::try_find_program_address`: the returned address and bump
/// seed are a deterministic function of the seed slices and the program
/// identity; it returns `None` only when no bump seed yields a valid derived
/// address.
#[verifier::external_body]
fn find_program_authority(
    seed: &[u8; 12],
    owner: &AccountId,
    token_mint: &AccountId,
    program: &AccountId,
) -> (r: Option<(AccountId, u8)>)
    ensures
        match r {
            Some(p) => custody_authority_of(seed@, owner@, token_mint@, program@) == Some(
                (p.0@, p.1),
            ),
            None => custody_authority_of(seed@, owner@, token_mint@, program@) is None,
        },
{
    let program_id = anchor_lang::prelude::Pubkey::new_from_array(program.bytes);
    let found = anchor_lang::prelude::Pubkey::try_find_program_address(
        &[&seed[..], &owner.bytes[..], &token_mint.bytes[..]],
        &program_id,
    );
    found.map(|(address, bump)| (AccountId { bytes: address.to_bytes() }, bump))
}

/// Derives the custody authority of the lock position keyed by
/// `(owner, token_mint)` under `program`. Deterministic: any party that knows
/// the inputs reproduces the same authority. Returns `None` only in the
/// statistically improbable case that no bump seed yields a valid authority
/// for the pair.
pub fn derive_custody_authority(
    owner: &AccountId,
    token_mint: &AccountId,
    program: &AccountId,
) -> (r: Option<CustodyAuthority>)
    ensures
        match r {
            Some(c) => custody_authority_of(LOCKER_SEED@, owner@, token_mint@, program@) == Some(
                (c.authority@, c.bump),
            ),
            None => custody_authority_of(LOCKER_SEED@, owner@, token_mint@, program@) is None,
        },
{
    match find_program_authority(&LOCKER_SEED, owner, token_mint, program) {
        Some(p) => Some(CustodyAuthority { authority: p.0, bump: p.1 }),
        None => None,
    }
}

/// The identity's bytes as an owned vector.
fn id_bytes(id: &AccountId) -> (r: Vec<u8>)
    ensures
        r@ == id@,
{
    let mut bytes: Vec<u8> = Vec::new();
    let mut i: usize = 0;
    while i < 32
        invariant
            0 <= i <= 32,
            bytes@ == id@.take(i as int),
        decreases 32 - i,
    {
        bytes.push(id.bytes[i]);
        i = i + 1;
    }
    proof {
        assert(bytes@ =~= id@);
    }
    bytes
}

/// The proof material the custody authority signs escrow movements with: the
/// locker seed prefix, the owner and token-mint identities, and the bump seed,
/// in derivation order.
pub fn signer_seeds(owner: &AccountId, token_mint: &AccountId, bump: u8) -> (r: Vec<Vec<u8>>)
    ensures
        r@.len() == 4,
        r@[0]@ == LOCKER_SEED@,
        r@[1]@ == owner@,
        r@[2]@ == token_mint@,
        r@[3]@ == seq![bump],
{
    let mut prefix: Vec<u8> = Vec::new();
    let mut i: usize = 0;
    while i < 12
        invariant
            0 <= i <= 12,
            prefix@ == LOCKER_SEED@.take(i as int),
        decreases 12 - i,
    {
        prefix.push(LOCKER_SEED[i]);
        i = i + 1;
    }
    proof {
        assert(prefix@ =~= LOCKER_SEED@);
    }
    let mut bump_bytes: Vec<u8> = Vec::new();
    bump_bytes.push(bump);
    proof {
        assert(bump_bytes@ =~= seq![bump]);
    }
    let mut seeds: Vec<Vec<u8>> = Vec::new();
    seeds.push(prefix);
    seeds.push(id_bytes(owner));
    seeds.push(id_bytes(token_mint));
    seeds.push(bump_bytes);
    seeds
}

} // verus!
