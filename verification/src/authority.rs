//! Derivation of the pool's signing authority: a deterministic mapping from
//! a fixed label and the program's own identity to an identity value and a
//! bump, involving no secret key. The derived identity authorizes transfers
//! out of the pool; a borrower's own signer authorizes transfers back in.
//! The two are distinct types, so the asymmetry is visible in signatures.

use vstd::prelude::*;

use crate::identity::Identity;

verus! {

/// The derived pool authority: the only identity that authorizes transfers
/// out of the pool, together with the bump that made the derivation land.
#[derive(Clone, Copy, Debug)]
pub struct PoolAuthority {
    pub id: Identity,
    pub bump: u8,
}

/// A borrower's own signing identity, supplied by the caller for one batch
/// only. Transfers back into the pool are authorized by this signer, never
/// by the derived pool authority.
#[derive(Clone, Copy, Debug)]
pub struct BorrowerSigner {
    pub id: Identity,
}

/// What the address derivation of the host environment yields for a seed
/// label and a program identity: the derived identity and its bump, or
/// nothing in the statistically improbable event that no bump lands. The
/// same label and program always yield the same result.
pub uninterp spec fn derived_authority(label: Seq<u8>, program: Seq<u8>) -> Option<(Seq<u8>, u8)>;

/// Relies on solana_pubkey::Pubkey::try_find_program_address: the derived
/// address and bump are a deterministic, sha256-based function of the seeds
/// and the program id alone, and None comes back only when no bump seed
/// yields an address off the ed25519 curve.
#[verifier::external_body]
fn find_authority(label: &[u8], program: &Identity) -> (r: Option<(Identity, u8)>)
    ensures
        r matches Some(p) ==> derived_authority(label@, program@) == Some((p.0@, p.1)),
        r is None ==> derived_authority(label@, program@) is None,
{
    let program_key = solana_pubkey::Pubkey::new_from_array(program.bytes);
    match solana_pubkey::Pubkey::try_find_program_address(&[label], &program_key) {
        Some((address, bump)) => Some((Identity { bytes: address.to_bytes() }, bump)),
        None => None,
    }
}

/// The fixed label from which the pool authority is derived: the bytes of
/// the word "protocol".
pub open spec fn protocol_label() -> Seq<u8> {
    seq![112u8, 114u8, 111u8, 116u8, 111u8, 99u8, 111u8, 108u8]
}

/// The bytes of the fixed pool-authority label, as a vector.
pub fn protocol_label_bytes() -> (r: Vec<u8>)
    ensures
        r@ == protocol_label(),
{
    let mut v: Vec<u8> = Vec::new();
    v.push(112);
    v.push(114);
    v.push(111);
    v.push(116);
    v.push(111);
    v.push(99);
    v.push(111);
    v.push(108);
    proof {
        assert(v@ =~= protocol_label());
    }
    v
}

/// Derive the pool authority of `program`: the identity that signs pool
/// outflows, reproducible by any caller from the fixed label and the program
/// identity alone. Returns `None` only when the derivation finds no usable
/// bump.
pub fn derive_pool_authority(program: &Identity) -> (r: Option<PoolAuthority>)
    ensures
        r matches Some(a) ==> derived_authority(protocol_label(), program@) == Some((a.id@, a.bump)),
        r is None ==> derived_authority(protocol_label(), program@) is None,
{
    let label = protocol_label_bytes();
    match find_authority(label.as_slice(), program) {
        Some(p) => Some(PoolAuthority { id: p.0, bump: p.1 }),
        None => None,
    }
}

} // verus!
