//! Deterministic custody addresses. A poll's record and its vault live at
//! addresses derived from a namespace tag and the poll identifier; the
//! derivation is pure, so recomputing it at every access and comparing
//! address and nonce against what creation recorded is an authority check
//! that no private key can satisfy.

use crate::data::Identity;
use vstd::prelude::*;

verus! {

/// The namespace tag of poll record derivations: the bytes of "poll".
pub open spec fn poll_tag() -> Seq<u8> {
    seq![112u8, 111u8, 108u8, 108u8]
}

/// The namespace tag of vault derivations: the bytes of "vault".
pub open spec fn vault_tag() -> Seq<u8> {
    seq![118u8, 97u8, 117u8, 108u8, 116u8]
}

/// The namespace tag of the registry derivation: the bytes of "registry".
pub open spec fn registry_tag() -> Seq<u8> {
    seq![114u8, 101u8, 103u8, 105u8, 115u8, 116u8, 114u8, 121u8]
}

/// The seeds a poll record is derived from.
pub open spec fn poll_seeds(poll_id: Seq<u8>) -> Seq<Seq<u8>> {
    seq![poll_tag(), poll_id]
}

/// The seeds a poll's vault is derived from.
pub open spec fn vault_seeds(poll_id: Seq<u8>) -> Seq<Seq<u8>> {
    seq![vault_tag(), poll_id]
}

/// The seeds the registry record is derived from.
pub open spec fn registry_seeds() -> Seq<Seq<u8>> {
    seq![registry_tag()]
}

/// The address and nonce that the outside derivation returns for these seeds
/// under this program, or nothing when no viable nonce exists. The derivation
/// hashes its inputs, so the value is named rather than spelled out; it is a
/// function of the seeds and the program identity alone.
pub uninterp spec fn pda_of(seeds: Seq<Seq<u8>>, program_id: Seq<u8>) -> Option<(Seq<u8>, u8)>;

/// A derivation result, seen at the spec level.
pub open spec fn pda_view(r: Option<(Identity, u8)>) -> Option<(Seq<u8>, u8)> {
    match r {
        Some(p) => Some((p.0@, p.1)),
        None => None,
    }
}

/// Relies on Pubkey::try_find_program_address of the solana-pubkey crate,
/// which anchor_lang re-exports as solana_program::pubkey: it derives a
/// program address with no associated private key by hashing the seeds and
/// the program id, a pure function of those inputs alone. It returns None
/// only when no valid derivation exists for them: a seed over the length
/// cap, too many seeds, or no viable nonce.
#[verifier::external_body]
fn find_pda(seeds: &Vec<Vec<u8>>, program_id: &Identity) -> (r: Option<(Identity, u8)>)
    ensures
        pda_view(r) == pda_of(seeds.deep_view(), program_id@),
{
    let pid = anchor_lang::solana_program::pubkey::Pubkey::new_from_array(*program_id);
    let slices: Vec<&[u8]> = seeds.iter().map(|s| s.as_slice()).collect();
    anchor_lang::solana_program::pubkey::Pubkey::try_find_program_address(&slices, &pid)
        .map(|(a, b)| (a.to_bytes(), b))
}

fn poll_tag_bytes() -> (v: Vec<u8>)
    ensures
        v@ == poll_tag(),
{
    let mut v: Vec<u8> = Vec::new();
    v.push(112u8);
    v.push(111u8);
    v.push(108u8);
    v.push(108u8);
    proof {
        assert(v@ =~= poll_tag());
    }
    v
}

fn vault_tag_bytes() -> (v: Vec<u8>)
    ensures
        v@ == vault_tag(),
{
    let mut v: Vec<u8> = Vec::new();
    v.push(118u8);
    v.push(97u8);
    v.push(117u8);
    v.push(108u8);
    v.push(116u8);
    proof {
        assert(v@ =~= vault_tag());
    }
    v
}

fn registry_tag_bytes() -> (v: Vec<u8>)
    ensures
        v@ == registry_tag(),
{
    let mut v: Vec<u8> = Vec::new();
    v.push(114u8);
    v.push(101u8);
    v.push(103u8);
    v.push(105u8);
    v.push(115u8);
    v.push(116u8);
    v.push(114u8);
    v.push(121u8);
    proof {
        assert(v@ =~= registry_tag());
    }
    v
}

fn copy_bytes(src: &Vec<u8>) -> (r: Vec<u8>)
    ensures
        r@ == src@,
{
    let mut r: Vec<u8> = Vec::new();
    let mut i: usize = 0;
    while i < src.len()
        invariant
            0 <= i <= src.len(),
            r@ == src@.take(i as int),
        decreases src.len() - i,
    {
        r.push(src[i]);
        proof {
            assert(src@.take(i + 1).drop_last() =~= src@.take(i as int));
        }
        i = i + 1;
    }
    proof {
        assert(src@.take(src.len() as int) =~= src@);
    }
    r
}

/// Derive the custody address and nonce of the poll record for `poll_id`.
pub fn derive_poll_address(poll_id: &Vec<u8>, program_id: &Identity) -> (r: Option<(Identity, u8)>)
    ensures
        pda_view(r) == pda_of(poll_seeds(poll_id@), program_id@),
{
    let mut seeds: Vec<Vec<u8>> = Vec::new();
    seeds.push(poll_tag_bytes());
    seeds.push(copy_bytes(poll_id));
    proof {
        assert(seeds.deep_view() =~~= poll_seeds(poll_id@));
    }
    find_pda(&seeds, program_id)
}

/// Derive the custody address and nonce of the vault for `poll_id`.
pub fn derive_vault_address(poll_id: &Vec<u8>, program_id: &Identity) -> (r: Option<(Identity, u8)>)
    ensures
        pda_view(r) == pda_of(vault_seeds(poll_id@), program_id@),
{
    let mut seeds: Vec<Vec<u8>> = Vec::new();
    seeds.push(vault_tag_bytes());
    seeds.push(copy_bytes(poll_id));
    proof {
        assert(seeds.deep_view() =~~= vault_seeds(poll_id@));
    }
    find_pda(&seeds, program_id)
}

/// Derive the address and nonce of the process-wide registry record.
pub fn derive_registry_address(program_id: &Identity) -> (r: Option<(Identity, u8)>)
    ensures
        pda_view(r) == pda_of(registry_seeds(), program_id@),
{
    let mut seeds: Vec<Vec<u8>> = Vec::new();
    seeds.push(registry_tag_bytes());
    proof {
        assert(seeds.deep_view() =~~= registry_seeds());
    }
    find_pda(&seeds, program_id)
}

} // verus!
