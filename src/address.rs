use vstd::prelude::*;
use crate::identity::Identity;
use anchor_lang::prelude::Pubkey;

verus! {

/// Seed tag of an apology record's address: the bytes of "apology".
pub open spec fn apology_tag() -> Seq<u8> {
    seq![97u8, 112, 111, 108, 111, 103, 121]
}

/// Seed tag of a vault's address: the bytes of "vault".
pub open spec fn vault_tag() -> Seq<u8> {
    seq![118u8, 97, 117, 108, 116]
}

/// The eight little-endian bytes of a nonce.
pub open spec fn nonce_bytes(nonce: i64) -> Seq<u8> {
    Seq::new(8, |i: int| ((nonce as u64) >> ((8 * i) as u64)) as u8)
}

/// Seeds of the record that `offender` opens for `victim` under `nonce`.
pub open spec fn apology_seeds(offender: Seq<u8>, victim: Seq<u8>, nonce: i64) -> Seq<Seq<u8>> {
    seq![apology_tag(), offender, victim, nonce_bytes(nonce)]
}

/// Seeds of the vault bound to the record at `apology`.
pub open spec fn vault_seeds(apology: Seq<u8>) -> Seq<Seq<u8>> {
    seq![vault_tag(), apology]
}

/// The address that the runtime derives for `seeds` under `program`: the
/// first bump seed, from 255 down to 1, whose hash lies off the curve; `None`
/// where no bump seed gives one or the seeds are too many or too long.
pub uninterp spec fn program_address(seeds: Seq<Seq<u8>>, program: Seq<u8>) -> Option<Seq<u8>>;

/// The view of an optional identity.
pub open spec fn opt_view(k: Option<Identity>) -> Option<Seq<u8>> {
    match k {
        Some(k) => Some(k@),
        None => None,
    }
}

/// Relies on `Pubkey::try_find_program_address` of solana-program: the
/// derived address depends on the seeds and the program id alone. At most
/// sixteen seeds of at most 32 bytes each are handed over, as the runtime
/// accepts.
#[verifier::external_body]
fn find_program_address(seeds: &Vec<Vec<u8>>, program: &Identity) -> (r: Option<Identity>)
    requires
        seeds@.len() <= 16,
        forall|i: int| 0 <= i < seeds@.len() ==> #[trigger] seeds@[i]@.len() <= 32,
    ensures
        opt_view(r) == program_address(seeds.deep_view(), program@),
{
    let slices: Vec<&[u8]> = seeds.iter().map(|s| s.as_slice()).collect();
    let program = Pubkey::new_from_array(program.bytes);
    Pubkey::try_find_program_address(&slices, &program).map(|(k, _)| Identity { bytes: k.to_bytes() })
}

/// The little-endian bytes of `nonce`, as the record's seed.
pub fn nonce_seed(nonce: i64) -> (r: Vec<u8>)
    ensures
        r@ == nonce_bytes(nonce),
{
    let n: u64 = nonce as u64;
    let mut r: Vec<u8> = Vec::new();
    let mut i: u64 = 0;
    while i < 8
        invariant
            0 <= i <= 8,
            n == nonce as u64,
            r@.len() == i,
            forall|j: int| 0 <= j < i ==> r@[j] == nonce_bytes(nonce)[j],
        decreases 8 - i,
    {
        r.push((n >> (8 * i)) as u8);
        i = i + 1;
    }
    assert(r@ =~= nonce_bytes(nonce));
    r
}

/// The address of the record that `offender` opens for `victim` under
/// `nonce`, or `None` where the runtime derives none.
pub fn apology_address(program: &Identity, offender: &Identity, victim: &Identity, nonce: i64) -> (r: Option<Identity>)
    ensures
        opt_view(r) == program_address(apology_seeds(offender@, victim@, nonce), program@),
{
    let tag: Vec<u8> = vec![97u8, 112, 111, 108, 111, 103, 121];
    let mut seeds: Vec<Vec<u8>> = Vec::new();
    seeds.push(tag);
    seeds.push(offender.to_vec());
    seeds.push(victim.to_vec());
    seeds.push(nonce_seed(nonce));
    proof {
        assert(seeds@[0]@ =~= apology_tag());
        assert forall|k: int| 0 <= k < 4 implies seeds@[k].deep_view() =~= seeds@[k]@ by {}
        assert(seeds.deep_view() =~= apology_seeds(offender@, victim@, nonce));
    }
    find_program_address(&seeds, program)
}

/// The address of the vault bound to the record at `apology`, or `None`
/// where the runtime derives none.
pub fn vault_address(program: &Identity, apology: &Identity) -> (r: Option<Identity>)
    ensures
        opt_view(r) == program_address(vault_seeds(apology@), program@),
{
    let tag: Vec<u8> = vec![118u8, 97, 117, 108, 116];
    let mut seeds: Vec<Vec<u8>> = Vec::new();
    seeds.push(tag);
    seeds.push(apology.to_vec());
    proof {
        assert(seeds@[0]@ =~= vault_tag());
        assert forall|k: int| 0 <= k < 2 implies seeds@[k].deep_view() =~= seeds@[k]@ by {}
        assert(seeds.deep_view() =~= vault_seeds(apology@));
    }
    find_program_address(&seeds, program)
}

} // verus!
