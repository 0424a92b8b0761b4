//! Derivation of the two custody addresses of a sale, and the seeds that let
//! the program sign for them.
use vstd::prelude::*;

use crate::plan::{FlashSaleError, Pubkey};

verus! {

/// The program address and bump byte found for a list of seeds under a
/// program id, or none.
pub uninterp spec fn program_address(seeds: Seq<Seq<u8>>, program_id: Seq<u8>) -> Option<(Seq<u8>, u8)>;

/// The byte strings of a list of seeds.
pub open spec fn seeds_view(seeds: Seq<Vec<u8>>) -> Seq<Seq<u8>> {
    seeds.map_values(|s: Vec<u8>| s@)
}

/// Fewer seeds than the host's limit, with room left for the bump byte, and
/// none longer than 32 bytes.
pub open spec fn seeds_within_limits(seeds: Seq<Seq<u8>>) -> bool {
    seeds.len() < 16 && forall|i: int| 0 <= i < seeds.len() ==> (#[trigger] seeds[i]).len() <= 32
}

/// Relies on solana_program's `Pubkey::try_find_program_address`: a function
/// of the seeds and the program id, which gives up at once on seeds past the
/// host's limits.
#[verifier::external_body]
fn try_find_program_address(seeds: &Vec<Vec<u8>>, program_id: &Pubkey) -> (r: Option<(Pubkey, u8)>)
    ensures
        match r {
            Some((a, b)) => program_address(seeds_view(seeds@), program_id@) == Some((a@, b)),
            None => program_address(seeds_view(seeds@), program_id@) is None,
        },
        !seeds_within_limits(seeds_view(seeds@)) ==> r is None,
{
    let refs: Vec<&[u8]> = seeds.iter().map(|s| s.as_slice()).collect();
    let program = solana_program::pubkey::Pubkey::new_from_array(*program_id);
    solana_program::pubkey::Pubkey::try_find_program_address(&refs, &program)
        .map(|(a, b)| (a.to_bytes(), b))
}

/// The namespace of the account that holds the escrowed tokens.
pub open spec fn deposit_namespace() -> Seq<u8> {
    seq![100u8, 101, 112, 111, 115, 105, 116]
}

/// The namespace of the account that holds the sale record.
pub open spec fn sale_namespace() -> Seq<u8> {
    seq![115u8, 97, 108, 101]
}

/// The seeds of a sale's custody address.
pub open spec fn sale_seeds(namespace: Seq<u8>, item_name: Seq<u8>, mint: Seq<u8>, owner: Seq<u8>) -> Seq<Seq<u8>> {
    seq![namespace, item_name, mint, owner]
}

/// The address derived for a sale's seeds, if there is one.
pub open spec fn derived(namespace: Seq<u8>, item_name: Seq<u8>, mint: Seq<u8>, owner: Seq<u8>, program_id: Seq<u8>) -> Option<(Seq<u8>, u8)> {
    program_address(sale_seeds(namespace, item_name, mint, owner), program_id)
}

/// An address and the seeds, bump byte last, with which the program signs
/// for it.
pub struct DerivedAddress {
    pub address: Pubkey,
    pub signer_seeds: Vec<Vec<u8>>,
}

/// The namespace bytes of the deposit account.
pub fn deposit_namespace_bytes() -> (r: Vec<u8>)
    ensures
        r@ == deposit_namespace(),
{
    let r: Vec<u8> = vec![100u8, 101, 112, 111, 115, 105, 116];
    assert(r@ =~= deposit_namespace());
    r
}

/// The namespace bytes of the sale account.
pub fn sale_namespace_bytes() -> (r: Vec<u8>)
    ensures
        r@ == sale_namespace(),
{
    let r: Vec<u8> = vec![115u8, 97, 108, 101];
    assert(r@ =~= sale_namespace());
    r
}

/// Copies a byte vector.
pub fn copy_bytes(v: &Vec<u8>) -> (r: Vec<u8>)
    ensures
        r@ == v@,
{
    let mut out: Vec<u8> = Vec::new();
    let mut i: usize = 0;
    while i < v.len()
        invariant
            i <= v@.len(),
            out@ == v@.subrange(0, i as int),
        decreases v@.len() - i,
    {
        out.push(v[i]);
        i = i + 1;
        proof {
            assert(out@ =~= v@.subrange(0, i as int));
        }
    }
    assert(v@.subrange(0, v@.len() as int) =~= v@);
    out
}

/// The bytes of an address.
pub fn key_bytes(k: &Pubkey) -> (r: Vec<u8>)
    ensures
        r@ == k@,
{
    let mut out: Vec<u8> = Vec::new();
    let mut i: usize = 0;
    while i < 32
        invariant
            i <= 32,
            k@.len() == 32,
            out@ == k@.subrange(0, i as int),
        decreases 32 - i,
    {
        out.push(k[i]);
        i = i + 1;
        proof {
            assert(out@ =~= k@.subrange(0, i as int));
        }
    }
    assert(k@.subrange(0, 32) =~= k@);
    out
}

/// Derives the custody address of `(namespace, item_name, mint, owner)` under
/// `program_id`, with the seeds that sign for it; fails when no bump byte
/// gives a program address.
pub fn derive_address(
    namespace: &Vec<u8>,
    item_name: &Vec<u8>,
    mint: &Pubkey,
    owner: &Pubkey,
    program_id: &Pubkey,
) -> (r: Result<DerivedAddress, FlashSaleError>)
    ensures
        namespace@.len() > 32 || item_name@.len() > 32 ==> r == Err::<DerivedAddress, FlashSaleError>(
            FlashSaleError::DerivationFailed,
        ),
        namespace@.len() <= 32 && item_name@.len() <= 32 ==> match derived(namespace@, item_name@, mint@, owner@, program_id@) {
            Some((a, b)) => r is Ok && r->Ok_0.address@ == a && seeds_view(r->Ok_0.signer_seeds@)
                == sale_seeds(namespace@, item_name@, mint@, owner@).push(seq![b]),
            None => r == Err::<DerivedAddress, FlashSaleError>(FlashSaleError::DerivationFailed),
        },
        r is Ok ==> item_name@.len() <= 32,
{
    if namespace.len() > 32 || item_name.len() > 32 {
        return Err(FlashSaleError::DerivationFailed);
    }
    let mut seeds: Vec<Vec<u8>> = Vec::new();
    seeds.push(copy_bytes(namespace));
    seeds.push(copy_bytes(item_name));
    seeds.push(key_bytes(mint));
    seeds.push(key_bytes(owner));
    proof {
        assert(seeds_view(seeds@) =~= sale_seeds(namespace@, item_name@, mint@, owner@));
    }
    match try_find_program_address(&seeds, program_id) {
        Some((address, bump)) => {
            let ghost base = seeds@;
            let mut bump_seed: Vec<u8> = Vec::new();
            bump_seed.push(bump);
            assert(bump_seed@ =~= seq![bump]);
            seeds.push(bump_seed);
            proof {
                assert(seeds@ == base.push(bump_seed));
                assert(seeds_view(seeds@) =~= sale_seeds(namespace@, item_name@, mint@, owner@).push(seq![bump]));
            }
            Ok(DerivedAddress { address, signer_seeds: seeds })
        },
        None => Err(FlashSaleError::DerivationFailed),
    }
}

/// Derivation is a function of its seed tuple: equal tuples under one program
/// give the same address and bump byte, and distinct tuples never share a
/// seed list.
pub proof fn lemma_derivation_deterministic(
    namespace1: Seq<u8>,
    item_name1: Seq<u8>,
    mint1: Seq<u8>,
    owner1: Seq<u8>,
    namespace2: Seq<u8>,
    item_name2: Seq<u8>,
    mint2: Seq<u8>,
    owner2: Seq<u8>,
    program_id: Seq<u8>,
)
    ensures
        (namespace1, item_name1, mint1, owner1) == (namespace2, item_name2, mint2, owner2)
            ==> derived(namespace1, item_name1, mint1, owner1, program_id)
            == derived(namespace2, item_name2, mint2, owner2, program_id),
        (namespace1, item_name1, mint1, owner1) != (namespace2, item_name2, mint2, owner2)
            ==> sale_seeds(namespace1, item_name1, mint1, owner1)
            != sale_seeds(namespace2, item_name2, mint2, owner2),
{
    let s1 = sale_seeds(namespace1, item_name1, mint1, owner1);
    let s2 = sale_seeds(namespace2, item_name2, mint2, owner2);
    if s1 == s2 {
        assert(s1[0] == s2[0] && s1[1] == s2[1] && s1[2] == s2[2] && s1[3] == s2[3]);
    }
}

} // verus!
