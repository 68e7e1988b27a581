//! Derived addresses: the seeds of each record kind and the search for a
//! program address from them.
use anchor_lang::prelude::Pubkey;
use vstd::prelude::*;

verus! {

/// What the program-address search returns for the given seeds and program
/// id: the address and its bump seed, or nothing when no bump seed works.
pub uninterp spec fn program_address(seeds: Seq<Seq<u8>>, program_id: Seq<u8>) -> Option<
    (Seq<u8>, u8),
>;

/// Relies on `Pubkey::try_find_program_address` of solana-program (re-exported
/// by anchor-lang): the search hashes the seeds, a bump seed and the program id,
/// so its result depends on those alone. It returns `None` rather than
/// panicking when no bump seed gives an address.
#[verifier::external_body]
fn try_find_program_address(seeds: &Vec<Vec<u8>>, program_id: &[u8; 32]) -> (r: Option<
    ([u8; 32], u8),
>)
    ensures
        program_address(seeds.deep_view(), program_id@) == match r {
            Some(p) => Some((p.0@, p.1)),
            None => None,
        },
{
    let s: Vec<&[u8]> = seeds.iter().map(|x| x.as_slice()).collect();
    let id = Pubkey::new_from_array(*program_id);
    Pubkey::try_find_program_address(&s, &id).map(|(k, b)| (k.to_bytes(), b))
}

/// The tag that starts the seeds of an organization record: "ngo".
pub open spec fn ngo_tag() -> Seq<u8> {
    seq![110u8, 103u8, 111u8]
}

/// The tag that starts the seeds of a batch record: "batch".
pub open spec fn batch_tag() -> Seq<u8> {
    seq![98u8, 97u8, 116u8, 99u8, 104u8]
}

/// The first `n` bytes of `x` in little-endian order.
pub open spec fn le_bytes(x: nat, n: nat) -> Seq<u8>
    decreases n,
{
    if n == 0 {
        Seq::empty()
    } else {
        seq![(x % 256) as u8] + le_bytes(x / 256, (n - 1) as nat)
    }
}

/// The seeds of the organization record of `admin`.
pub open spec fn ngo_seeds(admin: Seq<u8>) -> Seq<Seq<u8>> {
    seq![ngo_tag(), admin]
}

/// The seeds of the batch record of organization `ngo` at `batch_index`.
pub open spec fn batch_seeds(ngo: Seq<u8>, batch_index: u64) -> Seq<Seq<u8>> {
    seq![batch_tag(), ngo, le_bytes(batch_index as nat, 8)]
}

/// The address and bump seed of the organization record of `admin`.
pub open spec fn ngo_address(program_id: Seq<u8>, admin: Seq<u8>) -> Option<(Seq<u8>, u8)> {
    program_address(ngo_seeds(admin), program_id)
}

/// The address and bump seed of the batch record of `ngo` at `batch_index`.
pub open spec fn batch_address(program_id: Seq<u8>, ngo: Seq<u8>, batch_index: u64) -> Option<
    (Seq<u8>, u8),
> {
    program_address(batch_seeds(ngo, batch_index), program_id)
}

/// The bytes of a key, as a vector.
pub fn key_bytes(k: &[u8; 32]) -> (r: Vec<u8>)
    ensures
        r@ == k@,
{
    let mut r: Vec<u8> = Vec::new();
    let mut i: usize = 0;
    while i < 32
        invariant
            0 <= i <= 32,
            r@ == k@.subrange(0, i as int),
        decreases 32 - i,
    {
        r.push(k[i]);
        i = i + 1;
    }
    assert(r@ =~= k@);
    r
}

/// Whether two keys hold the same bytes.
pub fn same_key(a: &[u8; 32], b: &[u8; 32]) -> (r: bool)
    ensures
        r == (a@ == b@),
{
    let mut i: usize = 0;
    while i < 32
        invariant
            0 <= i <= 32,
            forall|j: int| 0 <= j < i ==> a@[j] == b@[j],
        decreases 32 - i,
    {
        if a[i] != b[i] {
            return false;
        }
        i = i + 1;
    }
    assert(a@ =~= b@);
    true
}

/// The eight bytes of `x` in little-endian order.
pub fn u64_le_bytes(x: u64) -> (r: Vec<u8>)
    ensures
        r@ == le_bytes(x as nat, 8),
{
    let mut r: Vec<u8> = Vec::new();
    let mut v: u64 = x;
    let mut i: usize = 0;
    while i < 8
        invariant
            0 <= i <= 8,
            r@ + le_bytes(v as nat, (8 - i) as nat) == le_bytes(x as nat, 8),
        decreases 8 - i,
    {
        let ghost before = r@;
        r.push((v % 256) as u8);
        assert(le_bytes(v as nat, (8 - i) as nat) == seq![(v % 256) as u8] + le_bytes(
            (v / 256) as nat,
            (8 - i - 1) as nat,
        ));
        assert(r@ + le_bytes((v / 256) as nat, (8 - i - 1) as nat) =~= before + le_bytes(
            v as nat,
            (8 - i) as nat,
        ));
        v = v / 256;
        i = i + 1;
    }
    assert(le_bytes(v as nat, 0) =~= Seq::<u8>::empty());
    assert(r@ =~= r@ + le_bytes(v as nat, 0));
    r
}

/// The seeds of the organization record of `admin`, as bytes.
fn ngo_seed_bytes(admin: &[u8; 32]) -> (r: Vec<Vec<u8>>)
    ensures
        r.deep_view() == ngo_seeds(admin@),
{
    let mut tag: Vec<u8> = Vec::new();
    tag.push(110u8);
    tag.push(103u8);
    tag.push(111u8);
    assert(tag@ =~= ngo_tag());
    let key = key_bytes(admin);
    let mut r: Vec<Vec<u8>> = Vec::new();
    r.push(tag);
    r.push(key);
    assert(r.deep_view()[0] == r@[0]@);
    assert(r.deep_view()[1] == r@[1]@);
    assert(r.deep_view() =~= ngo_seeds(admin@));
    r
}

/// The seeds of the batch record of `ngo` at `batch_index`, as bytes.
fn batch_seed_bytes(ngo: &[u8; 32], batch_index: u64) -> (r: Vec<Vec<u8>>)
    ensures
        r.deep_view() == batch_seeds(ngo@, batch_index),
{
    let mut tag: Vec<u8> = Vec::new();
    tag.push(98u8);
    tag.push(97u8);
    tag.push(116u8);
    tag.push(99u8);
    tag.push(104u8);
    assert(tag@ =~= batch_tag());
    let key = key_bytes(ngo);
    let index = u64_le_bytes(batch_index);
    let mut r: Vec<Vec<u8>> = Vec::new();
    r.push(tag);
    r.push(key);
    r.push(index);
    assert(r.deep_view()[0] == r@[0]@);
    assert(r.deep_view()[1] == r@[1]@);
    assert(r.deep_view()[2] == r@[2]@);
    assert(r.deep_view() =~= batch_seeds(ngo@, batch_index));
    r
}

/// The address and bump seed of the organization record of `admin`, or `None`
/// when no bump seed gives one.
pub fn find_ngo_address(program_id: &[u8; 32], admin: &[u8; 32]) -> (r: Option<([u8; 32], u8)>)
    ensures
        ngo_address(program_id@, admin@) == match r {
            Some(p) => Some((p.0@, p.1)),
            None => None,
        },
{
    let seeds = ngo_seed_bytes(admin);
    try_find_program_address(&seeds, program_id)
}

/// The address and bump seed of the batch record of `ngo` at `batch_index`, or
/// `None` when no bump seed gives one.
pub fn find_batch_address(program_id: &[u8; 32], ngo: &[u8; 32], batch_index: u64) -> (r: Option<
    ([u8; 32], u8),
>)
    ensures
        batch_address(program_id@, ngo@, batch_index) == match r {
            Some(p) => Some((p.0@, p.1)),
            None => None,
        },
{
    let seeds = batch_seed_bytes(ngo, batch_index);
    try_find_program_address(&seeds, program_id)
}

} // verus!
