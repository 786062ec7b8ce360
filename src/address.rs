use anchor_lang::prelude::Pubkey;
use vstd::prelude::*;

verus! {

/// A 32-byte account address: a user's key, a mint, or a program-derived address.
#[derive(Clone, Copy, Debug)]
pub struct Address {
    pub bytes: [u8; 32],
}

impl View for Address {
    type V = Seq<u8>;

    open spec fn view(&self) -> Seq<u8> {
        self.bytes@
    }
}

impl Address {
    /// Byte-wise equality.
    pub fn same(&self, other: &Address) -> (r: bool)
        ensures
            r == (*self == *other),
            r == (self@ == other@),
    {
        let mut i: usize = 0;
        while i < 32
            invariant
                i <= 32,
                forall|j: int| 0 <= j < i ==> self@[j] == other@[j],
            decreases 32 - i,
        {
            if self.bytes[i] != other.bytes[i] {
                assert(self@[i as int] != other@[i as int]);
                return false;
            }
            i = i + 1;
        }
        assert(self@ =~= other@);
        assert forall|j: int| 0 <= j < 32 implies self.bytes[j] == other.bytes[j] by {}
        assert(self.bytes =~= other.bytes);
        true
    }

    /// The address as a seed.
    pub fn to_seed(&self) -> (r: Vec<u8>)
        ensures
            r@ == self@,
    {
        let mut v: Vec<u8> = Vec::new();
        let mut i: usize = 0;
        while i < 32
            invariant
                i <= 32,
                v@ == self@.subrange(0, i as int),
            decreases 32 - i,
        {
            v.push(self.bytes[i]);
            i = i + 1;
            assert(v@ =~= self@.subrange(0, i as int));
        }
        assert(self@.subrange(0, 32) =~= self@);
        v
    }
}

/// What `Pubkey::create_program_address` gives for these seeds under this program:
/// the derived address, or `None` where the seeds are refused or hash onto the curve.
pub uninterp spec fn program_address_of(seeds: Seq<Seq<u8>>, program: Seq<u8>) -> Option<Seq<u8>>;

/// What `Pubkey::try_find_program_address` gives for these seeds under this program:
/// the first derivable address and its bump, counting down from 255.
pub uninterp spec fn bump_search_of(seeds: Seq<Seq<u8>>, program: Seq<u8>) -> Option<(Seq<u8>, u8)>;

pub open spec fn address_view(a: Option<Address>) -> Option<Seq<u8>> {
    match a {
        Some(x) => Some(x@),
        None => None,
    }
}

pub open spec fn found_view(a: Option<(Address, u8)>) -> Option<(Seq<u8>, u8)> {
    match a {
        Some((x, b)) => Some((x@, b)),
        None => None,
    }
}

/// Relies on `Pubkey::create_program_address`: the address hashed from the seeds and the
/// program id, `None` where it refuses the seeds or the hash lies on the ed25519 curve.
#[verifier::external_body]
fn create_program_address(seeds: &Vec<Vec<u8>>, program: &Address) -> (r: Option<Address>)
    ensures
        address_view(r) == program_address_of(seeds.deep_view(), program@),
{
    let parts: Vec<&[u8]> = seeds.iter().map(|s| s.as_slice()).collect();
    match Pubkey::create_program_address(&parts, &Pubkey::from(program.bytes)) {
        Ok(k) => Some(Address { bytes: k.to_bytes() }),
        Err(_) => None,
    }
}

/// Relies on `Pubkey::try_find_program_address`: where it finds a bump, the address it
/// returns is what `create_program_address` gives for the seeds with that bump appended.
#[verifier::external_body]
fn try_find_program_address(seeds: &Vec<Vec<u8>>, program: &Address) -> (r: Option<(Address, u8)>)
    ensures
        found_view(r) == bump_search_of(seeds.deep_view(), program@),
        r matches Some((a, b)) ==> program_address_of(
            seeds.deep_view().push(seq![b]),
            program@,
        ) == Some(a@),
{
    let parts: Vec<&[u8]> = seeds.iter().map(|s| s.as_slice()).collect();
    Pubkey::try_find_program_address(&parts, &Pubkey::from(program.bytes)).map(
        |(k, b)| (Address { bytes: k.to_bytes() }, b),
    )
}

proof fn lemma_bytes_deep_view(v: Vec<u8>)
    ensures
        v.deep_view() == v@,
{
    assert(v.deep_view() =~= v@);
}

/// The seeds with a one-byte bump seed appended.
pub open spec fn with_bump(seeds: Seq<Seq<u8>>, bump: u8) -> Seq<Seq<u8>> {
    seeds.push(seq![bump])
}

/// Whether `address` is derived from `seeds` and `bump` under `program`.
pub open spec fn derives(address: Address, seeds: Seq<Seq<u8>>, bump: u8, program: Address) -> bool {
    program_address_of(with_bump(seeds, bump), program@) == Some(address@)
}

/// Finds the canonical derived address of `seeds` under `program` and its bump.
pub fn derive(seeds: &Vec<Vec<u8>>, program: &Address) -> (r: Option<(Address, u8)>)
    ensures
        found_view(r) == bump_search_of(seeds.deep_view(), program@),
        r matches Some((a, b)) ==> derives(a, seeds.deep_view(), b, *program),
{
    try_find_program_address(seeds, program)
}

/// Recomputes the address of `seeds` with `bump` under `program`, and compares it with
/// `address`.
pub fn verify(address: &Address, seeds: Vec<Vec<u8>>, bump: u8, program: &Address) -> (r: bool)
    ensures
        r == derives(*address, seeds.deep_view(), bump, *program),
{
    let ghost base = seeds.deep_view();
    let mut full = seeds;
    let mut last: Vec<u8> = Vec::new();
    last.push(bump);
    proof {
        lemma_bytes_deep_view(last);
    }
    full.push(last);
    assert(full.deep_view() =~= with_bump(base, bump));
    match create_program_address(&full, program) {
        Some(a) => a.same(address),
        None => false,
    }
}

/// The seed bytes of the word "escrow".
pub open spec fn escrow_tag() -> Seq<u8> {
    seq![101u8, 115u8, 99u8, 114u8, 111u8, 119u8]
}

/// The seed bytes of the word "state".
pub open spec fn state_tag() -> Seq<u8> {
    seq![115u8, 116u8, 97u8, 116u8, 101u8]
}

/// Little-endian bytes of a `u64`.
pub open spec fn le_bytes(x: u64) -> Seq<u8> {
    seq![
        x as u8,
        (x >> 8u64) as u8,
        (x >> 16u64) as u8,
        (x >> 24u64) as u8,
        (x >> 32u64) as u8,
        (x >> 40u64) as u8,
        (x >> 48u64) as u8,
        (x >> 56u64) as u8,
    ]
}

/// Seeds of the escrow record of `maker` opened with `seed`.
pub open spec fn escrow_seeds(maker: Address, seed: u64) -> Seq<Seq<u8>> {
    seq![escrow_tag(), maker@, le_bytes(seed)]
}

/// Seeds of the vault record of `owner`.
pub open spec fn state_seeds(owner: Address) -> Seq<Seq<u8>> {
    seq![state_tag(), owner@]
}

/// Seeds of the native vault that belongs to the record at `state`.
pub open spec fn vault_seeds(state: Address) -> Seq<Seq<u8>> {
    seq![state@]
}

fn u64_le_bytes(x: u64) -> (r: Vec<u8>)
    ensures
        r@ == le_bytes(x),
{
    let mut v: Vec<u8> = Vec::new();
    v.push(x as u8);
    v.push((x >> 8u64) as u8);
    v.push((x >> 16u64) as u8);
    v.push((x >> 24u64) as u8);
    v.push((x >> 32u64) as u8);
    v.push((x >> 40u64) as u8);
    v.push((x >> 48u64) as u8);
    v.push((x >> 56u64) as u8);
    assert(v@ =~= le_bytes(x));
    v
}

pub fn make_escrow_seeds(maker: &Address, seed: u64) -> (r: Vec<Vec<u8>>)
    ensures
        r.deep_view() == escrow_seeds(*maker, seed),
{
    let mut tag: Vec<u8> = Vec::new();
    tag.push(101u8);
    tag.push(115u8);
    tag.push(99u8);
    tag.push(114u8);
    tag.push(111u8);
    tag.push(119u8);
    assert(tag@ =~= escrow_tag());
    let key = maker.to_seed();
    let le = u64_le_bytes(seed);
    proof {
        lemma_bytes_deep_view(tag);
        lemma_bytes_deep_view(key);
        lemma_bytes_deep_view(le);
    }
    let mut r: Vec<Vec<u8>> = Vec::new();
    r.push(tag);
    r.push(key);
    r.push(le);
    assert(r.deep_view() =~= escrow_seeds(*maker, seed));
    r
}

pub fn make_state_seeds(owner: &Address) -> (r: Vec<Vec<u8>>)
    ensures
        r.deep_view() == state_seeds(*owner),
{
    let mut tag: Vec<u8> = Vec::new();
    tag.push(115u8);
    tag.push(116u8);
    tag.push(97u8);
    tag.push(116u8);
    tag.push(101u8);
    assert(tag@ =~= state_tag());
    let key = owner.to_seed();
    proof {
        lemma_bytes_deep_view(tag);
        lemma_bytes_deep_view(key);
    }
    let mut r: Vec<Vec<u8>> = Vec::new();
    r.push(tag);
    r.push(key);
    assert(r.deep_view() =~= state_seeds(*owner));
    r
}

pub fn make_vault_seeds(state: &Address) -> (r: Vec<Vec<u8>>)
    ensures
        r.deep_view() == vault_seeds(*state),
{
    let key = state.to_seed();
    proof {
        lemma_bytes_deep_view(key);
    }
    let mut r: Vec<Vec<u8>> = Vec::new();
    r.push(key);
    assert(r.deep_view() =~= vault_seeds(*state));
    r
}

} // verus!

verus! {

/// Two derivations of the escrow address from the same maker, seed and program give the
/// same address and the same bump.
pub proof fn derive_is_deterministic(
    maker: Address,
    seed: u64,
    program: Address,
    r1: Option<(Address, u8)>,
    r2: Option<(Address, u8)>,
)
    requires
        found_view(r1) == bump_search_of(escrow_seeds(maker, seed), program@),
        found_view(r2) == bump_search_of(escrow_seeds(maker, seed), program@),
    ensures
        r1 == r2,
{
    if let (Some((a1, _)), Some((a2, _))) = (r1, r2) {
        assert(a1.bytes =~= a2.bytes);
    }
}

} // verus!
