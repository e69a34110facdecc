//! Account addresses, the derivation of addresses that no private key
//! controls, and the proof by which the program acts for such an address.

use vstd::prelude::*;
use anchor_lang::prelude::Pubkey;

verus! {

/// Longest seed that an address can be derived from.
pub const MAX_SEED_LEN: usize = 32;

/// Largest number of seeds, the bump included, that an address can be derived from.
pub const MAX_SEEDS: usize = 16;

/// The identity of an account: 32 bytes.
#[derive(Clone, Copy, Debug, PartialEq, Eq)]
pub struct Address {
    pub bytes: [u8; 32],
}

impl View for Address {
    type V = Seq<u8>;

    open spec fn view(&self) -> Seq<u8> {
        self.bytes@
    }
}

impl Address {
    /// Whether the two addresses hold the same bytes.
    pub fn same(&self, other: &Address) -> (b: bool)
        ensures
            b == (self@ == other@),
    {
        let mut i: usize = 0;
        while i < 32
            invariant
                i <= 32,
                forall|j: int| 0 <= j < i ==> self.bytes@[j] == other.bytes@[j],
            decreases 32 - i,
        {
            if self.bytes[i] != other.bytes[i] {
                return false;
            }
            i += 1;
        }
        assert(self.bytes@ =~= other.bytes@);
        true
    }
}

/// A derived address together with the bump that made it one.
#[derive(Clone, Copy, Debug, PartialEq, Eq)]
pub struct DerivedAddress {
    pub address: Address,
    pub bump: u8,
}

/// The proof that stands in for a signature of a derived address: the
/// namespace tag, the owner the account belongs to (if it is a per-user
/// account), and the bump.
#[derive(Clone, Debug, PartialEq, Eq)]
pub struct SignerSeeds {
    pub tag: Vec<u8>,
    pub owner: Option<Address>,
    pub bump: u8,
}

/// What `Pubkey::create_program_address` derives from `seeds` under
/// `program_id`: the 32 bytes of the address, or `None` where it reports an error.
pub uninterp spec fn program_address(seeds: Seq<Seq<u8>>, program_id: Seq<u8>) -> Option<Seq<u8>>;

/// What `Pubkey::try_find_program_address` finds for `seeds` under
/// `program_id`: the 32 bytes of the address and the bump, or `None`.
pub uninterp spec fn found_program_address(seeds: Seq<Seq<u8>>, program_id: Seq<u8>) -> Option<(Seq<u8>, u8)>;

/// The seeds as sequences of bytes.
pub open spec fn seeds_view(seeds: Seq<Vec<u8>>) -> Seq<Seq<u8>> {
    seeds.map_values(|s: Vec<u8>| s@)
}

/// Whether the seeds are few and short enough for an address to be derived from them.
pub open spec fn seeds_fit(seeds: Seq<Seq<u8>>) -> bool {
    &&& seeds.len() <= MAX_SEEDS
    &&& forall|i: int| 0 <= i < seeds.len() ==> (#[trigger] seeds[i]).len() <= MAX_SEED_LEN
}

/// The seeds of an account: its tag, then its owner's address if it has an owner.
pub open spec fn account_seeds(tag: Seq<u8>, owner: Option<Seq<u8>>) -> Seq<Seq<u8>> {
    match owner {
        Some(o) => seq![tag, o],
        None => seq![tag],
    }
}

/// The seeds with the bump added as the last seed.
pub open spec fn with_bump(seeds: Seq<Seq<u8>>, bump: u8) -> Seq<Seq<u8>> {
    seeds.push(seq![bump])
}

/// The owner's address as bytes, if there is an owner.
pub open spec fn owner_view(owner: Option<Address>) -> Option<Seq<u8>> {
    match owner {
        Some(o) => Some(o@),
        None => None,
    }
}

/// The seeds that a proof presents: tag, owner if any, bump.
pub open spec fn signer_seeds(tag: Seq<u8>, owner: Option<Seq<u8>>, bump: u8) -> Seq<Seq<u8>> {
    with_bump(account_seeds(tag, owner), bump)
}

impl SignerSeeds {
    /// The seeds that the proof presents: tag, owner if any, bump.
    pub open spec fn seeds(&self) -> Seq<Seq<u8>> {
        signer_seeds(self.tag@, owner_view(self.owner), self.bump)
    }
}

/// Whether presenting `seeds` authorizes acting for `address` under `program_id`:
/// the seeds derive exactly that address.
pub open spec fn authorizes(seeds: Seq<Seq<u8>>, address: Seq<u8>, program_id: Seq<u8>) -> bool {
    program_address(seeds, program_id) == Some(address)
}

/// The derived address of the account with this tag and owner, and its bump.
pub open spec fn derived(tag: Seq<u8>, owner: Option<Seq<u8>>, program_id: Seq<u8>) -> Option<(Seq<u8>, u8)> {
    found_program_address(account_seeds(tag, owner), program_id)
}

/// Calls `Pubkey::create_program_address`. The contract gives the derived address the
/// name `program_address`, and claims that seeds that are too many or too long give
/// an error, as the first lines of the outside function show.
#[verifier::external_body]
fn create_program_address(seeds: &Vec<Vec<u8>>, program_id: &Address) -> (r: Option<Address>)
    ensures
        r matches Some(a) ==> program_address(seeds_view(seeds@), program_id@) == Some(a@),
        r is None ==> program_address(seeds_view(seeds@), program_id@) is None,
        !seeds_fit(seeds_view(seeds@)) ==> r is None,
{
    let parts: Vec<&[u8]> = seeds.iter().map(|s| s.as_slice()).collect();
    match Pubkey::create_program_address(&parts, &Pubkey::new_from_array(program_id.bytes)) {
        Ok(key) => Some(Address { bytes: key.to_bytes() }),
        Err(_) => None,
    }
}

/// Calls `Pubkey::try_find_program_address`. The contract gives what it finds the name
/// `found_program_address`, and claims two things that the outside function's source
/// shows: the address found is the one that `Pubkey::create_program_address` derives
/// from the seeds with the bump as the last seed, and nothing is found where the
/// seeds with a bump are too many or too long.
#[verifier::external_body]
fn try_find_program_address(seeds: &Vec<Vec<u8>>, program_id: &Address) -> (r: Option<DerivedAddress>)
    ensures
        r matches Some(d) ==> found_program_address(seeds_view(seeds@), program_id@) == Some(
            (d.address@, d.bump),
        ),
        r matches Some(d) ==> program_address(
            with_bump(seeds_view(seeds@), d.bump),
            program_id@,
        ) == Some(d.address@),
        r is None ==> found_program_address(seeds_view(seeds@), program_id@) is None,
        !seeds_fit(with_bump(seeds_view(seeds@), 255)) ==> r is None,
{
    let parts: Vec<&[u8]> = seeds.iter().map(|s| s.as_slice()).collect();
    match Pubkey::try_find_program_address(&parts, &Pubkey::new_from_array(program_id.bytes)) {
        Some((key, bump)) => Some(DerivedAddress { address: Address { bytes: key.to_bytes() }, bump }),
        None => None,
    }
}

/// The bytes of an array as a vector.
pub fn bytes_of<const N: usize>(bytes: &[u8; N]) -> (v: Vec<u8>)
    ensures
        v@ == bytes@,
{
    let mut v: Vec<u8> = Vec::new();
    let mut i: usize = 0;
    while i < N
        invariant
            i <= N,
            v@ == bytes@.subrange(0, i as int),
        decreases N - i,
    {
        v.push(bytes[i]);
        i += 1;
    }
    v
}

/// A copy of the bytes.
fn copy_of(bytes: &Vec<u8>) -> (v: Vec<u8>)
    ensures
        v@ == bytes@,
{
    let mut v: Vec<u8> = Vec::new();
    let mut i: usize = 0;
    while i < bytes.len()
        invariant
            i <= bytes.len(),
            v@ == bytes@.subrange(0, i as int),
        decreases bytes.len() - i,
    {
        v.push(bytes[i]);
        i += 1;
    }
    v
}

/// The seeds of an account as vectors: its tag, then its owner's address if it has one.
fn seed_list(tag: &Vec<u8>, owner: &Option<Address>) -> (seeds: Vec<Vec<u8>>)
    ensures
        seeds_view(seeds@) == account_seeds(tag@, owner_view(*owner)),
{
    let mut seeds: Vec<Vec<u8>> = Vec::new();
    seeds.push(copy_of(tag));
    match owner {
        Some(o) => {
            seeds.push(bytes_of(&o.bytes));
        },
        None => {},
    }
    assert(seeds_view(seeds@) =~= account_seeds(tag@, owner_view(*owner)));
    seeds
}

/// Derives the address of the account with this tag and owner under `program_id`.
///
/// Gives `None` where no address can be derived; in particular where the tag is
/// longer than a seed may be. The address that comes back is one that the proof
/// made of the same tag, owner and bump authorizes.
pub fn derive_address(tag: &Vec<u8>, owner: &Option<Address>, program_id: &Address) -> (r: Option<DerivedAddress>)
    ensures
        r matches Some(d) ==> derived(tag@, owner_view(*owner), program_id@) == Some(
            (d.address@, d.bump),
        ),
        r matches Some(d) ==> authorizes(
            signer_seeds(tag@, owner_view(*owner), d.bump),
            d.address@,
            program_id@,
        ),
        r is None ==> derived(tag@, owner_view(*owner), program_id@) is None,
        tag@.len() > MAX_SEED_LEN ==> r is None,
{
    let seeds = seed_list(tag, owner);
    proof {
        if tag@.len() > MAX_SEED_LEN {
            let s = with_bump(seeds_view(seeds@), 255);
            assert(s[0] == tag@);
        }
    }
    try_find_program_address(&seeds, program_id)
}

/// Decides whether `proof` authorizes acting for `address` under `program_id`, by
/// deriving the address anew from the seeds of the proof and comparing.
pub fn authorize(proof: &SignerSeeds, address: &Address, program_id: &Address) -> (b: bool)
    ensures
        b == authorizes(proof.seeds(), address@, program_id@),
{
    let mut seeds = seed_list(&proof.tag, &proof.owner);
    let mut last: Vec<u8> = Vec::new();
    last.push(proof.bump);
    seeds.push(last);
    assert(seeds_view(seeds@) =~= proof.seeds());
    match create_program_address(&seeds, program_id) {
        Some(a) => a.same(address),
        None => false,
    }
}

} // verus!
