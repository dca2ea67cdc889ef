//! Account identities: 32-byte public keys.

use vstd::prelude::*;
use vstd::std_specs::cmp::PartialEqSpecImpl;

verus! {

/// The identity of an account or of a program: 32 raw bytes.
#[derive(Clone, Copy, Debug, Eq)]
pub struct Pubkey {
    pub bytes: [u8; 32],
}

impl View for Pubkey {
    type V = Seq<u8>;

    open spec fn view(&self) -> Seq<u8> {
        self.bytes@
    }
}

/// Two 32-byte arrays with the same contents are the same array.
pub proof fn lemma_bytes32_equal(a: [u8; 32], b: [u8; 32])
    ensures
        (a@ == b@) <==> a == b,
{
    if a@ == b@ {
        assert(a =~= b);
    }
}

/// Compares two 32-byte arrays byte by byte.
pub fn bytes32_equal(a: &[u8; 32], b: &[u8; 32]) -> (same: bool)
    ensures
        same <==> *a == *b,
{
    let mut i: usize = 0;
    while i < 32
        invariant
            i <= 32,
            forall|j: int| 0 <= j < i ==> a@[j] == b@[j],
        decreases 32 - i,
    {
        if a[i] != b[i] {
            return false;
        }
        i += 1;
    }
    proof {
        assert(a@ =~= b@);
        lemma_bytes32_equal(*a, *b);
    }
    true
}

impl PartialEq for Pubkey {
    fn eq(&self, other: &Pubkey) -> (same: bool) {
        bytes32_equal(&self.bytes, &other.bytes)
    }
}

impl PartialEqSpecImpl for Pubkey {
    open spec fn obeys_eq_spec() -> bool {
        true
    }

    open spec fn eq_spec(&self, other: &Pubkey) -> bool {
        *self == *other
    }
}

/// The identity with the given 32 bytes.
pub open spec fn pubkey_of(bytes: Seq<u8>) -> Pubkey {
    choose|key: Pubkey| key@ == bytes
}

/// An identity is the one identity with its bytes.
pub proof fn lemma_pubkey_of_view(key: Pubkey)
    ensures
        pubkey_of(key@) == key,
{
    let chosen = pubkey_of(key@);
    assert(chosen@ == key@);
    lemma_bytes32_equal(chosen.bytes, key.bytes);
}

/// The address that the runtime derives for the program `program_id` from
/// the two seeds `seed` and `key`, together with the bump seed that the
/// search settled on; `None` where the search finds no address.
pub uninterp spec fn derived_address(seed: Seq<u8>, key: Seq<u8>, program_id: Seq<u8>) -> Option<
    (Seq<u8>, u8),
>;

/// Calls `solana_program::pubkey::Pubkey::try_find_program_address`, which
/// `anchor_lang` hands on, with the seeds `[seed, key]`. Nothing is claimed
/// of the address but that it is the one the SDK derives from these
/// arguments: the same seeds and program always give the same address and
/// bump, and none where the SDK finds none.
#[verifier::external_body]
fn derive_address(seed: &[u8], key: &Pubkey, program_id: &Pubkey) -> (found: Option<(Pubkey, u8)>)
    ensures
        match found {
            Some((address, bump)) => derived_address(seed@, key@, program_id@) == Some(
                (address@, bump),
            ),
            None => derived_address(seed@, key@, program_id@) is None,
        },
{
    let program = anchor_lang::prelude::Pubkey::new_from_array(program_id.bytes);
    match anchor_lang::prelude::Pubkey::try_find_program_address(&[seed, &key.bytes], &program) {
        Some((address, bump)) => Some((Pubkey { bytes: address.to_bytes() }, bump)),
        None => None,
    }
}

/// The address derived for `program_id` from `seed` and `key`, as an
/// identity, with its bump.
pub open spec fn spec_find_program_address(seed: Seq<u8>, key: Pubkey, program_id: Pubkey) -> Option<
    (Pubkey, u8),
> {
    match derived_address(seed, key@, program_id@) {
        Some((address, bump)) => Some((pubkey_of(address), bump)),
        None => None,
    }
}

/// Finds the address that belongs to the program `program_id` under the
/// seeds `seed` and `key`, and the bump seed that goes with it.
pub fn find_program_address(seed: &[u8], key: &Pubkey, program_id: &Pubkey) -> (found: Option<
    (Pubkey, u8),
>)
    ensures
        found == spec_find_program_address(seed@, *key, *program_id),
{
    let found = derive_address(seed, key, program_id);
    proof {
        if let Some((address, bump)) = found {
            lemma_pubkey_of_view(address);
        }
    }
    found
}

impl Pubkey {
    /// The identity made of the given bytes.
    pub fn new_from_array(bytes: [u8; 32]) -> (key: Pubkey)
        ensures
            key.bytes == bytes,
    {
        Pubkey { bytes }
    }

    /// The bytes of this identity.
    pub fn to_bytes(&self) -> (bytes: [u8; 32])
        ensures
            bytes == self.bytes,
    {
        self.bytes
    }
}

} // verus!
