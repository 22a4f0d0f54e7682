//! Plain-value types shared by the metadata records and the deposit checks.

use vstd::prelude::*;

verus! {

/// A 32-byte hash.
pub type Hash256 = [u8; 32];

/// The hash whose bytes are all zero.
pub const ZERO_HASH: Hash256 = [
    0, 0, 0, 0, 0, 0, 0, 0, 0, 0, 0, 0, 0, 0, 0, 0,
    0, 0, 0, 0, 0, 0, 0, 0, 0, 0, 0, 0, 0, 0, 0, 0,
];

/// The 48 bytes of a validator's public key.
pub type PublicKeyBytes = [u8; 48];

/// The 96 bytes of a signature.
pub type SignatureBytes = [u8; 96];

/// A slot number.
#[derive(Clone, Copy, Debug, PartialEq, Eq, Structural, PartialOrd, Ord, Hash)]
pub struct Slot(pub u64);

/// An epoch number.
#[derive(Clone, Copy, Debug, PartialEq, Eq, Structural, PartialOrd, Ord, Hash)]
pub struct Epoch(pub u64);

impl Slot {
    pub fn new(slot: u64) -> (s: Slot)
        ensures
            s.0 == slot,
    {
        Slot(slot)
    }

    pub fn as_u64(self) -> (v: u64)
        ensures
            v == self.0,
    {
        self.0
    }

    /// The epoch that contains this slot, when every epoch spans `slots_per_epoch` slots.
    pub fn epoch(self, slots_per_epoch: u64) -> (e: Epoch)
        requires
            slots_per_epoch > 0,
        ensures
            e.0 == self.0 / slots_per_epoch,
    {
        Epoch(self.0 / slots_per_epoch)
    }
}

/// The slot number that, as a state upper limit, marks a node that keeps no historic states.
pub const STATE_UPPER_LIMIT_NO_RETAIN: u64 = 0xffff_ffff_ffff_ffff;

/// A block root together with the epoch in which the block stands.
#[derive(Clone, Copy, Debug, PartialEq, Eq)]
pub struct Checkpoint {
    pub epoch: Epoch,
    pub root: Hash256,
}

/// Whether two byte strings hold the same bytes.
pub fn bytes_eq(a: &[u8], b: &[u8]) -> (same: bool)
    ensures
        same == (a@ == b@),
{
    if a.len() != b.len() {
        return false;
    }
    let mut i: usize = 0;
    while i < a.len()
        invariant
            a@.len() == b@.len(),
            i <= a@.len(),
            forall|j: int| 0 <= j < i ==> a@[j] == b@[j],
        decreases a@.len() - i,
    {
        if a[i] != b[i] {
            return false;
        }
        i += 1;
    }
    assert(a@ =~= b@);
    true
}

/// Whether two hashes are the same.
pub fn hash_eq(a: &Hash256, b: &Hash256) -> (same: bool)
    ensures
        same == (*a == *b),
        same == (a@ == b@),
{
    let same = bytes_eq(a.as_slice(), b.as_slice());
    proof {
        if same {
            assert(*a =~= *b);
        }
    }
    same
}

/// Whether two public keys are the same.
pub fn public_key_eq(a: &PublicKeyBytes, b: &PublicKeyBytes) -> (same: bool)
    ensures
        same == (*a == *b),
        same == (a@ == b@),
{
    let same = bytes_eq(a.as_slice(), b.as_slice());
    proof {
        if same {
            assert(*a =~= *b);
        }
    }
    same
}

/// The two versions of a fork and the epoch at which the later one took over.
#[derive(Clone, Copy, Debug, PartialEq, Eq)]
pub struct Fork {
    pub previous_version: [u8; 4],
    pub current_version: [u8; 4],
    pub epoch: Epoch,
}

/// What the chain last learned of the deposit contract.
#[derive(Clone, Copy, Debug, PartialEq, Eq)]
pub struct Eth1Data {
    /// The Merkle root over all deposits that the contract has recorded.
    pub deposit_root: Hash256,
    pub block_hash: Hash256,
}

/// What deposit validation reads of a registered validator.
#[derive(Clone, Copy, Debug, PartialEq, Eq)]
pub struct Validator {
    pub pubkey: PublicKeyBytes,
    pub withdrawal_credentials: Hash256,
}

/// The constants of the chain that deposit validation reads.
#[derive(Clone, Copy, Debug, PartialEq, Eq)]
pub struct ChainSpec {
    pub slots_per_epoch: u64,
    pub deposit_contract_tree_depth: u64,
}

/// What deposit validation reads of the chain state.
#[derive(Clone, Debug, PartialEq, Eq)]
pub struct BeaconState {
    pub slot: Slot,
    pub fork: Fork,
    /// The index that the next admitted deposit must carry.
    pub deposit_index: u64,
    /// The registered validators, each at its validator index.
    pub validator_registry: Vec<Validator>,
    pub latest_eth1_data: Eth1Data,
}

/// The index of the first validator from `from` on that has the key `pubkey`.
pub open spec fn spec_validator_index_from(
    registry: Seq<Validator>,
    pubkey: PublicKeyBytes,
    from: nat,
) -> Option<usize>
    decreases registry.len() - from,
{
    if from >= registry.len() {
        None
    } else if registry[from as int].pubkey == pubkey {
        Some(from as usize)
    } else {
        spec_validator_index_from(registry, pubkey, from + 1)
    }
}

/// The validator index under which `pubkey` is registered, if it is.
pub open spec fn spec_validator_index(registry: Seq<Validator>, pubkey: PublicKeyBytes) -> Option<
    usize,
> {
    spec_validator_index_from(registry, pubkey, 0)
}

/// The index that a lookup gives is the least one that holds the key, and a lookup
/// gives none only if no validator holds it.
pub proof fn lemma_validator_index(registry: Seq<Validator>, pubkey: PublicKeyBytes, from: nat)
    requires
        registry.len() <= usize::MAX,
    ensures
        match spec_validator_index_from(registry, pubkey, from) {
            Some(i) => {
                &&& from <= i < registry.len()
                &&& registry[i as int].pubkey == pubkey
                &&& forall|j: int| from <= j < i ==> registry[j].pubkey != pubkey
            },
            None => forall|j: int| from <= j < registry.len() ==> registry[j].pubkey != pubkey,
        },
    decreases registry.len() - from,
{
    if from < registry.len() && registry[from as int].pubkey != pubkey {
        lemma_validator_index(registry, pubkey, from + 1);
    }
}

/// Whether no two validators hold the same key, as is the case in the registry of
/// every chain state.
pub open spec fn spec_keys_distinct(registry: Seq<Validator>) -> bool {
    forall|i: int, j: int|
        0 <= i < j < registry.len() ==> registry[i].pubkey != registry[j].pubkey
}

/// Where no two validators hold the same key, a lookup gives the one index that holds
/// the key.
pub proof fn lemma_validator_index_unique(
    registry: Seq<Validator>,
    pubkey: PublicKeyBytes,
    index: int,
)
    requires
        registry.len() <= usize::MAX,
        spec_keys_distinct(registry),
        0 <= index < registry.len(),
        registry[index].pubkey == pubkey,
    ensures
        spec_validator_index(registry, pubkey) == Some(index as usize),
{
    lemma_validator_index(registry, pubkey, 0);
}

impl BeaconState {
    /// Looks a public key up among the registered validators.
    pub fn get_validator_index(&self, pubkey: &PublicKeyBytes) -> (found: Option<usize>)
        ensures
            found == spec_validator_index(self.validator_registry@, *pubkey),
            found matches Some(index) ==> index < self.validator_registry@.len(),
    {
        let mut i: usize = 0;
        while i < self.validator_registry.len()
            invariant
                i <= self.validator_registry@.len(),
                spec_validator_index(self.validator_registry@, *pubkey)
                    == spec_validator_index_from(self.validator_registry@, *pubkey, i as nat),
            decreases self.validator_registry@.len() - i,
        {
            if public_key_eq(&self.validator_registry[i].pubkey, pubkey) {
                return Some(i);
            }
            i += 1;
        }
        None
    }
}

} // verus!
