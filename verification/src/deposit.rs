//! Admission checks for a validator deposit found in a block.
//!
//! [`verify_deposit`] reads neither the state's deposit index nor the validator
//! registry, and may run on many deposits at once. [`verify_deposit_index`] and
//! [`get_existing_validator_index`] are meant to run deposit by deposit, in block order.

use crate::codec::{encode_hash256, encode_public_key, encode_u64, spec_encode_u64};
use crate::hashing::{hash, sha256};
use crate::merkle::{spec_merkle_root_from_branch, verify_merkle_proof};
use crate::types::{
    hash_eq, lemma_validator_index, spec_validator_index, BeaconState, ChainSpec, Epoch, Fork, Hash256, PublicKeyBytes,
    SignatureBytes,
};
use vstd::prelude::*;

verus! {

/// The key a deposit is made for, where its funds may be withdrawn to, and the
/// signature that shows possession of the key.
#[derive(Clone, Copy, Debug, PartialEq, Eq)]
pub struct DepositInput {
    pub pubkey: PublicKeyBytes,
    pub withdrawal_credentials: Hash256,
    pub proof_of_possession: SignatureBytes,
}

/// What the deposit contract recorded of one deposit.
#[derive(Clone, Copy, Debug, PartialEq, Eq)]
pub struct DepositData {
    pub amount: u64,
    pub timestamp: u64,
    pub deposit_input: DepositInput,
}

/// A deposit as a block carries it.
#[derive(Clone, Debug, PartialEq, Eq)]
pub struct Deposit {
    /// The siblings on the path from the deposit's leaf to the deposit root.
    pub proof: Vec<Hash256>,
    /// The position of the deposit among all deposits.
    pub index: u64,
    pub deposit_data: DepositData,
}

/// Why a deposit is not admitted.
#[derive(Clone, Copy, Debug, PartialEq, Eq)]
pub enum DepositError {
    /// The signature does not show possession of the deposit's key.
    BadProofOfPossession,
    /// The deposit does not lie under the state's deposit root.
    BadMerkleProof,
    /// The deposit is not the one that the state expects next.
    BadIndex { expected: u64, actual: u64 },
    /// The key is registered with other withdrawal credentials.
    BadWithdrawalCredentials,
}

/// What a proof of possession is checked against, besides the deposit itself.
#[derive(Clone, Copy, Debug, PartialEq, Eq)]
pub struct ProofOfPossessionContext {
    pub epoch: Epoch,
    pub fork: Fork,
}

/// The canonical bytes of a deposit's data: the amount, the timestamp, the key, the
/// withdrawal credentials and the signature, one after the other.
pub open spec fn spec_serialized_deposit_data(data: DepositData) -> Seq<u8> {
    spec_encode_u64(data.amount) + spec_encode_u64(data.timestamp) + data.deposit_input.pubkey@
        + data.deposit_input.withdrawal_credentials@ + data.deposit_input.proof_of_possession@
}

/// The leaf under which a deposit stands in the deposit tree.
pub open spec fn spec_deposit_leaf(data: DepositData) -> Seq<u8> {
    sha256(spec_serialized_deposit_data(data))
}

/// Whether the deposit's branch has the depth of the deposit tree and leads from the
/// deposit's leaf, at the deposit's index, to the state's deposit root.
pub open spec fn spec_verify_deposit_merkle_proof(
    state: &BeaconState,
    deposit: &Deposit,
    spec: &ChainSpec,
) -> bool {
    &&& deposit.proof@.len() == spec.deposit_contract_tree_depth
    &&& spec_merkle_root_from_branch(
        spec_deposit_leaf(deposit.deposit_data),
        deposit.proof@,
        deposit.proof@.len(),
        deposit.index,
    ) == state.latest_eth1_data.deposit_root@
}

/// The verdict on a deposit whose two checks came out as given: a bad proof of
/// possession is reported before a bad Merkle branch.
pub open spec fn spec_deposit_verdict(
    proof_of_possession_valid: bool,
    merkle_branch_valid: bool,
) -> Result<(), DepositError> {
    if !proof_of_possession_valid {
        Err(DepositError::BadProofOfPossession)
    } else if !merkle_branch_valid {
        Err(DepositError::BadMerkleProof)
    } else {
        Ok(())
    }
}

/// The verdict on a deposit, given whether its proof of possession holds. The Merkle
/// branch counts only where `verify_merkle_branch` is set.
pub open spec fn spec_verify_deposit(
    state: &BeaconState,
    deposit: &Deposit,
    proof_of_possession_valid: bool,
    verify_merkle_branch: bool,
    spec: &ChainSpec,
) -> Result<(), DepositError> {
    spec_deposit_verdict(
        proof_of_possession_valid,
        !verify_merkle_branch || spec_verify_deposit_merkle_proof(state, deposit, spec),
    )
}

/// The verdict on a deposit's index.
pub open spec fn spec_verify_deposit_index(state: &BeaconState, deposit: &Deposit) -> Result<
    (),
    DepositError,
> {
    if deposit.index == state.deposit_index {
        Ok(())
    } else {
        Err(DepositError::BadIndex { expected: state.deposit_index, actual: deposit.index })
    }
}

/// The validator that a deposit tops up, if its key is registered, provided that the
/// deposit names the withdrawal credentials that the validator has.
pub open spec fn spec_get_existing_validator_index(state: &BeaconState, deposit: &Deposit) -> Result<
    Option<u64>,
    DepositError,
> {
    let input = deposit.deposit_data.deposit_input;
    match spec_validator_index(state.validator_registry@, input.pubkey) {
        None => Ok(None),
        Some(index) => if state.validator_registry@[index as int].withdrawal_credentials
            == input.withdrawal_credentials {
            Ok(Some(index as u64))
        } else {
            Err(DepositError::BadWithdrawalCredentials)
        },
    }
}

/// The epoch and fork against which a deposit's proof of possession is to be checked.
pub fn proof_of_possession_context(state: &BeaconState, spec: &ChainSpec) -> (context:
    ProofOfPossessionContext)
    requires
        spec.slots_per_epoch > 0,
    ensures
        context.epoch.0 == state.slot.0 / spec.slots_per_epoch,
        context.fork == state.fork,
{
    ProofOfPossessionContext { epoch: state.slot.epoch(spec.slots_per_epoch), fork: state.fork }
}

/// Writes a deposit's data in canonical form.
pub fn get_serialized_deposit_data(deposit: &Deposit) -> (out: Vec<u8>)
    ensures
        out@ == spec_serialized_deposit_data(deposit.deposit_data),
{
    let data = &deposit.deposit_data;
    let mut out = encode_u64(data.amount);
    let mut timestamp = encode_u64(data.timestamp);
    let mut pubkey = encode_public_key(&data.deposit_input.pubkey);
    let mut credentials = encode_hash256(&data.deposit_input.withdrawal_credentials);
    out.append(&mut timestamp);
    out.append(&mut pubkey);
    out.append(&mut credentials);
    out.extend_from_slice(data.deposit_input.proof_of_possession.as_slice());
    out
}

/// Checks that a deposit lies under the state's deposit root.
pub fn verify_deposit_merkle_proof(state: &BeaconState, deposit: &Deposit, spec: &ChainSpec) -> (valid:
    bool)
    ensures
        valid == spec_verify_deposit_merkle_proof(state, deposit, spec),
{
    let depth = deposit.proof.len();
    if depth as u64 != spec.deposit_contract_tree_depth {
        return false;
    }
    let serialized = get_serialized_deposit_data(deposit);
    let leaf = hash(serialized.as_slice());
    verify_merkle_proof(
        &leaf,
        deposit.proof.as_slice(),
        depth,
        deposit.index,
        &state.latest_eth1_data.deposit_root,
    )
}

/// Turns the outcome of a deposit's two checks into a verdict.
pub fn deposit_verdict(proof_of_possession_valid: bool, merkle_branch_valid: bool) -> (verdict:
    Result<(), DepositError>)
    ensures
        verdict == spec_deposit_verdict(proof_of_possession_valid, merkle_branch_valid),
{
    if !proof_of_possession_valid {
        Err(DepositError::BadProofOfPossession)
    } else if !merkle_branch_valid {
        Err(DepositError::BadMerkleProof)
    } else {
        Ok(())
    }
}

/// Decides whether a deposit may be included in a block, as far as that can be told
/// without the state's deposit index: its proof of possession must hold, and, where
/// `verify_merkle_branch` is set, it must lie under the state's deposit root.
///
/// `proof_of_possession_valid` says whether the deposit's signature was found valid
/// against [`proof_of_possession_context`]. The Merkle branch is looked at only for a
/// deposit whose proof of possession holds.
pub fn verify_deposit(
    state: &BeaconState,
    deposit: &Deposit,
    proof_of_possession_valid: bool,
    verify_merkle_branch: bool,
    spec: &ChainSpec,
) -> (verdict: Result<(), DepositError>)
    ensures
        verdict == spec_verify_deposit(
            state,
            deposit,
            proof_of_possession_valid,
            verify_merkle_branch,
            spec,
        ),
{
    let merkle_branch_valid = !proof_of_possession_valid || !verify_merkle_branch
        || verify_deposit_merkle_proof(state, deposit, spec);
    deposit_verdict(proof_of_possession_valid, merkle_branch_valid)
}

/// Checks that a deposit is the one that the state expects next.
pub fn verify_deposit_index(state: &BeaconState, deposit: &Deposit) -> (verdict: Result<
    (),
    DepositError,
>)
    ensures
        verdict == spec_verify_deposit_index(state, deposit),
        verdict is Ok <==> deposit.index == state.deposit_index,
{
    if deposit.index == state.deposit_index {
        Ok(())
    } else {
        Err(DepositError::BadIndex { expected: state.deposit_index, actual: deposit.index })
    }
}

/// Finds the validator that a deposit's key is registered for. A deposit for a
/// registered key must name the withdrawal credentials that the validator has.
pub fn get_existing_validator_index(state: &BeaconState, deposit: &Deposit) -> (found: Result<
    Option<u64>,
    DepositError,
>)
    ensures
        found == spec_get_existing_validator_index(state, deposit),
{
    let deposit_input = &deposit.deposit_data.deposit_input;
    match state.get_validator_index(&deposit_input.pubkey) {
        None => Ok(None),
        Some(index) => {
            if hash_eq(
                &deposit_input.withdrawal_credentials,
                &state.validator_registry[index].withdrawal_credentials,
            ) {
                Ok(Some(index as u64))
            } else {
                Err(DepositError::BadWithdrawalCredentials)
            }
        },
    }
}

/// The verdict of [`verify_deposit`] depends on nothing in the state but the deposit
/// root: neither on the deposit index nor on the registry.
pub proof fn lemma_verify_deposit_reads_only_the_deposit_root(
    state: &BeaconState,
    other: &BeaconState,
    deposit: &Deposit,
    proof_of_possession_valid: bool,
    verify_merkle_branch: bool,
    spec: &ChainSpec,
)
    requires
        state.latest_eth1_data.deposit_root == other.latest_eth1_data.deposit_root,
    ensures
        spec_verify_deposit(state, deposit, proof_of_possession_valid, verify_merkle_branch, spec)
            == spec_verify_deposit(
            other,
            deposit,
            proof_of_possession_valid,
            verify_merkle_branch,
            spec,
        ),
{
}

/// A deposit for a key that no validator holds is a deposit for a new validator.
pub proof fn lemma_unregistered_key_is_new(state: &BeaconState, deposit: &Deposit)
    requires
        state.validator_registry@.len() <= usize::MAX,
        forall|i: int|
            0 <= i < state.validator_registry@.len() ==> state.validator_registry@[i].pubkey
                != deposit.deposit_data.deposit_input.pubkey,
    ensures
        spec_get_existing_validator_index(state, deposit) == Ok::<Option<u64>, DepositError>(None),
{
    lemma_validator_index(
        state.validator_registry@,
        deposit.deposit_data.deposit_input.pubkey,
        0,
    );
}

/// A deposit for the key of the validator at `index` gives that index if it names the
/// validator's withdrawal credentials, and is refused if it names others.
pub proof fn lemma_registered_key_keeps_its_credentials(
    state: &BeaconState,
    deposit: &Deposit,
    index: int,
)
    requires
        state.validator_registry@.len() <= usize::MAX,
        0 <= index < state.validator_registry@.len(),
        state.validator_registry@[index].pubkey == deposit.deposit_data.deposit_input.pubkey,
        forall|i: int|
            0 <= i < index ==> state.validator_registry@[i].pubkey
                != deposit.deposit_data.deposit_input.pubkey,
    ensures
        spec_get_existing_validator_index(state, deposit) == if state.validator_registry@[index].withdrawal_credentials
            == deposit.deposit_data.deposit_input.withdrawal_credentials {
            Ok::<Option<u64>, DepositError>(Some(index as u64))
        } else {
            Err::<Option<u64>, DepositError>(DepositError::BadWithdrawalCredentials)
        },
{
    lemma_validator_index(
        state.validator_registry@,
        deposit.deposit_data.deposit_input.pubkey,
        0,
    );
}

/// A deposit is admitted by its index exactly if it carries the index that the state
/// expects next.
pub proof fn lemma_index_admitted_iff_expected(state: &BeaconState, deposit: &Deposit)
    ensures
        spec_verify_deposit_index(state, deposit) is Ok <==> deposit.index == state.deposit_index,
        deposit.index != state.deposit_index ==> spec_verify_deposit_index(state, deposit) == Err::<
            (),
            DepositError,
        >(DepositError::BadIndex { expected: state.deposit_index, actual: deposit.index }),
{
}

} // verus!
