use beacon_core::deposit::{
    deposit_verdict, get_existing_validator_index, get_serialized_deposit_data,
    proof_of_possession_context,
    verify_deposit, verify_deposit_index, verify_deposit_merkle_proof, Deposit, DepositData,
    DepositError, DepositInput,
};
use beacon_core::types::{BeaconState, ChainSpec, Epoch, Eth1Data, Fork, Slot, Validator};

fn bytes_from_hex<const N: usize>(s: &str) -> [u8; N] {
    let mut out = [0u8; N];
    for i in 0..N {
        out[i] = u8::from_str_radix(&s[2 * i..2 * i + 2], 16).unwrap();
    }
    out
}

fn pubkey() -> [u8; 48] {
    let mut key = [0u8; 48];
    for (i, byte) in key.iter_mut().enumerate() {
        *byte = i as u8 + 1;
    }
    key
}

fn signature() -> [u8; 96] {
    let mut sig = [0u8; 96];
    for (i, byte) in sig.iter_mut().enumerate() {
        *byte = ((i * 7) % 256) as u8;
    }
    sig
}

fn chain_spec() -> ChainSpec {
    ChainSpec { slots_per_epoch: 32, deposit_contract_tree_depth: 3 }
}

/// A deposit at index 6 of a tree of depth 3, with its branch.
fn deposit() -> Deposit {
    Deposit {
        proof: vec![[0x11; 32], [0x22; 32], [0x33; 32]],
        index: 6,
        deposit_data: DepositData {
            amount: 32_000_000_000,
            timestamp: 1_550_000_000,
            deposit_input: DepositInput {
                pubkey: pubkey(),
                withdrawal_credentials: [0xaa; 32],
                proof_of_possession: signature(),
            },
        },
    }
}

/// A state whose deposit root is the root of the tree that holds `deposit()`.
fn state() -> BeaconState {
    BeaconState {
        slot: Slot(65),
        fork: Fork { previous_version: [0, 0, 0, 1], current_version: [0, 0, 0, 2], epoch: Epoch(1) },
        deposit_index: 6,
        validator_registry: vec![
            Validator { pubkey: [7; 48], withdrawal_credentials: [1; 32] },
            Validator { pubkey: [8; 48], withdrawal_credentials: [2; 32] },
            Validator { pubkey: [9; 48], withdrawal_credentials: [3; 32] },
        ],
        latest_eth1_data: Eth1Data {
            deposit_root: bytes_from_hex(
                "4a789699100f1052f1d0546caf1a9013e3ef7cc5ca54e2d164f5b8f2c8a95eb4",
            ),
            block_hash: [0; 32],
        },
    }
}

#[test]
fn deposit_data_is_serialized_field_by_field() {
    let expected: [u8; 192] = bytes_from_hex(concat_hex());
    assert_eq!(get_serialized_deposit_data(&deposit()), expected.to_vec());
}

fn concat_hex() -> &'static str {
    "0040597307000000801f635c000000000102030405060708090a0b0c0d0e0f101112131415161718191a1b1c1d1e1f202122232425262728292a2b2c2d2e2f30aaaaaaaaaaaaaaaaaaaaaaaaaaaaaaaaaaaaaaaaaaaaaaaaaaaaaaaaaaaaaaaa00070e151c232a31383f464d545b626970777e858c939aa1a8afb6bdc4cbd2d9e0e7eef5fc030a11181f262d343b424950575e656c737a81888f969da4abb2b9c0c7ced5dce3eaf1f8ff060d141b222930373e454c535a61686f767d848b9299"
}

#[test]
fn proof_of_possession_is_checked_for_the_epoch_of_the_state() {
    let context = proof_of_possession_context(&state(), &chain_spec());
    assert_eq!(context.epoch, Epoch(2));
    assert_eq!(context.fork, state().fork);
}

#[test]
fn slot_epoch_divides_and_rounds_down() {
    assert_eq!(Slot(0).epoch(32), Epoch(0));
    assert_eq!(Slot(31).epoch(32), Epoch(0));
    assert_eq!(Slot(32).epoch(32), Epoch(1));
    assert_eq!(Slot(u64::MAX).epoch(1), Epoch(u64::MAX));
    assert_eq!(Slot::new(100).as_u64(), 100);
}

#[test]
fn verdict_names_the_first_failed_check() {
    assert_eq!(deposit_verdict(true, true), Ok(()));
    assert_eq!(deposit_verdict(true, false), Err(DepositError::BadMerkleProof));
    assert_eq!(deposit_verdict(false, true), Err(DepositError::BadProofOfPossession));
    assert_eq!(deposit_verdict(false, false), Err(DepositError::BadProofOfPossession));
}

#[test]
fn deposit_under_the_root_is_accepted() {
    assert!(verify_deposit_merkle_proof(&state(), &deposit(), &chain_spec()));
    assert_eq!(verify_deposit(&state(), &deposit(), true, true, &chain_spec()), Ok(()));
}

#[test]
fn bad_proof_of_possession_is_refused_first() {
    assert_eq!(
        verify_deposit(&state(), &deposit(), false, true, &chain_spec()),
        Err(DepositError::BadProofOfPossession)
    );
    assert_eq!(
        verify_deposit(&state(), &deposit(), false, false, &chain_spec()),
        Err(DepositError::BadProofOfPossession)
    );
    let mut tampered = deposit();
    tampered.proof[0][0] ^= 1;
    assert_eq!(
        verify_deposit(&state(), &tampered, false, true, &chain_spec()),
        Err(DepositError::BadProofOfPossession)
    );
}

#[test]
fn merkle_branch_is_checked_only_on_demand() {
    let mut tampered = deposit();
    tampered.proof[0][0] ^= 1;
    assert_eq!(
        verify_deposit(&state(), &tampered, true, true, &chain_spec()),
        Err(DepositError::BadMerkleProof)
    );
    assert_eq!(verify_deposit(&state(), &tampered, true, false, &chain_spec()), Ok(()));
}

#[test]
fn any_flipped_bit_of_the_proof_is_a_bad_merkle_proof() {
    for sibling in 0..3 {
        for bit in 0..256 {
            let mut tampered = deposit();
            tampered.proof[sibling][bit / 8] ^= 1 << (bit % 8);
            assert_eq!(
                verify_deposit(&state(), &tampered, true, true, &chain_spec()),
                Err(DepositError::BadMerkleProof)
            );
        }
    }
}

#[test]
fn any_flipped_bit_of_the_leaf_data_is_a_bad_merkle_proof() {
    for bit in 0..64 {
        let mut tampered = deposit();
        tampered.deposit_data.amount ^= 1 << bit;
        assert_eq!(
            verify_deposit(&state(), &tampered, true, true, &chain_spec()),
            Err(DepositError::BadMerkleProof)
        );
        let mut tampered = deposit();
        tampered.deposit_data.timestamp ^= 1 << bit;
        assert_eq!(
            verify_deposit(&state(), &tampered, true, true, &chain_spec()),
            Err(DepositError::BadMerkleProof)
        );
    }
    for bit in 0..48 * 8 {
        let mut tampered = deposit();
        tampered.deposit_data.deposit_input.pubkey[bit / 8] ^= 1 << (bit % 8);
        assert_eq!(
            verify_deposit(&state(), &tampered, true, true, &chain_spec()),
            Err(DepositError::BadMerkleProof)
        );
    }
    for bit in 0..32 * 8 {
        let mut tampered = deposit();
        tampered.deposit_data.deposit_input.withdrawal_credentials[bit / 8] ^= 1 << (bit % 8);
        assert_eq!(
            verify_deposit(&state(), &tampered, true, true, &chain_spec()),
            Err(DepositError::BadMerkleProof)
        );
    }
    for bit in 0..96 * 8 {
        let mut tampered = deposit();
        tampered.deposit_data.deposit_input.proof_of_possession[bit / 8] ^= 1 << (bit % 8);
        assert_eq!(
            verify_deposit(&state(), &tampered, true, true, &chain_spec()),
            Err(DepositError::BadMerkleProof)
        );
    }
}

#[test]
fn deposit_at_another_index_is_a_bad_merkle_proof() {
    for index in [0u64, 2, 4, 5, 7] {
        let mut moved = deposit();
        moved.index = index;
        assert_eq!(
            verify_deposit(&state(), &moved, true, true, &chain_spec()),
            Err(DepositError::BadMerkleProof)
        );
    }
}

#[test]
fn deposit_under_another_root_is_a_bad_merkle_proof() {
    let mut other = state();
    other.latest_eth1_data.deposit_root[17] ^= 4;
    assert_eq!(
        verify_deposit(&other, &deposit(), true, true, &chain_spec()),
        Err(DepositError::BadMerkleProof)
    );
}

#[test]
fn branch_must_have_the_depth_of_the_tree() {
    let deeper = ChainSpec { slots_per_epoch: 32, deposit_contract_tree_depth: 4 };
    assert!(!verify_deposit_merkle_proof(&state(), &deposit(), &deeper));
    assert_eq!(
        verify_deposit(&state(), &deposit(), true, true, &deeper),
        Err(DepositError::BadMerkleProof)
    );
    let mut short = deposit();
    short.proof.pop();
    assert_eq!(
        verify_deposit(&state(), &short, true, true, &chain_spec()),
        Err(DepositError::BadMerkleProof)
    );
    let huge = ChainSpec { slots_per_epoch: 32, deposit_contract_tree_depth: u64::MAX };
    assert!(!verify_deposit_merkle_proof(&state(), &deposit(), &huge));
}

#[test]
fn verify_deposit_does_not_read_the_deposit_index() {
    let mut other = state();
    other.deposit_index = 1000;
    assert_eq!(verify_deposit(&other, &deposit(), true, true, &chain_spec()), Ok(()));
}

#[test]
fn deposit_with_the_expected_index_is_accepted() {
    let mut s = state();
    s.deposit_index = 5;
    let mut d = deposit();
    d.index = 5;
    assert_eq!(verify_deposit_index(&s, &d), Ok(()));
}

#[test]
fn deposit_with_another_index_is_refused() {
    let mut s = state();
    s.deposit_index = 5;
    let mut d = deposit();
    d.index = 6;
    assert_eq!(verify_deposit_index(&s, &d), Err(DepositError::BadIndex { expected: 5, actual: 6 }));
    d.index = 4;
    assert_eq!(verify_deposit_index(&s, &d), Err(DepositError::BadIndex { expected: 5, actual: 4 }));
    d.index = 0;
    s.deposit_index = u64::MAX;
    assert_eq!(
        verify_deposit_index(&s, &d),
        Err(DepositError::BadIndex { expected: u64::MAX, actual: 0 })
    );
}

#[test]
fn deposit_indices_advance_one_by_one() {
    let mut s = state();
    s.deposit_index = 0;
    for index in 0..5u64 {
        let mut d = deposit();
        d.index = index;
        assert_eq!(verify_deposit_index(&s, &d), Ok(()));
        let mut replayed = deposit();
        replayed.index = index;
        s.deposit_index += 1;
        assert_eq!(
            verify_deposit_index(&s, &replayed),
            Err(DepositError::BadIndex { expected: index + 1, actual: index })
        );
    }
}

#[test]
fn unknown_key_is_a_new_validator() {
    assert_eq!(get_existing_validator_index(&state(), &deposit()), Ok(None));
    let mut empty = state();
    empty.validator_registry.clear();
    assert_eq!(get_existing_validator_index(&empty, &deposit()), Ok(None));
}

#[test]
fn known_key_with_the_same_credentials_gives_its_index() {
    let mut s = state();
    s.validator_registry.push(Validator { pubkey: pubkey(), withdrawal_credentials: [0xaa; 32] });
    assert_eq!(get_existing_validator_index(&s, &deposit()), Ok(Some(3)));
    let mut top_up = deposit();
    top_up.deposit_data.deposit_input.pubkey = [8; 48];
    top_up.deposit_data.deposit_input.withdrawal_credentials = [2; 32];
    assert_eq!(get_existing_validator_index(&s, &top_up), Ok(Some(1)));
    assert_eq!(s.get_validator_index(&[9; 48]), Some(2));
    assert_eq!(s.get_validator_index(&[10; 48]), None);
}

#[test]
fn known_key_with_other_credentials_is_refused() {
    let mut s = state();
    s.validator_registry.push(Validator { pubkey: pubkey(), withdrawal_credentials: [0xaa; 32] });
    let mut second = deposit();
    second.deposit_data.deposit_input.withdrawal_credentials[31] ^= 1;
    assert_eq!(
        get_existing_validator_index(&s, &second),
        Err(DepositError::BadWithdrawalCredentials)
    );
    let mut third = deposit();
    third.deposit_data.deposit_input.pubkey = [7; 48];
    assert_eq!(get_existing_validator_index(&s, &third), Err(DepositError::BadWithdrawalCredentials));
}
