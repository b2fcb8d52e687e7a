//! Keys, hashes, locks, states and the single rules, on given values.

use kaspa_consensus_core::hashing::sighash::{
    calc_ecdsa_signature_hash, calc_schnorr_signature_hash, SigHashReusedValuesUnsync,
};
use kaspa_consensus_core::hashing::sighash_type::SigHashType;
use kaspa_consensus_core::mass::{ComputeBudget, SigopCount};
use kaspa_consensus_core::subnets::SubnetworkId;
use kaspa_consensus_core::tx::{
    CovenantBinding, PopulatedTransaction, ScriptPublicKey, TransactionInput, TransactionOutpoint,
    TransactionOutput, UtxoEntry,
};
use kaspa_txscript::pay_to_script_hash_script;
use kcc20::authorization::{
    check_ecdsa, check_owner, check_schnorr, has_family_input, is_consensus_hash_type,
    is_script_hash_lock, public_key_hash,
};
use kcc20::borrow::{check_borrow, check_holding, check_link};
use kcc20::bytes::{append, copy_bytes, same_bytes, same_word};
use kcc20::conservation::{check_conservation, check_extension, spendable_total};
use kcc20::consensus::{
    check_bindings, ecdsa_signature_hash, is_continuation, is_in_family, run_script,
    schnorr_signature_hash, transaction_id,
};
use kcc20::program::{
    dispatch_tag, state_layout, tag_of, transfer_delegator_signature, transfer_signature,
    FieldKind, TokenProgram,
};
use kcc20::receive::{borrow_witness, borrowed_receive, unspent_token, Borrower};
use kcc20::state::{
    guard_threshold, is_valid_policy, threshold_token_state, token_state, TokenState,
    BORROW_AMOUNT_THRESHOLD, BORROW_HASH_CHAIN, OWNER_COVENANT_ID,
};
use kcc20::support::{
    demo_keys, demo_outpoint, sign_input, with_hash_type, DEMO_COVENANT_ID, SIG_HASH_ALL,
};
use kcc20::transaction::{
    same_lock, Binding, ComputeCommit, EncodedState, Lock, Outpoint, Transaction, TxInput,
    TxOutput, Utxo,
};
use kcc20::transfer::{
    authorizes_any, check_policies, check_shape, check_states, execute_transaction,
    find_family_inputs, find_family_outputs, is_authorized_by, Rejection,
};
use secp256k1::{schnorr, Message, Secp256k1, SecretKey, XOnlyPublicKey};

fn hex(bytes: &[u8]) -> String {
    bytes.iter().map(|byte| format!("{byte:02x}")).collect()
}

fn state(amount: i64) -> TokenState {
    token_state(&[0x05; 32], amount)
}

fn sample_input(seed: u8, covenant_id: Option<[u8; 32]>) -> TxInput {
    TxInput {
        previous: demo_outpoint(seed, seed as u32 + 1),
        signature_script: vec![seed; 3],
        sequence: seed as u64 + 7,
        compute_commit: ComputeCommit::ComputeBudget(seed as u16 + 9),
        utxo: Utxo {
            amount: 1_000 + seed as u64,
            lock: Lock { version: 0, script: vec![0x51, seed] },
            daa_score: 4,
            coinbase: false,
            covenant_id,
        },
        call: None,
    }
}

fn sample() -> Transaction {
    Transaction {
        version: 1,
        inputs: vec![
            sample_input(1, None),
            sample_input(2, Some([0x11; 32])),
            sample_input(3, Some([0x22; 32])),
            sample_input(4, Some([0x11; 32])),
        ],
        outputs: vec![
            TxOutput {
                value: 500,
                lock: Lock { version: 0, script: vec![0x51] },
                covenant: Some(Binding { authorizing_input: 1, covenant_id: [0x11; 32] }),
            },
            TxOutput { value: 600, lock: Lock { version: 0, script: vec![0x52] }, covenant: None },
            TxOutput {
                value: 700,
                lock: Lock { version: 0, script: vec![0x53] },
                covenant: Some(Binding { authorizing_input: 3, covenant_id: [0x11; 32] }),
            },
        ],
        lock_time: 12,
        subnetwork_id: [0; 20],
        gas: 0,
        payload: vec![0x61, 0x62],
    }
}

/// The same transaction, written with the types of the consensus crate.
fn consensus_sample(tx: &Transaction) -> (kaspa_consensus_core::tx::Transaction, Vec<UtxoEntry>) {
    let key = |lock: &Lock| ScriptPublicKey::from_vec(lock.version, lock.script.clone());
    let inputs = tx
        .inputs
        .iter()
        .map(|input| {
            TransactionInput::new_with_mass(
                TransactionOutpoint::new(
                    input.previous.transaction_id.into(),
                    input.previous.index,
                ),
                input.signature_script.clone(),
                input.sequence,
                match input.compute_commit {
                    ComputeCommit::SigOpCount(count) => SigopCount(count).into(),
                    ComputeCommit::ComputeBudget(budget) => ComputeBudget(budget).into(),
                },
            )
        })
        .collect();
    let outputs = tx
        .outputs
        .iter()
        .map(|output| {
            TransactionOutput::with_covenant(
                output.value,
                key(&output.lock),
                output.covenant.map(|binding| {
                    CovenantBinding::new(binding.authorizing_input, binding.covenant_id.into())
                }),
            )
        })
        .collect();
    let entries = tx
        .inputs
        .iter()
        .map(|input| {
            UtxoEntry::new(
                input.utxo.amount,
                key(&input.utxo.lock),
                input.utxo.daa_score,
                input.utxo.coinbase,
                input.utxo.covenant_id.map(|id| id.into()),
            )
        })
        .collect();
    let transaction = kaspa_consensus_core::tx::Transaction::new(
        tx.version,
        inputs,
        outputs,
        tx.lock_time,
        SubnetworkId::from_bytes(tx.subnetwork_id),
        tx.gas,
        tx.payload.clone(),
    );
    (transaction, entries)
}

#[test]
fn demo_key_of_one_is_known() {
    let (key, public_key) = demo_keys(0x01);
    assert_eq!(
        hex(&public_key),
        "1b84c5567b126440995d3ed5aaba0565d71e1834604819ff9c17f5e9d5dd078f"
    );
    assert_eq!(key.public_key(), public_key);
}

#[test]
fn demo_keys_match_the_signature_crate() {
    for seed in [0x01u8, 0x7f, 0xaa, 0xbb, 0xfe] {
        let secret = SecretKey::from_slice(&[seed; 32]).unwrap();
        let pair = secp256k1::Keypair::from_secret_key(&Secp256k1::new(), &secret);
        assert_eq!(demo_keys(seed).1, pair.x_only_public_key().0.serialize());
    }
}

#[test]
fn demo_keys_are_deterministic_and_distinct() {
    let keys: Vec<[u8; 32]> = (0x01..=0xfeu8).map(|seed| demo_keys(seed).1).collect();
    for (index, key) in keys.iter().enumerate() {
        assert_eq!(*key, demo_keys(index as u8 + 1).1);
        assert!(!keys[..index].contains(key));
    }
}

#[test]
fn demo_outpoint_repeats_its_seed() {
    let expected = Outpoint { transaction_id: [0x07; 32], index: 9 };
    assert_eq!(demo_outpoint(7, 9), expected);
    assert_eq!(demo_outpoint(0, u32::MAX).transaction_id, [0; 32]);
}

#[test]
fn sign_input_signs_the_consensus_digest() {
    let tx = sample();
    let (key, public_key) = demo_keys(0xaa);
    let witness = sign_input(&tx, 2, &key);
    assert_eq!(witness.len(), 65);
    assert_eq!(witness[64], SIG_HASH_ALL);
    let (transaction, entries) = consensus_sample(&tx);
    let digest = calc_schnorr_signature_hash(
        &PopulatedTransaction::new(&transaction, entries),
        2,
        SigHashType::from_u8(SIG_HASH_ALL).unwrap(),
        &SigHashReusedValuesUnsync::new(),
    );
    let signature = schnorr::Signature::from_slice(&witness[..64]).unwrap();
    let key = XOnlyPublicKey::from_slice(&public_key).unwrap();
    signature.verify(&Message::from_digest(digest.as_bytes()), &key).unwrap();
    assert!(check_schnorr(&tx, 2, &public_key, &witness));
    assert!(!check_schnorr(&tx, 1, &public_key, &witness));
    assert!(!check_schnorr(&tx, 2, &public_key, &witness[..64]));
    assert!(!check_schnorr(&tx, 2, &demo_keys(0xab).1, &witness));
}

#[test]
fn hash_type_follows_the_signature() {
    let witness = with_hash_type(&[0x33; 64], 0x81);
    assert_eq!(witness[..64], [0x33; 64]);
    assert_eq!(witness[64..], [0x81]);
}

#[test]
fn digests_and_identifier_match_the_consensus_crate() {
    let tx = sample();
    let (transaction, entries) = consensus_sample(&tx);
    assert_eq!(transaction_id(&tx), transaction.id().as_bytes());
    for index in 0..4usize {
        for byte in [0x01u8, 0x02, 0x04, 0x81, 0x82, 0x84] {
            let populated = PopulatedTransaction::new(&transaction, entries.clone());
            let hash_type = SigHashType::from_u8(byte).unwrap();
            let schnorr = calc_schnorr_signature_hash(
                &populated,
                index,
                hash_type,
                &SigHashReusedValuesUnsync::new(),
            );
            let ecdsa = calc_ecdsa_signature_hash(
                &populated,
                index,
                hash_type,
                &SigHashReusedValuesUnsync::new(),
            );
            assert_eq!(schnorr_signature_hash(&tx, index, byte), schnorr.as_bytes());
            assert_eq!(ecdsa_signature_hash(&tx, index, byte), ecdsa.as_bytes());
        }
    }
}

#[test]
fn version_zero_digests_cover_signature_operation_counts() {
    let mut tx = sample();
    tx.version = 0;
    for (index, input) in tx.inputs.iter_mut().enumerate() {
        input.compute_commit = ComputeCommit::SigOpCount(index as u8 + 1);
    }
    let (transaction, entries) = consensus_sample(&tx);
    assert_eq!(transaction_id(&tx), transaction.id().as_bytes());
    for byte in [0x01u8, 0x84] {
        let populated = PopulatedTransaction::new(&transaction, entries.clone());
        let expected = calc_schnorr_signature_hash(
            &populated,
            2,
            SigHashType::from_u8(byte).unwrap(),
            &SigHashReusedValuesUnsync::new(),
        );
        assert_eq!(schnorr_signature_hash(&tx, 2, byte), expected.as_bytes());
    }
    let (key, public_key) = demo_keys(0xaa);
    let witness = sign_input(&tx, 2, &key);
    assert!(check_schnorr(&tx, 2, &public_key, &witness));
    tx.inputs[0].compute_commit = ComputeCommit::SigOpCount(9);
    assert!(!check_schnorr(&tx, 2, &public_key, &witness));
    // A compute budget counts no signature operations.
    tx.inputs[0].compute_commit = ComputeCommit::SigOpCount(0);
    let digest = schnorr_signature_hash(&tx, 2, 0x01);
    tx.inputs[0].compute_commit = ComputeCommit::ComputeBudget(5);
    assert_eq!(schnorr_signature_hash(&tx, 2, 0x01), digest);
}

#[test]
fn unlocking_changes_neither_digests_nor_identifier() {
    let tx = sample();
    let mut other = sample();
    for input in &mut other.inputs {
        input.signature_script = vec![0x99; 40];
    }
    assert_eq!(transaction_id(&tx), transaction_id(&other));
    for index in 0..4usize {
        assert_eq!(
            schnorr_signature_hash(&tx, index, 0x01),
            schnorr_signature_hash(&other, index, 0x01)
        );
        assert_eq!(
            ecdsa_signature_hash(&tx, index, 0x82),
            ecdsa_signature_hash(&other, index, 0x82)
        );
    }
    other.lock_time += 1;
    assert_ne!(transaction_id(&tx), transaction_id(&other));
    assert_ne!(
        schnorr_signature_hash(&tx, 0, 0x01),
        schnorr_signature_hash(&other, 0, 0x01)
    );
}

#[test]
fn ecdsa_signatures_are_checked() {
    let tx = sample();
    let secret = SecretKey::from_slice(&[0xaa; 32]).unwrap();
    let pair = secp256k1::Keypair::from_secret_key(&Secp256k1::new(), &secret);
    let key = pair.public_key().serialize();
    let digest = ecdsa_signature_hash(&tx, 0, 0x81);
    let mut witness = Secp256k1::new()
        .sign_ecdsa(&Message::from_digest(digest), &secret)
        .serialize_compact()
        .to_vec();
    witness.push(0x81);
    assert!(check_ecdsa(&tx, 0, &key, &witness));
    assert!(!check_ecdsa(&tx, 1, &key, &witness));
    assert!(!check_ecdsa(&tx, 0, &key[..32], &witness));
    witness[64] = 0x01;
    assert!(!check_ecdsa(&tx, 0, &key, &witness));
    witness[64] = 0x03;
    assert!(!check_ecdsa(&tx, 0, &key, &witness));
}

#[test]
fn consensus_hash_types_are_six() {
    let valid: Vec<u8> = (0..=255u8).filter(|byte| is_consensus_hash_type(*byte)).collect();
    assert_eq!(valid, [0x01, 0x02, 0x04, 0x81, 0x82, 0x84]);
    for byte in 0..=255u8 {
        assert_eq!(is_consensus_hash_type(byte), SigHashType::from_u8(byte).is_ok());
    }
}

#[test]
fn public_key_hash_is_keyed_by_its_domain() {
    let mut domain = [0u8; 32];
    domain[..13].copy_from_slice(b"PublicKeyHash");
    for key in [vec![], vec![0x02; 32], vec![0x03; 33]] {
        assert_eq!(public_key_hash(&key), *blake3::keyed_hash(&domain, &key).as_bytes());
    }
}

#[test]
fn token_lock_commits_to_the_redeem_script() {
    let program = TokenProgram { prefix: vec![1, 2], suffix: vec![5] };
    assert_eq!(program.redeem_script(&[3, 4]), [1, 2, 3, 4, 5]);
    let lock = program.token_lock(&[3, 4]);
    let key = pay_to_script_hash_script(&[1, 2, 3, 4, 5]);
    assert_eq!(lock.version, key.version());
    assert_eq!(lock.script, key.script());
    assert_eq!(lock.script.len(), 35);
    assert_eq!((lock.script[0], lock.script[1], lock.script[34]), (0xaa, 0x20, 0x87));
    let hash: [u8; 32] = lock.script[2..34].try_into().unwrap();
    assert!(is_script_hash_lock(&lock, &hash));
    assert!(!is_script_hash_lock(&lock, &[0; 32]));
    for place in [0usize, 1, 2, 33, 34] {
        let mut other = lock.clone();
        other.script[place] ^= 1;
        assert!(!is_script_hash_lock(&other, &hash));
        assert!(!same_lock(&lock, &other));
    }
    let mut longer = lock.clone();
    longer.script.push(0);
    assert!(!is_script_hash_lock(&longer, &hash));
    assert!(same_lock(&lock, &lock.clone()));
}

#[test]
fn entry_signatures_and_tags_are_known() {
    assert_eq!(
        String::from_utf8(transfer_signature()).unwrap(),
        "transfer({int,byte[32],byte,byte,byte[32],byte[32]}[],byte[])"
    );
    assert_eq!(
        String::from_utf8(transfer_delegator_signature()).unwrap(),
        "transfer_delegator(byte[])"
    );
    let kinds: Vec<FieldKind> = state_layout().iter().map(|field| field.kind).collect();
    assert_eq!(
        kinds,
        [
            FieldKind::Int,
            FieldKind::Word,
            FieldKind::Byte,
            FieldKind::Byte,
            FieldKind::Word,
            FieldKind::Word
        ]
    );
    // BLAKE3 of the empty string starts with af1349b9.
    assert_eq!(dispatch_tag(b""), [0xaf, 0x13, 0x49, 0xb9]);
    let mut digest = [0u8; 32];
    digest[..5].copy_from_slice(&[9, 8, 7, 6, 5]);
    assert_eq!(tag_of(&digest), [9, 8, 7, 6]);
}

#[test]
fn plain_state_has_no_borrowing() {
    let plain = token_state(&[0x05; 32], -7);
    assert_eq!(
        plain,
        TokenState {
            amount: -7,
            owner: [0x05; 32],
            owner_scheme: 0x00,
            borrow_scheme: 0x00,
            borrow_guard: [0; 32],
            extension_commitment: [0; 32],
        }
    );
}

#[test]
fn threshold_guard_is_little_endian() {
    let threshold = 0x0102_0304_0506_0708;
    let state = threshold_token_state(&[0x05; 32], 3, threshold);
    assert_eq!(state.borrow_scheme, BORROW_AMOUNT_THRESHOLD);
    assert_eq!(state.borrow_guard[..9], [8, 7, 6, 5, 4, 3, 2, 1, 0]);
    for threshold in [0, 1, 10, 255, 256, 65_536, i64::MAX - 1, i64::MAX] {
        let state = threshold_token_state(&[0x05; 32], 3, threshold);
        assert_eq!(state.borrow_guard[..8], threshold.to_le_bytes());
        assert_eq!(state.borrow_guard[8..], [0; 24]);
        assert_eq!(guard_threshold(&state.borrow_guard), threshold);
    }
}

#[test]
fn guard_threshold_reads_a_signed_magnitude() {
    let guard = |low: u8, high: u8| {
        let mut guard = [0u8; 32];
        guard[0] = low;
        guard[7] = high;
        guard[8..].fill(0x77);
        guard
    };
    assert_eq!(guard_threshold(&guard(1, 0x80)), -1);
    assert_eq!(guard_threshold(&guard(0, 0x80)), 0);
    assert_eq!(guard_threshold(&guard(5, 0)), 5);
    assert_eq!(guard_threshold(&guard(0, 1)), 0x0100_0000_0000_0000);
    assert_eq!(guard_threshold(&[0xff; 32]), -i64::MAX);
}

#[test]
fn policies_need_known_schemes() {
    let mut state = state(1);
    assert!(is_valid_policy(&state));
    state.owner_scheme = OWNER_COVENANT_ID;
    state.borrow_scheme = BORROW_HASH_CHAIN;
    assert!(is_valid_policy(&state));
    assert!(check_policies(&vec![state, state]));
    state.owner_scheme = OWNER_COVENANT_ID + 1;
    assert!(!is_valid_policy(&state));
    state.owner_scheme = 0;
    state.borrow_scheme = BORROW_HASH_CHAIN + 1;
    assert!(!is_valid_policy(&state));
    assert!(!check_policies(&vec![token_state(&[0; 32], 1), state]));
    // A negative number matters only where the guard is a threshold.
    state.borrow_guard = [0xff; 32];
    state.borrow_scheme = BORROW_HASH_CHAIN;
    assert!(is_valid_policy(&state));
    state.borrow_scheme = BORROW_AMOUNT_THRESHOLD;
    assert!(!is_valid_policy(&state));
}

#[test]
fn totals_are_exact_and_bounded() {
    assert_eq!(spendable_total(&vec![]), Some(0));
    assert_eq!(spendable_total(&vec![state(3), state(4), state(0)]), Some(7));
    assert_eq!(spendable_total(&vec![state(i64::MAX - 1), state(1)]), Some(i64::MAX));
    assert_eq!(spendable_total(&vec![state(i64::MAX), state(1)]), None);
    assert_eq!(spendable_total(&vec![state(5), state(-1)]), None);
    assert!(check_conservation(&vec![state(3), state(4)], &vec![state(7)]));
    assert!(!check_conservation(&vec![state(3), state(4)], &vec![state(8)]));
    assert!(!check_conservation(&vec![state(7)], &vec![state(8), state(-1)]));
}

#[test]
fn extension_commitments_are_shared() {
    let mut other = state(1);
    other.extension_commitment = [0x42; 32];
    assert!(check_extension(&vec![state(1), state(2)], &[0; 32]));
    assert!(!check_extension(&vec![state(1), other], &[0; 32]));
    assert!(check_extension(&vec![other], &[0x42; 32]));
    assert!(check_extension(&vec![], &[0x42; 32]));
}

#[test]
fn shapes_are_bounded_and_led_by_the_first_input() {
    assert_eq!(check_shape(&vec![4], &vec![0], 4), Ok(()));
    assert_eq!(check_shape(&vec![1, 2, 5], &vec![0, 1, 2], 1), Ok(()));
    assert_eq!(check_shape(&vec![1, 2], &vec![0], 2), Err(Rejection::Role));
    assert_eq!(check_shape(&vec![0, 1, 2, 3], &vec![0], 0), Err(Rejection::Shape));
    assert_eq!(check_shape(&vec![0], &vec![], 0), Err(Rejection::Shape));
    assert_eq!(check_shape(&vec![0], &vec![0, 1, 2, 3], 0), Err(Rejection::Shape));
}

#[test]
fn states_are_checked_in_order() {
    let (spent, zero) = (vec![state(7), state(3)], [0; 32]);
    assert_eq!(check_states(&spent, &vec![state(10)], &zero), Ok(()));
    assert_eq!(check_states(&spent, &vec![state(11)], &zero), Err(Rejection::Conservation));
    let mut other = state(10);
    other.borrow_scheme = 0xff;
    assert_eq!(check_states(&spent, &vec![other], &zero), Err(Rejection::Policy));
    other.extension_commitment = [1; 32];
    assert_eq!(check_states(&spent, &vec![other], &zero), Err(Rejection::Extension));
    assert_eq!(check_states(&spent, &vec![state(10)], &[1; 32]), Err(Rejection::Extension));
}

#[test]
fn borrowed_holding_is_kept() {
    let before = threshold_token_state(&[0x05; 32], 200, 10);
    let after = threshold_token_state(&[0x05; 32], 201, 10);
    assert!(check_holding(&before, 1_000, &after, 1_000));
    assert!(check_holding(&before, 1_000, &after, 1_001));
    assert!(!check_holding(&before, 1_000, &after, 999));
    assert!(!check_holding(&before, 1_000, &before, 1_000));
    let mut other = after;
    other.owner = [0x06; 32];
    assert!(!check_holding(&before, 1_000, &other, 1_000));
    let mut other = after;
    other.extension_commitment = [0x06; 32];
    assert!(!check_holding(&before, 1_000, &other, 1_000));
}

#[test]
fn threshold_borrow_compares_the_increase() {
    let tx = sample();
    let before = threshold_token_state(&[0x05; 32], 200, 10);
    for (amount, authorized) in [(211, true), (210, false), (200, false), (i64::MAX, true)] {
        let after = threshold_token_state(&[0x05; 32], amount, 10);
        assert_eq!(check_borrow(&tx, 0, &before, &after, &[]), authorized);
    }
    let after = threshold_token_state(&[0x05; 32], 300, 11);
    assert!(!check_borrow(&tx, 0, &before, &after, &[]));
    let after = threshold_token_state(&[0x05; 32], 300, 10);
    assert!(!check_borrow(&tx, 0, &before, &after, &[0]));
    let never = threshold_token_state(&[0x05; 32], 0, i64::MAX);
    let most = threshold_token_state(&[0x05; 32], i64::MAX, i64::MAX);
    assert!(!check_borrow(&tx, 0, &never, &most, &[]));
}

#[test]
fn links_tie_two_guards() {
    let (before, after) = ([0x01; 32], [0x02; 32]);
    assert!(check_link(&before, &after, &[0x02; 32], &[0x01; 32]));
    assert!(!check_link(&before, &after, &[0x03; 32], &[0x01; 32]));
    assert!(!check_link(&before, &after, &[0x02; 32], &[0x03; 32]));
    assert!(!check_link(&before, &after, &[0x02; 31], &[0x01; 32]));
}

#[test]
fn families_are_found_in_order() {
    let tx = sample();
    assert_eq!(find_family_inputs(&tx, &[0x11; 32]), [1, 3]);
    assert_eq!(find_family_inputs(&tx, &[0x22; 32]), [2]);
    assert!(find_family_inputs(&tx, &[0x33; 32]).is_empty());
    assert_eq!(find_family_outputs(&tx, &[0x11; 32]), [0, 2]);
    assert!(find_family_outputs(&tx, &[0x22; 32]).is_empty());
    assert!(is_in_family(&tx, 1, &[0x11; 32]) && !is_in_family(&tx, 0, &[0x11; 32]));
    assert!(has_family_input(&tx, &[0x22; 32]) && !has_family_input(&tx, &[0x33; 32]));
    assert!(is_continuation(&tx, 0) && !is_continuation(&tx, 1) && is_continuation(&tx, 2));
    assert!(is_authorized_by(&tx, 3, 2) && !is_authorized_by(&tx, 1, 2));
    let any: Vec<bool> = (0..4).map(|input| authorizes_any(&tx, input)).collect();
    assert_eq!(any, [false, true, false, true]);
    assert!(check_owner(&tx, 0, OWNER_COVENANT_ID, &[0x22; 32], &[]));
    assert!(!check_owner(&tx, 0, OWNER_COVENANT_ID, &[0x33; 32], &[]));
}

#[test]
fn bindings_continue_a_family_or_found_one() {
    let mut tx = sample();
    assert!(check_bindings(&tx));
    tx.outputs[0].covenant = Some(Binding { authorizing_input: 0, covenant_id: [0x11; 32] });
    assert!(!check_bindings(&tx));
    tx.outputs[0].covenant = Some(Binding { authorizing_input: 4, covenant_id: [0x11; 32] });
    assert!(!check_bindings(&tx));
    // A new family is named by the outpoint and the outputs that found it.
    tx.outputs[0].covenant = None;
    let (transaction, _) = consensus_sample(&tx);
    let founded = kaspa_consensus_core::hashing::covenant_id::covenant_id(
        transaction.inputs[0].previous_outpoint,
        [(0u32, &transaction.outputs[0])].into_iter(),
    );
    tx.outputs[0].covenant =
        Some(Binding { authorizing_input: 0, covenant_id: founded.as_bytes() });
    assert!(check_bindings(&tx));
    assert!(!is_continuation(&tx, 0));
}

#[test]
fn scripts_decide_for_other_inputs() {
    let mut tx = sample();
    tx.inputs[0].utxo.lock.script = vec![0x51];
    tx.inputs[0].signature_script = Vec::new();
    assert!(run_script(&tx, 0));
    tx.inputs[0].utxo.lock.script = vec![0x00];
    assert!(!run_script(&tx, 0));
    // The signature script takes part: OP_1 OP_EQUALVERIFY needs a one.
    tx.inputs[0].utxo.lock.script = vec![0x51, 0x88, 0x51];
    assert!(!run_script(&tx, 0));
    tx.inputs[0].signature_script = vec![0x51];
    assert!(run_script(&tx, 0));
}

#[test]
fn borrow_witness_shows_the_link() {
    let tx = sample();
    assert_eq!(borrow_witness(&tx, &Borrower::Threshold), [0x01]);
    let (key, public_key) = demo_keys(0xcc);
    let borrower = Borrower::HashChain { next_guard: [0x42; 32], key };
    let witness = borrow_witness(&tx, &borrower);
    assert_eq!(witness.len(), 130);
    assert_eq!(witness[0], 0x01);
    assert_eq!(witness[1..33], [0x42; 32]);
    assert_eq!(witness[33..65], public_key);
    assert_eq!(witness[129], SIG_HASH_ALL);
    assert!(check_schnorr(&tx, 0, &public_key, &witness[65..]));
}

#[test]
fn borrowed_receive_is_accepted() {
    let program = TokenProgram { prefix: vec![1], suffix: vec![2] };
    let (alice, alice_public_key) = demo_keys(0xaa);
    let encoded = |state: TokenState, tag: u8| EncodedState { state, script: vec![tag] };
    let bob = [0x05; 32];
    let leader = unspent_token(
        &program,
        encoded(threshold_token_state(&bob, 5, 2), 0),
        demo_outpoint(8, 1),
        &DEMO_COVENANT_ID,
    );
    let delegate = unspent_token(
        &program,
        encoded(token_state(&alice_public_key, 4), 1),
        demo_outpoint(9, 2),
        &DEMO_COVENANT_ID,
    );
    let receive = |increase: i64| {
        borrowed_receive(
            &program,
            &leader,
            &delegate,
            &encoded(threshold_token_state(&bob, 5 + increase, 2), 2),
            &encoded(token_state(&alice_public_key, 4 - increase), 3),
            &DEMO_COVENANT_ID,
            &Borrower::Threshold,
            &alice,
        )
    };
    execute_transaction(&program, &receive(3)).unwrap();
    execute_transaction(&program, &receive(4)).unwrap();
    execute_transaction(&program, &receive(2)).unwrap_err();
    execute_transaction(&program, &receive(5)).unwrap_err();
}

#[test]
fn byte_strings_are_compared_and_joined() {
    assert!(same_bytes(&[], &[]) && same_bytes(&[1, 2], &[1, 2]));
    assert!(!same_bytes(&[1, 2], &[1, 3]) && !same_bytes(&[1, 2], &[1]));
    assert!(same_word(&[7; 32], &[7; 32]) && !same_word(&[7; 32], &[8; 32]));
    let mut bytes = copy_bytes(&[1, 2]);
    append(&mut bytes, &[3]);
    append(&mut bytes, &[]);
    assert_eq!(bytes, [1, 2, 3]);
}
