//! Transfers that the rules accept and reject, with transactions encoded directly so that
//! malformed ones reach the rules.

use kaspa_txscript::opcodes::codes::OpCheckSig;
use kaspa_txscript::script_builder::ScriptBuilder;
use kaspa_txscript::{pay_to_script_hash_script, pay_to_script_hash_signature_script};
use kcc20::authorization::public_key_hash;
use kcc20::consensus::{ecdsa_signature_hash, schnorr_signature_hash};
use kcc20::program::{
    dispatch_tag, state_layout, transfer_delegator_signature, transfer_signature, TokenProgram,
};
use kcc20::receive::COVENANT_TX_VERSION;
use kcc20::state::{
    threshold_token_state, token_state, TokenState, BORROW_AMOUNT_THRESHOLD, BORROW_DISABLED,
    BORROW_HASH_CHAIN, BORROW_SCHNORR_SIGNATURE, OWNER_COVENANT_ID, OWNER_P2PKH_ECDSA,
    OWNER_P2PKH_SCHNORR, OWNER_P2PK_SCHNORR, OWNER_P2SH, TOKEN_OUTPUT_SOMPI,
};
use kcc20::support::{demo_keys, demo_outpoint, sign_input, Keypair, SIG_HASH_ALL};
use kcc20::transaction::{
    Binding, ComputeCommit, EncodedState, Entry, Lock, Outpoint, TokenCall, Transaction, TxInput,
    TxOutput, Utxo,
};
use kcc20::transfer::{
    execute_input, execute_transaction, InputError, Rejection, PATH_BORROW, PATH_NORMAL,
};
use secp256k1::{Message, Secp256k1, SecretKey};

const COVENANT_ID: [u8; 32] = [0x11; 32];
const TRANSFER: &str = "transfer";
const DELEGATOR: &str = "transfer_delegator";

fn program() -> TokenProgram {
    TokenProgram { prefix: vec![0x6b, 0x01], suffix: vec![0x75, 0x51] }
}

fn state_script(state: &TokenState) -> Vec<u8> {
    let mut script = state.amount.to_le_bytes().to_vec();
    script.extend(state.owner);
    script.push(state.owner_scheme);
    script.push(state.borrow_scheme);
    script.extend(state.borrow_guard);
    script.extend(state.extension_commitment);
    script
}

fn encoded(state: &TokenState) -> EncodedState {
    EncodedState { state: *state, script: state_script(state) }
}

fn locked(state: &TokenState) -> Lock {
    program().token_lock(&state_script(state))
}

fn lock_of(redeem_script: &[u8]) -> Lock {
    let key = pay_to_script_hash_script(redeem_script);
    Lock { version: key.version(), script: key.script().to_vec() }
}

fn op_true() -> Lock {
    Lock { version: 0, script: vec![0x51] }
}

fn unspent(lock: Lock, covenant_id: Option<[u8; 32]>) -> Utxo {
    Utxo { amount: 1_000, lock, daa_score: 1, coinbase: false, covenant_id }
}

fn tx_input(
    previous: Outpoint,
    signature_script: Vec<u8>,
    utxo: Utxo,
    call: Option<TokenCall>,
) -> TxInput {
    let compute_commit = ComputeCommit::ComputeBudget(0);
    TxInput { previous, signature_script, sequence: 0, compute_commit, utxo, call }
}

/// A demo key, also as the key of the signature crate.
#[derive(Clone, Copy)]
struct Signer {
    key: Keypair,
    pair: secp256k1::Keypair,
}

fn keys(seed: u8) -> (Signer, [u8; 32]) {
    let (key, public_key) = demo_keys(seed);
    let secret = SecretKey::from_slice(&[seed; 32]).unwrap();
    let pair = secp256k1::Keypair::from_secret_key(&Secp256k1::new(), &secret);
    (Signer { key, pair }, public_key)
}

fn chain_guard(next_guard: &[u8; 32], signer: &Signer) -> [u8; 32] {
    let mut preimage = next_guard.to_vec();
    preimage.extend(signer.pair.x_only_public_key().0.serialize());
    *blake3::hash(&preimage).as_bytes()
}

fn schnorr_signature(tx: &Transaction, index: usize, signer: &Signer, hash_type: u8) -> Vec<u8> {
    if hash_type == SIG_HASH_ALL {
        return sign_input(tx, index, &signer.key);
    }
    let digest = schnorr_signature_hash(tx, index, hash_type);
    let mut signature =
        signer.pair.sign_schnorr(Message::from_digest(digest)).serialize().to_vec();
    signature.push(hash_type);
    signature
}

#[derive(Clone)]
enum Authorization {
    Owner(Signer),
    P2pkhSchnorr(Signer),
    P2pkhEcdsa(Signer),
    BorrowSignature(Signer),
    HashChain { next_guard: [u8; 32], key: Signer },
    Raw(Vec<u8>),
}

impl Authorization {
    fn witness(&self, tx: &Transaction, index: usize, leader: bool) -> Vec<u8> {
        self.witness_with_hash_type(tx, index, leader, SIG_HASH_ALL)
    }

    fn witness_with_hash_type(
        &self,
        tx: &Transaction,
        index: usize,
        leader: bool,
        hash_type: u8,
    ) -> Vec<u8> {
        let mut witness = match self {
            Self::Raw(bytes) => return bytes.clone(),
            Self::BorrowSignature(_) | Self::HashChain { .. } => vec![PATH_BORROW],
            _ if leader => vec![PATH_NORMAL],
            _ => Vec::new(),
        };
        match self {
            Self::Owner(key) | Self::BorrowSignature(key) => {
                witness.extend(schnorr_signature(tx, index, key, hash_type));
            }
            Self::P2pkhSchnorr(key) => {
                witness.extend(key.key.public_key());
                witness.extend(schnorr_signature(tx, index, key, hash_type));
            }
            Self::P2pkhEcdsa(key) => {
                witness.extend(key.pair.public_key().serialize());
                let digest = ecdsa_signature_hash(tx, index, hash_type);
                let signature = Secp256k1::new()
                    .sign_ecdsa(&Message::from_digest(digest), &key.pair.secret_key());
                witness.extend(signature.serialize_compact());
                witness.push(hash_type);
            }
            Self::HashChain { next_guard, key } => {
                witness.extend(next_guard);
                witness.extend(key.key.public_key());
                witness.extend(schnorr_signature(tx, index, key, hash_type));
            }
            Self::Raw(_) => unreachable!(),
        }
        witness
    }
}

#[derive(Clone)]
struct Input {
    state: TokenState,
    authorization: Authorization,
}

struct Transfer {
    inputs: Vec<Input>,
    outputs: Vec<TokenState>,
    output_values: Vec<u64>,
    declared_states: Option<Vec<TokenState>>,
    authority: Option<(Utxo, Vec<u8>)>,
    entries: Option<Vec<&'static str>>,
    output_bindings: Option<Vec<Binding>>,
    ordinary_prefix: bool,
    signature_hash_type: u8,
}

impl Transfer {
    fn normal() -> Self {
        let (alice, public_key) = keys(0xaa);
        let state = token_state(&public_key, 100);
        Self {
            inputs: vec![Input { state, authorization: Authorization::Owner(alice) }],
            outputs: vec![state],
            output_values: vec![TOKEN_OUTPUT_SOMPI],
            declared_states: None,
            authority: None,
            entries: None,
            output_bindings: None,
            ordinary_prefix: false,
            signature_hash_type: SIG_HASH_ALL,
        }
    }

    fn borrowed(increase: i64) -> Self {
        let (alice, alice_public_key) = keys(0xaa);
        let (_, bob_public_key) = keys(0xbb);
        Self {
            inputs: vec![
                Input {
                    state: threshold_token_state(&bob_public_key, 200, 10),
                    authorization: Authorization::Raw(vec![PATH_BORROW]),
                },
                Input {
                    state: token_state(&alice_public_key, 100),
                    authorization: Authorization::Owner(alice),
                },
            ],
            outputs: vec![
                threshold_token_state(&bob_public_key, 200 + increase, 10),
                token_state(&alice_public_key, 100 - increase),
            ],
            output_values: vec![TOKEN_OUTPUT_SOMPI; 2],
            declared_states: None,
            authority: None,
            entries: None,
            output_bindings: None,
            ordinary_prefix: false,
            signature_hash_type: SIG_HASH_ALL,
        }
    }

    fn borrow_policy(&mut self, scheme: u8, guard: [u8; 32]) {
        for state in [&mut self.inputs[0].state, &mut self.outputs[0]] {
            state.borrow_scheme = scheme;
            state.borrow_guard = guard;
        }
    }

    fn owner_scheme(&mut self, index: usize, scheme: u8) {
        let (key, public_key) = keys(0xaa);
        let (owner, authorization) = match scheme {
            OWNER_P2PK_SCHNORR => (public_key, Authorization::Owner(key)),
            OWNER_P2PKH_SCHNORR => {
                (public_key_hash(&public_key), Authorization::P2pkhSchnorr(key))
            }
            OWNER_P2PKH_ECDSA => (
                public_key_hash(&key.pair.public_key().serialize()),
                Authorization::P2pkhEcdsa(key),
            ),
            OWNER_P2SH => {
                // OP_TRUE shows the least that an authority has to do: take part.
                let redeem_script = vec![0x51];
                let lock = lock_of(&redeem_script);
                let owner = lock.script[2..34].try_into().unwrap();
                let mut witness = if index == 0 { vec![PATH_NORMAL] } else { Vec::new() };
                let authority_index = self.inputs.len() + usize::from(self.ordinary_prefix);
                witness.push(u8::try_from(authority_index).unwrap());
                let signature_script =
                    ScriptBuilder::new().add_data(&redeem_script).unwrap().drain();
                self.authority = Some((unspent(lock, None), signature_script));
                (owner, Authorization::Raw(witness))
            }
            OWNER_COVENANT_ID => (
                COVENANT_ID,
                Authorization::Raw(if index == 0 { vec![PATH_NORMAL] } else { Vec::new() }),
            ),
            _ => panic!("unsupported owner scheme"),
        };
        self.inputs[index].state.owner_scheme = scheme;
        self.inputs[index].state.owner = owner;
        self.inputs[index].authorization = authorization;
    }

    fn signed_case(&self) -> Transaction {
        assert_eq!(self.outputs.len(), self.output_values.len());
        let input_offset = usize::from(self.ordinary_prefix);
        let mut inputs = Vec::new();
        let mut outputs = Vec::new();
        if self.ordinary_prefix {
            inputs.push(tx_input(demo_outpoint(3, 0), Vec::new(), unspent(op_true(), None), None));
            outputs.push(TxOutput { value: 1_000, lock: op_true(), covenant: None });
        }
        for (index, input) in self.inputs.iter().enumerate() {
            let utxo = unspent(locked(&input.state), Some(COVENANT_ID));
            inputs.push(tx_input(demo_outpoint(1, index as u32), Vec::new(), utxo, None));
        }
        if let Some((utxo, signature_script)) = &self.authority {
            inputs.push(tx_input(
                demo_outpoint(2, 0),
                signature_script.clone(),
                utxo.clone(),
                None,
            ));
        }
        for (index, (state, value)) in self.outputs.iter().zip(&self.output_values).enumerate() {
            let own = Binding { authorizing_input: input_offset as u16, covenant_id: COVENANT_ID };
            let covenant = self.output_bindings.as_ref().map_or(own, |bindings| bindings[index]);
            outputs.push(TxOutput {
                value: *value,
                lock: locked(state),
                covenant: Some(covenant),
            });
        }
        let mut tx = Transaction {
            version: COVENANT_TX_VERSION,
            inputs,
            outputs,
            lock_time: 0,
            subnetwork_id: [0; 20],
            gas: 0,
            payload: Vec::new(),
        };
        let declared = self.declared_states.as_ref().unwrap_or(&self.outputs);
        let next_states: Vec<EncodedState> = declared.iter().map(encoded).collect();
        for (index, input) in self.inputs.iter().enumerate() {
            let input_index = index + input_offset;
            let usual = if index == 0 { TRANSFER } else { DELEGATOR };
            let entry = self.entries.as_ref().map_or(usual, |entries| entries[index]);
            let witness = input.authorization.witness_with_hash_type(
                &tx,
                input_index,
                entry == TRANSFER,
                self.signature_hash_type,
            );
            let entry = if entry == TRANSFER {
                Entry::Transfer { next_states: next_states.clone(), witness }
            } else {
                Entry::TransferDelegator { witness }
            };
            tx.inputs[input_index].call =
                Some(TokenCall { current: encoded(&input.state), entry });
        }
        tx
    }

    fn build(&self) -> Result<Transaction, InputError> {
        let tx = self.signed_case();
        execute_transaction(&program(), &tx)?;
        Ok(tx)
    }

    fn rejects_at(&self, expected_input: usize) {
        let error = self.build().expect_err("invalid transfer must fail");
        assert_eq!(error.input_index, expected_input, "{error:?}");
    }

    fn rejects_for(&self, input_index: usize, reason: Rejection) {
        let error = self.build().expect_err("invalid transfer must fail");
        assert_eq!(error, InputError { input_index, reason });
    }
}

#[test]
fn leader_and_delegate_accept_each_owner_scheme() {
    for scheme in 0..=OWNER_COVENANT_ID {
        let mut transfer = Transfer::normal();
        transfer.owner_scheme(0, scheme);
        transfer
            .build()
            .unwrap_or_else(|error| panic!("leader scheme {scheme:#04x}: {error:?}"));

        let mut transfer = Transfer::borrowed(11);
        transfer.owner_scheme(1, scheme);
        transfer
            .build()
            .unwrap_or_else(|error| panic!("delegate scheme {scheme:#04x}: {error:?}"));
    }
}

#[test]
fn owner_authorization_rejects_wrong_keys_and_missing_authorities() {
    let (wrong_key, _) = keys(0xcc);
    let mut transfer = Transfer::normal();
    transfer.inputs[0].authorization = Authorization::Owner(wrong_key);
    transfer.rejects_at(0);
    for scheme in [OWNER_P2PKH_SCHNORR, OWNER_P2PKH_ECDSA] {
        let mut transfer = Transfer::normal();
        transfer.inputs[0].state.owner_scheme = scheme;
        transfer.inputs[0].authorization = if scheme == OWNER_P2PKH_SCHNORR {
            Authorization::P2pkhSchnorr(wrong_key)
        } else {
            Authorization::P2pkhEcdsa(wrong_key)
        };
        transfer.rejects_at(0);
    }
    for (scheme, witness) in [
        (OWNER_P2SH, vec![PATH_NORMAL, 255]),
        (OWNER_COVENANT_ID, vec![PATH_NORMAL]),
    ] {
        let mut transfer = Transfer::normal();
        transfer.inputs[0].state.owner_scheme = scheme;
        transfer.inputs[0].authorization = Authorization::Raw(witness);
        transfer.rejects_at(0);
    }
}

#[test]
fn transfer_rejects_amount_and_extension_mismatches() {
    for amount in [99i64, 101, -1] {
        let mut transfer = Transfer::normal();
        transfer.outputs[0].amount = amount;
        transfer.rejects_at(0);
    }
    let mut transfer = Transfer::borrowed(11);
    transfer.inputs[0].state.amount = -5;
    transfer.outputs[0].amount = 6;
    transfer.rejects_at(0);

    let mut transfer = Transfer::borrowed(11);
    transfer.inputs[1].state.extension_commitment = [0x42u8; 32];
    transfer.rejects_at(0);
    let mut transfer = Transfer::normal();
    transfer.outputs[0].extension_commitment = [0x42u8; 32];
    transfer.rejects_at(0);
}

#[test]
fn transfer_preserves_any_shared_extension_commitment() {
    let mut transfer = Transfer::borrowed(11);
    for input in &mut transfer.inputs {
        input.state.extension_commitment = [0x42u8; 32];
    }
    for output in &mut transfer.outputs {
        output.extension_commitment = [0x42u8; 32];
    }
    transfer.build().unwrap();
}

#[test]
fn transfer_rejects_invalid_output_policies() {
    for field in ["owner_scheme", "borrow_scheme"] {
        let mut transfer = Transfer::normal();
        if field == "owner_scheme" {
            transfer.outputs[0].owner_scheme = 0xff;
        } else {
            transfer.outputs[0].borrow_scheme = 0xff;
        }
        transfer.rejects_at(0);
    }
    let mut transfer = Transfer::normal();
    let mut guard = [0u8; 32];
    guard[0] = 1;
    guard[7] = 0x80; // Eight-byte signed-magnitude encoding of -1.
    transfer.outputs[0].borrow_scheme = BORROW_AMOUNT_THRESHOLD;
    transfer.outputs[0].borrow_guard = guard;
    transfer.rejects_at(0);
}

#[test]
fn transfer_rejects_malformed_leader_witnesses() {
    for witness in [vec![], vec![0xff], vec![PATH_NORMAL], vec![PATH_NORMAL; 67]] {
        let mut transfer = Transfer::normal();
        transfer.inputs[0].authorization = Authorization::Raw(witness);
        transfer.rejects_at(0);
    }
}

#[test]
fn transfer_binds_declared_states_to_actual_outputs() {
    let mut transfer = Transfer::normal();
    transfer.declared_states = Some(transfer.outputs.clone());
    transfer.outputs[0].owner = [0x42u8; 32];
    transfer.rejects_at(0);
}

#[test]
fn threshold_borrow_requires_a_strict_increase() {
    Transfer::borrowed(11).build().unwrap();
    for increase in [0, 5, 10] {
        Transfer::borrowed(increase).rejects_at(0);
    }
    let mut transfer = Transfer::borrowed(1);
    transfer.borrow_policy(BORROW_AMOUNT_THRESHOLD, [0; 32]);
    transfer.build().unwrap();
}

#[test]
fn threshold_uses_only_the_first_eight_guard_bytes() {
    let mut transfer = Transfer::borrowed(11);
    let mut guard = [0x42; 32];
    guard[..8].copy_from_slice(&10i64.to_le_bytes());
    transfer.borrow_policy(BORROW_AMOUNT_THRESHOLD, guard);
    transfer.build().unwrap();
}

#[test]
fn borrowed_receive_preserves_owner_policy_and_sompi() {
    for field in ["owner", "owner_scheme", "borrow_scheme", "borrow_guard"] {
        let mut transfer = Transfer::borrowed(11);
        let state = &mut transfer.outputs[0];
        match field {
            "owner" => state.owner = [0x42u8; 32],
            "owner_scheme" => state.owner_scheme = OWNER_COVENANT_ID,
            "borrow_scheme" => state.borrow_scheme = BORROW_DISABLED,
            _ => state.borrow_guard = [0u8; 32],
        }
        transfer.rejects_at(0);
    }
    let mut transfer = Transfer::borrowed(11);
    transfer.output_values[0] -= 1;
    transfer.output_values[1] += 1;
    transfer.rejects_at(0);
    let mut transfer = Transfer::borrowed(11);
    transfer.outputs.swap(0, 1);
    transfer.rejects_at(0);
}

#[test]
fn borrowed_receive_still_requires_delegate_authorization() {
    let mut transfer = Transfer::borrowed(11);
    transfer.inputs[1].authorization = Authorization::Owner(keys(0xcc).0);
    transfer.rejects_at(1);
    transfer.inputs[1].authorization = Authorization::Raw(vec![PATH_BORROW]);
    transfer.rejects_at(1);
}

#[test]
fn disabled_borrow_and_unexpected_threshold_witness_are_rejected() {
    let mut transfer = Transfer::borrowed(11);
    transfer.borrow_policy(BORROW_DISABLED, [0; 32]);
    transfer.rejects_at(0);
    let mut transfer = Transfer::borrowed(11);
    transfer.inputs[0].authorization = Authorization::Raw(vec![PATH_BORROW, 0]);
    transfer.rejects_at(0);
}

#[test]
fn signature_borrow_requires_the_guard_key_and_positive_increase() {
    let (key, public_key) = keys(0xcc);
    let mut transfer = Transfer::borrowed(1);
    transfer.borrow_policy(BORROW_SCHNORR_SIGNATURE, public_key);
    transfer.inputs[0].authorization = Authorization::BorrowSignature(key);
    transfer.build().unwrap();
    transfer.inputs[0].authorization = Authorization::BorrowSignature(keys(0xdd).0);
    transfer.rejects_at(0);
    transfer.inputs[0].authorization = Authorization::Raw(vec![PATH_BORROW]);
    transfer.rejects_at(0);
    let mut transfer = Transfer::borrowed(0);
    transfer.borrow_policy(BORROW_SCHNORR_SIGNATURE, public_key);
    transfer.inputs[0].authorization = Authorization::BorrowSignature(key);
    transfer.rejects_at(0);
}

#[test]
fn hash_chain_borrow_advances_guard_and_rejects_reused_links() {
    let (key, _) = keys(0xcc);
    let next_guard = [0x42; 32];
    let current_guard = chain_guard(&next_guard, &key);
    let mut transfer = Transfer::borrowed(1);
    transfer.borrow_policy(BORROW_HASH_CHAIN, current_guard);
    transfer.outputs[0].borrow_guard = next_guard;
    transfer.inputs[0].authorization = Authorization::HashChain { next_guard, key };
    transfer.build().unwrap();

    transfer.outputs[0].borrow_guard = current_guard;
    transfer.rejects_at(0);
    transfer.outputs[0].borrow_guard = next_guard;
    transfer.inputs[0].authorization =
        Authorization::HashChain { next_guard: [0x43; 32], key };
    transfer.rejects_at(0);
    transfer.inputs[0].authorization =
        Authorization::HashChain { next_guard, key: keys(0xdd).0 };
    transfer.rejects_at(0);

    // Once the successor holds next_guard, the old link no longer matches it.
    transfer.inputs[0].state = transfer.outputs[0];
    transfer.outputs[0].amount = 202;
    transfer.outputs[1].amount = 99;
    transfer.inputs[0].authorization = Authorization::HashChain { next_guard, key };
    transfer.rejects_at(0);
}

#[test]
fn transfer_rejects_negative_delegates_and_overflowing_totals() {
    let mut transfer = Transfer::borrowed(11);
    // Use the normal path so borrow-increase checks cannot mask a negative delegate.
    transfer.inputs[0].authorization = Authorization::Owner(keys(0xbb).0);
    transfer.inputs[1].state.amount = -1;
    transfer.outputs[0].amount = 199;
    transfer.outputs[1].amount = 0;
    transfer.rejects_at(0);

    let mut transfer = Transfer::borrowed(11);
    transfer.inputs[0].state.amount = i64::MAX;
    transfer.outputs[0].amount = i64::MAX;
    transfer.outputs[1].amount = 100;
    transfer.rejects_at(0);
}

#[test]
fn transfer_rejects_out_of_range_input_and_output_counts() {
    let mut transfer = Transfer::normal();
    for seed in [0xbb, 0xcc, 0xdd] {
        let (key, public_key) = keys(seed);
        transfer.inputs.push(Input {
            state: token_state(&public_key, 100),
            authorization: Authorization::Owner(key),
        });
    }
    transfer.outputs[0].amount = 400;
    transfer.rejects_at(0);
    for output_count in [0, 4] {
        let mut transfer = Transfer::normal();
        let state = token_state(&keys(0xaa).1, 25);
        transfer.outputs = vec![state; output_count];
        transfer.output_values = vec![250; output_count];
        transfer.rejects_at(0);
    }
}

#[test]
fn transfer_rejects_a_declared_output_count_mismatch() {
    let mut transfer = Transfer::normal();
    transfer.declared_states = Some(Vec::new());
    transfer.rejects_at(0);
}

#[test]
fn hash_chain_borrow_rejects_bad_signatures_and_witness_lengths() {
    let (key, public_key) = keys(0xcc);
    let next_guard = [0x42; 32];
    let mut transfer = Transfer::borrowed(1);
    transfer.borrow_policy(BORROW_HASH_CHAIN, chain_guard(&next_guard, &key));
    transfer.outputs[0].borrow_guard = next_guard;

    let mut witness = vec![PATH_BORROW];
    witness.extend(next_guard);
    witness.extend(public_key);
    witness.extend([0u8; 64]);
    witness.push(SIG_HASH_ALL);
    transfer.inputs[0].authorization = Authorization::Raw(witness.clone());
    transfer.rejects_at(0);
    witness.pop();
    transfer.inputs[0].authorization = Authorization::Raw(witness);
    transfer.rejects_at(0);

    let mut transfer = Transfer::borrowed(0);
    transfer.borrow_policy(BORROW_HASH_CHAIN, chain_guard(&next_guard, &key));
    transfer.outputs[0].borrow_guard = next_guard;
    transfer.inputs[0].authorization = Authorization::HashChain { next_guard, key };
    transfer.rejects_at(0);
}

#[test]
fn transfer_accepts_every_supported_input_output_shape() {
    for input_count in 1..=3usize {
        for output_count in 1..=3usize {
            let mut transfer = Transfer::normal();
            for index in 1..input_count {
                let (key, public_key) = keys(0xaa + index as u8);
                transfer.inputs.push(Input {
                    state: token_state(&public_key, 100),
                    authorization: Authorization::Owner(key),
                });
            }
            let (_, public_key) = keys(0xbb);
            let total = 100 * input_count as i64;
            transfer.outputs = (0..output_count)
                .map(|index| {
                    let amount = total / output_count as i64
                        + if index == 0 { total % output_count as i64 } else { 0 };
                    token_state(&public_key, amount)
                })
                .collect();
            transfer.output_values = (0..output_count)
                .map(|index| {
                    let total = TOKEN_OUTPUT_SOMPI * input_count as u64;
                    total / output_count as u64
                        + if index == 0 { total % output_count as u64 } else { 0 }
                })
                .collect();
            let transaction = transfer.build().unwrap();
            assert_eq!(transaction.inputs.len(), input_count);
            assert_eq!(transaction.outputs.len(), output_count);
        }
    }
}

#[test]
fn leader_and_borrowed_successor_use_covenant_positions() {
    let mut transfer = Transfer::borrowed(11);
    transfer.ordinary_prefix = true;
    transfer.build().unwrap();
}

#[test]
fn leader_and_delegator_entrypoints_reject_opposite_roles() {
    let mut transfer = Transfer::borrowed(11);
    transfer.inputs[0].authorization = Authorization::Owner(keys(0xbb).0);
    transfer.entries = Some(vec!["transfer_delegator", "transfer_delegator"]);
    transfer.rejects_at(0);

    transfer.entries = Some(vec!["transfer", "transfer"]);
    transfer.rejects_at(1);
}

#[test]
fn delegate_cannot_authorize_continuation_outputs() {
    let mut transfer = Transfer::borrowed(11);
    transfer.output_bindings = Some(vec![
        Binding { authorizing_input: 0, covenant_id: COVENANT_ID },
        Binding { authorizing_input: 1, covenant_id: COVENANT_ID },
    ]);
    let transaction = transfer.signed_case();
    // Inspect each input independently; the leader must not mask delegate failure.
    for input_index in [0, 1] {
        assert!(execute_input(&program(), &transaction, input_index).is_err());
    }
}

#[test]
fn continuation_rejects_missing_or_foreign_covenant_binding() {
    let transfer = Transfer::borrowed(11);
    for binding in [None, Some(Binding { authorizing_input: 0, covenant_id: [0x22; 32] })] {
        let mut transaction = transfer.signed_case();
        transaction.outputs[0].covenant = binding;
        // The threshold leader has no signature, so rejection cannot be a stale signature.
        assert!(execute_input(&program(), &transaction, 0).is_err());
    }
}

#[test]
fn continuation_rejects_an_uncommitted_program() {
    let transfer = Transfer::borrowed(11);
    let mut transaction = transfer.signed_case();
    transaction.outputs[0].lock = Lock { version: 0, script: vec![0x51] };
    assert!(execute_input(&program(), &transaction, 0).is_err());
}

#[test]
fn hash_chain_accepts_successive_fresh_links() {
    let (first_key, _) = keys(0xcc);
    let (second_key, _) = keys(0xdd);
    let final_guard = [0x42; 32];
    let middle_guard = chain_guard(&final_guard, &second_key);
    let initial_guard = chain_guard(&middle_guard, &first_key);
    let mut transfer = Transfer::borrowed(1);
    transfer.borrow_policy(BORROW_HASH_CHAIN, initial_guard);
    transfer.outputs[0].borrow_guard = middle_guard;
    transfer.inputs[0].authorization =
        Authorization::HashChain { next_guard: middle_guard, key: first_key };
    transfer.build().unwrap();

    transfer.inputs[0].state = transfer.outputs[0];
    transfer.inputs[1].state = transfer.outputs[1];
    transfer.outputs[0].amount = 202;
    transfer.outputs[1].amount = 98;
    transfer.outputs[0].borrow_guard = final_guard;
    transfer.inputs[0].authorization =
        Authorization::HashChain { next_guard: final_guard, key: second_key };
    transfer.build().unwrap();
}

#[test]
fn normal_owner_can_replace_borrow_policy() {
    let mut transfer = Transfer::normal();
    let (key, public_key) = keys(0xcc);
    let final_guard = [0x42; 32];
    for (scheme, guard) in [
        (BORROW_DISABLED, [0x42; 32]),
        (BORROW_AMOUNT_THRESHOLD, [0; 32]),
        (BORROW_SCHNORR_SIGNATURE, public_key),
        (BORROW_HASH_CHAIN, chain_guard(&final_guard, &key)),
    ] {
        transfer.outputs[0].borrow_scheme = scheme;
        transfer.outputs[0].borrow_guard = guard;
        transfer.build().unwrap();
    }
}

#[test]
fn zero_and_maximum_token_amounts_are_spendable() {
    for amount in [0i64, i64::MAX] {
        let mut transfer = Transfer::normal();
        transfer.inputs[0].state.amount = amount;
        transfer.outputs[0].amount = amount;
        transfer.build().unwrap();
    }
}

#[test]
fn threshold_borrow_cannot_be_satisfied_at_maximum_threshold() {
    let mut transfer = Transfer::borrowed(11);
    let mut guard = [0u8; 32];
    guard[..8].copy_from_slice(&i64::MAX.to_le_bytes());
    transfer.borrow_policy(BORROW_AMOUNT_THRESHOLD, guard);
    transfer.rejects_at(0);
}

#[test]
fn owner_witnesses_require_exact_lengths_for_both_roles() {
    for scheme in 0..=OWNER_COVENANT_ID {
        for index in [0, 1] {
            let mut transfer =
                if index == 0 { Transfer::normal() } else { Transfer::borrowed(11) };
            transfer.owner_scheme(index, scheme);
            let unsigned = transfer.signed_case();
            let valid =
                transfer.inputs[index].authorization.witness(&unsigned, index, index == 0);
            let mut trailing = valid.clone();
            trailing.push(0);
            transfer.inputs[index].authorization = Authorization::Raw(trailing);
            transfer.rejects_at(index);
            // An empty covenant-ID delegate witness cannot be shortened.
            if !valid.is_empty() {
                transfer.inputs[index].authorization =
                    Authorization::Raw(valid[..valid.len() - 1].to_vec());
                transfer.rejects_at(index);
            }
        }
    }
}

#[test]
fn p2pkh_rejects_invalid_signatures_even_with_the_correct_public_key() {
    for scheme in [OWNER_P2PKH_SCHNORR, OWNER_P2PKH_ECDSA] {
        let mut transfer = Transfer::normal();
        transfer.owner_scheme(0, scheme);
        let unsigned = transfer.signed_case();
        let mut witness = transfer.inputs[0].authorization.witness(&unsigned, 0, true);
        let signature_start = witness.len() - 65;
        witness[signature_start..signature_start + 64].fill(0);
        transfer.inputs[0].authorization = Authorization::Raw(witness);
        transfer.rejects_at(0);
    }
}

#[test]
fn p2sh_authority_index_is_unsigned() {
    let mut transfer = Transfer::normal();
    transfer.owner_scheme(0, OWNER_P2SH);
    transfer.inputs[0].authorization = Authorization::Raw(vec![PATH_NORMAL, 255]);
    let mut transaction = transfer.signed_case();
    for index in 0..254 {
        transaction.inputs.insert(
            1,
            tx_input(demo_outpoint(4, index), Vec::new(), unspent(op_true(), None), None),
        );
    }
    execute_input(&program(), &transaction, 0).unwrap();
}

#[test]
fn covenant_id_authority_may_be_a_distinct_family() {
    let mut transfer = Transfer::normal();
    transfer.owner_scheme(0, OWNER_COVENANT_ID);
    let authority_id = [0x22; 32];
    transfer.inputs[0].state.owner = authority_id;
    transfer.authority = Some((unspent(op_true(), Some(authority_id)), Vec::new()));
    transfer.build().unwrap();
}

#[test]
fn reference_preserves_kcc20_state_layout_and_dispatch_tags() {
    let fields: Vec<&str> = state_layout().iter().map(|field| field.name).collect();
    assert_eq!(
        fields,
        [
            "amount",
            "owner",
            "owner_scheme",
            "borrow_scheme",
            "borrow_guard",
            "extension_commitment"
        ]
    );
    let hex = |tag: [u8; 4]| format!("{:08x}", u32::from_be_bytes(tag));
    assert_eq!(hex(dispatch_tag(&transfer_signature())), "79c71c23");
    assert_eq!(hex(dispatch_tag(&transfer_delegator_signature())), "fd3ef14a");
}

#[test]
fn signature_schemes_accept_all_consensus_sighash_types() {
    for byte in [0x01, 0x02, 0x04, 0x81, 0x82, 0x84] {
        for scheme in [OWNER_P2PK_SCHNORR, OWNER_P2PKH_SCHNORR, OWNER_P2PKH_ECDSA] {
            let mut transfer = Transfer::normal();
            transfer.owner_scheme(0, scheme);
            transfer.signature_hash_type = byte;
            transfer.build().unwrap();
        }
        let (key, public_key) = keys(0xcc);
        let mut transfer = Transfer::borrowed(1);
        transfer.borrow_policy(BORROW_SCHNORR_SIGNATURE, public_key);
        transfer.inputs[0].authorization = Authorization::BorrowSignature(key);
        transfer.signature_hash_type = byte;
        transfer.build().unwrap();
    }
}

#[test]
fn p2sh_authority_must_also_execute_successfully() {
    let mut transfer = Transfer::normal();
    let (key, public_key) = keys(0xcc);
    let redeem_script = ScriptBuilder::new()
        .add_data(&public_key)
        .unwrap()
        .add_op(OpCheckSig)
        .unwrap()
        .drain();
    let lock = lock_of(&redeem_script);
    transfer.inputs[0].state.owner_scheme = OWNER_P2SH;
    transfer.inputs[0].state.owner = lock.script[2..34].try_into().unwrap();
    transfer.inputs[0].authorization = Authorization::Raw(vec![PATH_NORMAL, 1]);
    transfer.authority = Some((unspent(lock, None), Vec::new()));
    let mut transaction = transfer.signed_case();
    let signature = sign_input(&transaction, 1, &key.key);
    let args = ScriptBuilder::new().add_data(&signature).unwrap().drain();
    transaction.inputs[1].signature_script =
        pay_to_script_hash_signature_script(redeem_script.clone(), args).unwrap();
    execute_transaction(&program(), &transaction).unwrap();

    let mut invalid_signature = signature;
    invalid_signature[..64].fill(0);
    let args = ScriptBuilder::new().add_data(&invalid_signature).unwrap().drain();
    transaction.inputs[1].signature_script =
        pay_to_script_hash_signature_script(redeem_script, args).unwrap();
    let error = execute_transaction(&program(), &transaction).unwrap_err();
    assert_eq!(error, InputError { input_index: 1, reason: Rejection::Script });
}

#[test]
fn rejections_name_their_reason() {
    let mut transaction = Transfer::borrowed(11).signed_case();
    transaction.outputs[0].covenant =
        Some(Binding { authorizing_input: 0, covenant_id: [0x22; 32] });
    assert_eq!(execute_input(&program(), &transaction, 0), Err(Rejection::Binding));
    assert_eq!(execute_input(&program(), &transaction, 1), Err(Rejection::Binding));

    let mut transaction = Transfer::borrowed(11).signed_case();
    transaction.outputs[0].covenant = Some(Binding { authorizing_input: 9, covenant_id: COVENANT_ID });
    assert_eq!(execute_input(&program(), &transaction, 0), Err(Rejection::Binding));

    let mut transfer = Transfer::borrowed(11);
    transfer.entries = Some(vec![DELEGATOR, DELEGATOR]);
    transfer.rejects_for(0, Rejection::Role);

    let mut transfer = Transfer::normal();
    transfer.outputs = Vec::new();
    transfer.output_values = Vec::new();
    transfer.rejects_for(0, Rejection::Shape);

    let mut transfer = Transfer::normal();
    transfer.declared_states = Some(Vec::new());
    transfer.rejects_for(0, Rejection::Continuation);

    let mut transfer = Transfer::normal();
    transfer.outputs[0].amount = 99;
    transfer.rejects_for(0, Rejection::Conservation);

    let mut transfer = Transfer::normal();
    transfer.outputs[0].extension_commitment = [0x42; 32];
    transfer.rejects_for(0, Rejection::Extension);

    let mut transfer = Transfer::normal();
    transfer.outputs[0].owner_scheme = 5;
    transfer.rejects_for(0, Rejection::Policy);

    let mut transfer = Transfer::normal();
    transfer.inputs[0].authorization = Authorization::Raw(vec![0x02]);
    transfer.rejects_for(0, Rejection::Witness);
    transfer.inputs[0].authorization = Authorization::Raw(vec![]);
    transfer.rejects_for(0, Rejection::Witness);

    let mut transfer = Transfer::normal();
    transfer.inputs[0].authorization = Authorization::Owner(keys(0xcc).0);
    transfer.rejects_for(0, Rejection::Authorization);

    Transfer::borrowed(10).rejects_for(0, Rejection::Borrow);
}

#[test]
fn token_inputs_must_commit_to_their_state_and_program() {
    // The leader itself claims another state than its lock commits to.
    let mut transaction = Transfer::normal().signed_case();
    transaction.inputs[0].utxo.lock = op_true();
    assert_eq!(execute_input(&program(), &transaction, 0), Err(Rejection::Commitment));

    // A delegate's lock is checked by the delegate and by its leader.
    let mut transaction = Transfer::borrowed(11).signed_case();
    transaction.inputs[1].utxo.lock = op_true();
    assert_eq!(execute_input(&program(), &transaction, 0), Err(Rejection::Commitment));
    assert_eq!(execute_input(&program(), &transaction, 1), Err(Rejection::Commitment));

    // An input outside every family is no token input.
    let mut transaction = Transfer::normal().signed_case();
    transaction.inputs[0].utxo.covenant_id = None;
    transaction.outputs.clear();
    assert_eq!(execute_input(&program(), &transaction, 0), Err(Rejection::Commitment));

    // Another program makes other locks.
    let other = TokenProgram { prefix: vec![0x6b], suffix: vec![0x75, 0x51] };
    let transaction = Transfer::normal().signed_case();
    assert_eq!(execute_input(&program(), &transaction, 0), Ok(()));
    assert_eq!(execute_input(&other, &transaction, 0), Err(Rejection::Commitment));
}

#[test]
fn delegate_cannot_authorize_and_leader_rejects_its_outputs() {
    let mut transfer = Transfer::borrowed(11);
    transfer.output_bindings = Some(vec![
        Binding { authorizing_input: 0, covenant_id: COVENANT_ID },
        Binding { authorizing_input: 1, covenant_id: COVENANT_ID },
    ]);
    let transaction = transfer.signed_case();
    assert_eq!(execute_input(&program(), &transaction, 0), Err(Rejection::Continuation));
    assert_eq!(execute_input(&program(), &transaction, 1), Err(Rejection::Continuation));
}

#[test]
fn signatures_need_a_consensus_hash_type() {
    for byte in [0x00u8, 0x03, 0x05, 0x80, 0x83, 0xff] {
        let transfer = Transfer::normal();
        let unsigned = transfer.signed_case();
        let mut witness = transfer.inputs[0].authorization.witness(&unsigned, 0, true);
        *witness.last_mut().unwrap() = byte;
        let mut transfer = Transfer::normal();
        transfer.inputs[0].authorization = Authorization::Raw(witness);
        transfer.rejects_for(0, Rejection::Authorization);
    }
}

#[test]
fn signature_of_another_hash_type_is_rejected() {
    let transfer = Transfer::normal();
    let unsigned = transfer.signed_case();
    let mut witness = transfer.inputs[0].authorization.witness(&unsigned, 0, true);
    *witness.last_mut().unwrap() = 0x02;
    let mut transfer = Transfer::normal();
    transfer.inputs[0].authorization = Authorization::Raw(witness);
    transfer.rejects_for(0, Rejection::Authorization);
}

#[test]
fn malformed_keys_are_rejected() {
    // 32 bytes of 0xff are no x-coordinate of the curve, 33 bytes of 0x07 no compressed key.
    let mut transfer = Transfer::normal();
    transfer.inputs[0].state.owner = [0xff; 32];
    transfer.rejects_for(0, Rejection::Authorization);

    let key = [0x07u8; 33];
    let mut transfer = Transfer::normal();
    transfer.inputs[0].state.owner_scheme = OWNER_P2PKH_ECDSA;
    transfer.inputs[0].state.owner = public_key_hash(&key);
    let mut witness = vec![PATH_NORMAL];
    witness.extend(key);
    witness.extend([0x01; 64]);
    witness.push(SIG_HASH_ALL);
    transfer.inputs[0].authorization = Authorization::Raw(witness);
    transfer.rejects_for(0, Rejection::Authorization);
}

#[test]
fn unknown_owner_scheme_cannot_spend() {
    let mut transfer = Transfer::normal();
    transfer.inputs[0].state.owner_scheme = 5;
    transfer.rejects_for(0, Rejection::Authorization);
}

#[test]
fn covenant_owner_may_be_the_active_input_itself() {
    let mut transfer = Transfer::normal();
    transfer.owner_scheme(0, OWNER_COVENANT_ID);
    assert_eq!(transfer.build().unwrap().inputs.len(), 1);
}

#[test]
fn p2sh_authority_must_hold_the_committed_envelope() {
    let mut transfer = Transfer::normal();
    transfer.owner_scheme(0, OWNER_P2SH);
    transfer.build().unwrap();
    // The first input, the token itself, does not hold the owner's envelope.
    transfer.inputs[0].authorization = Authorization::Raw(vec![PATH_NORMAL, 0]);
    transfer.rejects_for(0, Rejection::Authorization);
    // Another script version is another envelope.
    let mut transfer = Transfer::normal();
    transfer.owner_scheme(0, OWNER_P2SH);
    transfer.authority.as_mut().unwrap().0.lock.version = 1;
    transfer.rejects_for(0, Rejection::Authorization);
}

#[test]
fn negative_zero_threshold_is_zero() {
    let mut guard = [0u8; 32];
    guard[7] = 0x80;
    let mut transfer = Transfer::borrowed(1);
    transfer.borrow_policy(BORROW_AMOUNT_THRESHOLD, guard);
    transfer.build().unwrap();
}

#[test]
fn output_order_within_the_family_decides_the_successor() {
    let mut transfer = Transfer::borrowed(11);
    transfer.ordinary_prefix = true;
    let transaction = transfer.build().unwrap();
    assert_eq!(transaction.outputs[0].covenant, None);
    assert_eq!(transaction.outputs[1].lock, locked(&transfer.outputs[0]));
    transfer.outputs.swap(0, 1);
    transfer.rejects_for(1, Rejection::Borrow);
}

#[test]
fn accepted_transfers_keep_total_and_extension() {
    let transfer = Transfer::borrowed(11);
    let transaction = transfer.build().unwrap();
    let spent: i64 = transaction
        .inputs
        .iter()
        .map(|input| input.call.as_ref().unwrap().current.state.amount)
        .sum();
    let Entry::Transfer { next_states, .. } = &transaction.inputs[0].call.as_ref().unwrap().entry
    else {
        panic!("the first input leads");
    };
    let made: i64 = next_states.iter().map(|next| next.state.amount).sum();
    assert_eq!((spent, made), (300, 300));
    for (next, output) in next_states.iter().zip(&transaction.outputs) {
        assert_eq!(next.state.extension_commitment, [0; 32]);
        assert_eq!(output.lock, program().token_lock(&next.script));
        assert_eq!(output.covenant.unwrap().authorizing_input, 0);
    }
    assert!(matches!(
        transaction.inputs[1].call.as_ref().unwrap().entry,
        Entry::TransferDelegator { .. }
    ));
}
