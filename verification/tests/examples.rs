//! The two examples: their transactions are accepted and say what they should.

use kcc20::chain_borrow::{
    alice_state, bob_state, chain_guards, chain_states, commitment, run, successor,
};
use kcc20::consensus::transaction_id;
use kcc20::program::TokenProgram;
use kcc20::receive::{borrow_witness, Borrower};
use kcc20::state::{
    guard_threshold, TokenState, BORROW_AMOUNT_THRESHOLD, BORROW_DISABLED, BORROW_HASH_CHAIN,
    OWNER_P2PK_SCHNORR, TOKEN_OUTPUT_SOMPI,
};
use kcc20::support::{demo_keys, demo_outpoint, DEMO_COVENANT_ID};
use kcc20::threshold_borrow::{select_example, threshold_states, threshold_transfer, Example};
use kcc20::transaction::{EncodedState, Entry, Transaction};
use kcc20::transfer::{
    execute_input, execute_transaction, InputError, Rejection, PATH_BORROW,
};

fn program() -> TokenProgram {
    TokenProgram { prefix: vec![0x01, 0x02], suffix: vec![0x03] }
}

fn state_script(state: &TokenState) -> Vec<u8> {
    let mut script = state.amount.to_le_bytes().to_vec();
    script.extend(state.owner);
    script.push(state.owner_scheme);
    script.push(state.borrow_scheme);
    script.extend(state.borrow_guard);
    script.extend(state.extension_commitment);
    script
}

fn chain_scripts() -> [Vec<u8>; 6] {
    let scripts: Vec<Vec<u8>> = chain_states().iter().map(state_script).collect();
    scripts.try_into().unwrap()
}

fn threshold_scripts() -> [Vec<u8>; 4] {
    let scripts: Vec<Vec<u8>> = threshold_states().iter().map(state_script).collect();
    scripts.try_into().unwrap()
}

fn leader(tx: &Transaction) -> (&Vec<EncodedState>, &Vec<u8>) {
    match &tx.inputs[0].call.as_ref().unwrap().entry {
        Entry::Transfer { next_states, witness } => (next_states, witness),
        Entry::TransferDelegator { .. } => panic!("the first input leads"),
    }
}

fn delegate_witness(tx: &mut Transaction) -> &mut Vec<u8> {
    match &mut tx.inputs[1].call.as_mut().unwrap().entry {
        Entry::TransferDelegator { witness } => witness,
        Entry::Transfer { .. } => panic!("the second input is a delegate"),
    }
}

#[test]
fn example_spends_successive_hash_chain_outputs() {
    let report = run(&program(), &chain_scripts());
    assert_eq!(report.steps.len(), 2);
    for step in &report.steps {
        execute_transaction(&program(), &step.transaction).unwrap();
    }
    let amounts: Vec<(i64, i64)> =
        report.steps.iter().map(|step| (step.bob_amount, step.alice_amount)).collect();
    assert_eq!(amounts, [(201, 99), (202, 98)]);
}

#[test]
fn second_step_spends_the_outputs_of_the_first() {
    let report = run(&program(), &chain_scripts());
    let (first, second) = (&report.steps[0].transaction, &report.steps[1].transaction);
    assert_eq!(report.steps[0].transaction_id, transaction_id(first));
    assert_eq!(report.steps[1].transaction_id, transaction_id(second));
    assert_ne!(report.steps[0].transaction_id, report.steps[1].transaction_id);
    assert_eq!(first.inputs[0].previous, demo_outpoint(1, 0));
    assert_eq!(first.inputs[1].previous, demo_outpoint(2, 0));
    for index in 0..2 {
        let spent = &second.inputs[index];
        assert_eq!(spent.previous.transaction_id, report.steps[0].transaction_id);
        assert_eq!(spent.previous.index, index as u32);
        assert_eq!(spent.utxo.lock, first.outputs[index].lock);
        assert_eq!(spent.utxo.amount, first.outputs[index].value);
        assert_eq!(spent.utxo.covenant_id, Some(DEMO_COVENANT_ID));
        assert_eq!(
            spent.call.as_ref().unwrap().current.state,
            leader(first).0[index].state
        );
    }
}

#[test]
fn steps_release_the_links_of_the_chain_in_order() {
    let report = run(&program(), &chain_scripts());
    let guards = chain_guards();
    assert_eq!(guards[2], [0x42; 32]);
    assert_eq!(report.initial_guard, guards[0]);
    for (step, seed) in [0xccu8, 0xdd].into_iter().enumerate() {
        assert_eq!(report.steps[step].next_guard, guards[step + 1]);
        let (_, one_time_key) = demo_keys(seed);
        let witness = leader(&report.steps[step].transaction).1;
        assert_eq!(witness.len(), 130);
        assert_eq!(witness[0], PATH_BORROW);
        assert_eq!(witness[1..33], guards[step + 1]);
        assert_eq!(witness[33..65], one_time_key);
        let mut link = guards[step + 1].to_vec();
        link.extend(one_time_key);
        assert_eq!(guards[step], *blake3::hash(&link).as_bytes());
    }
}

#[test]
fn examples_sign_all_inputs_and_outputs() {
    let mut transactions: Vec<Transaction> =
        run(&program(), &chain_scripts()).steps.into_iter().map(|step| step.transaction).collect();
    for tx in &transactions {
        assert_eq!(leader(tx).1.len(), 130);
        assert_eq!(leader(tx).1[129], 0x01);
    }
    transactions.push(threshold_transfer(&program(), &threshold_scripts()).transaction);
    for tx in &mut transactions {
        assert_eq!(delegate_witness(tx).len(), 65);
        assert_eq!(delegate_witness(tx)[64], 0x01);
        // A changed output value breaks the delegate's signature.
        tx.outputs[1].value += 1;
        assert!(execute_input(&program(), tx, 1).is_err());
    }
}

#[test]
fn first_link_is_not_accepted_for_the_second_step() {
    let report = run(&program(), &chain_scripts());
    let mut second = report.steps[1].transaction.clone();
    let guards = chain_guards();
    let reused = Borrower::HashChain { next_guard: guards[1], key: demo_keys(0xcc).0 };
    let witness = borrow_witness(&second, &reused);
    if let Entry::Transfer { witness: shown, .. } =
        &mut second.inputs[0].call.as_mut().unwrap().entry
    {
        *shown = witness;
    }
    assert_eq!(
        execute_transaction(&program(), &second),
        Err(InputError { input_index: 0, reason: Rejection::Borrow })
    );
}

#[test]
fn chain_states_are_those_of_the_steps() {
    let states = chain_states();
    let guards = chain_guards();
    assert_eq!(states.len(), 6);
    for step in 0..3usize {
        assert_eq!(states[2 * step], bob_state(step, &guards[step]));
        assert_eq!(states[2 * step + 1], alice_state(step));
        assert_eq!(states[2 * step].amount, 200 + step as i64);
        assert_eq!(states[2 * step].borrow_scheme, BORROW_HASH_CHAIN);
        assert_eq!(states[2 * step].owner, demo_keys(0xbb).1);
        assert_eq!(states[2 * step + 1].amount, 100 - step as i64);
        assert_eq!(states[2 * step + 1].borrow_scheme, BORROW_DISABLED);
        assert_eq!(states[2 * step + 1].owner, demo_keys(0xaa).1);
    }
}

#[test]
fn commitment_hashes_the_guard_and_the_key() {
    let (key, public_key) = demo_keys(0x07);
    let mut link = vec![0x09; 32];
    link.extend(public_key);
    assert_eq!(commitment([0x09; 32], &key), *blake3::hash(&link).as_bytes());
}

#[test]
fn successor_is_the_output_at_its_place() {
    let example = threshold_transfer(&program(), &threshold_scripts());
    let next = leader(&example.transaction).0[1].clone();
    let id = example.transaction_id;
    let holding = successor(&example.transaction, 1, next.clone(), &id, &[0x33; 32]);
    assert_eq!(holding.current, next);
    assert_eq!((holding.previous.transaction_id, holding.previous.index), (id, 1));
    assert_eq!(holding.utxo.amount, TOKEN_OUTPUT_SOMPI);
    assert_eq!(holding.utxo.lock, example.transaction.outputs[1].lock);
    assert_eq!((holding.utxo.daa_score, holding.utxo.coinbase), (1, false));
    assert_eq!(holding.utxo.covenant_id, Some([0x33; 32]));
}

#[test]
fn threshold_example_adds_eleven_tokens() {
    let example = threshold_transfer(&program(), &threshold_scripts());
    let tx = &example.transaction;
    execute_transaction(&program(), tx).unwrap();
    assert_eq!(example.transaction_id, transaction_id(tx));
    assert_eq!((tx.inputs.len(), tx.outputs.len()), (2, 2));
    assert_eq!(tx.inputs[0].previous, demo_outpoint(2, 0));
    assert_eq!(tx.inputs[1].previous, demo_outpoint(1, 0));
    let (next_states, witness) = leader(tx);
    assert_eq!(*witness, [PATH_BORROW]);
    let states = threshold_states();
    assert_eq!(
        states.iter().map(|state| state.amount).collect::<Vec<i64>>(),
        [200, 100, 211, 89]
    );
    assert_eq!(states[0].borrow_scheme, BORROW_AMOUNT_THRESHOLD);
    assert_eq!(guard_threshold(&states[0].borrow_guard), 10);
    assert_eq!(states[1].owner_scheme, OWNER_P2PK_SCHNORR);
    assert_eq!(next_states[0].state, states[2]);
    assert_eq!(next_states[1].state, states[3]);
    for (output, state) in tx.outputs.iter().zip(&states[2..]) {
        assert_eq!(output.value, TOKEN_OUTPUT_SOMPI);
        assert_eq!(output.lock, program().token_lock(&state_script(state)));
    }
}

#[test]
fn threshold_example_needs_the_signature_of_its_delegate() {
    let mut tx = threshold_transfer(&program(), &threshold_scripts()).transaction;
    let witness = delegate_witness(&mut tx);
    assert_eq!(witness.len(), 65);
    witness[0] ^= 1;
    assert_eq!(
        execute_transaction(&program(), &tx),
        Err(InputError { input_index: 1, reason: Rejection::Authorization })
    );
}

#[test]
fn examples_are_named_by_at_most_one_argument() {
    let select = |arguments: &[&str]| {
        select_example(&arguments.iter().map(|argument| argument.to_string()).collect())
    };
    assert_eq!(select(&[]), Some(Example::Threshold));
    assert_eq!(select(&["threshold"]), Some(Example::Threshold));
    assert_eq!(select(&["hash-chain"]), Some(Example::HashChain));
    assert_eq!(select(&["hash_chain"]), None);
    assert_eq!(select(&[""]), None);
    assert_eq!(select(&["threshold", "hash-chain"]), None);
}
