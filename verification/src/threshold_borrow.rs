//! One borrowed receive by an increase beyond the threshold, and the choice between the
//! examples.

use vstd::prelude::*;

use crate::authorization::schnorr_authorizes;
use crate::bytes::{copy_bytes, lemma_little_endian, lemma_word_equality};
use crate::chain_borrow::{holding_is, holding_of};
use crate::conservation::{conserves, total};
use crate::consensus::{bindings_hold, id_of, transaction_id};
use crate::program::{ProgramView, TokenProgram};
use crate::receive::{
    borrowed_receive, delegate_witness_of, law_borrowed_receive_accepted, receive_view,
    unspent_token, Borrower,
};
use crate::state::{
    is_threshold_guard, state_is, threshold_token_state, token_state, zero_word, TokenState,
    BORROW_AMOUNT_THRESHOLD, BORROW_DISABLED,
};
use crate::support::{demo_keys, demo_outpoint, demo_public, DEMO_COVENANT_ID, SIG_HASH_ALL};
use crate::transaction::{EncodedState, Transaction, TransactionView};
use crate::transfer::{accepted, PATH_BORROW};

verus! {

/// Whether a state is Bob's with an amount: anyone may add more than ten tokens.
pub open spec fn is_threshold_bob(state: TokenState, amount: int) -> bool {
    &&& state_is(
        state,
        demo_public(0xbb),
        amount,
        BORROW_AMOUNT_THRESHOLD,
        state.borrow_guard@,
    )
    &&& is_threshold_guard(state.borrow_guard@, 10)
}

/// Whether a state is Alice's with an amount.
pub open spec fn is_plain_alice(state: TokenState, amount: int) -> bool {
    state_is(state, demo_public(0xaa), amount, BORROW_DISABLED, zero_word())
}

/// The states of the example in the order of its scripts: Bob's and Alice's before the
/// transfer, then after it. Alice adds 11 tokens to Bob's output, beyond his threshold
/// of 10.
pub fn threshold_states() -> (states: Vec<TokenState>)
    ensures
        states@.len() == 4,
        is_threshold_bob(states@[0], 200),
        is_plain_alice(states@[1], 100),
        is_threshold_bob(states@[2], 211),
        is_plain_alice(states@[3], 89),
{
    let (_, alice_public_key) = demo_keys(0xaa);
    let (_, bob_public_key) = demo_keys(0xbb);
    let mut states: Vec<TokenState> = Vec::new();
    states.push(threshold_token_state(&bob_public_key, 200, 10));
    states.push(token_state(&alice_public_key, 100));
    states.push(threshold_token_state(&bob_public_key, 211, 10));
    states.push(token_state(&alice_public_key, 89));
    states
}

/// A transaction with its identifier.
#[derive(Clone, Debug, PartialEq, Eq)]
pub struct ExampleTransfer {
    pub transaction: Transaction,
    pub transaction_id: [u8; 32],
}

/// Whether a transaction is that of the example.
pub open spec fn is_threshold_transfer(
    program: ProgramView,
    scripts: Seq<Vec<u8>>,
    tx: TransactionView,
) -> bool {
    let declared = tx.inputs[0].call->0.entry->Transfer_next_states;
    let bob = holding_of(tx.inputs[0]);
    let alice = holding_of(tx.inputs[1]);
    &&& tx == receive_view(
        program,
        bob,
        alice,
        declared[0],
        declared[1],
        DEMO_COVENANT_ID,
        seq![PATH_BORROW],
        delegate_witness_of(tx),
    )
    &&& is_threshold_bob(bob.current.state, 200)
    &&& is_plain_alice(alice.current.state, 100)
    &&& holding_is(program, bob, scripts[0]@, Seq::new(32, |i: int| 2u8), 0)
    &&& holding_is(program, alice, scripts[1]@, Seq::new(32, |i: int| 1u8), 0)
    &&& is_threshold_bob(declared[0].state, 211)
    &&& is_plain_alice(declared[1].state, 89)
    &&& declared[0].script == scripts[2]@
    &&& declared[1].script == scripts[3]@
    &&& schnorr_authorizes(tx, 1, demo_public(0xaa), delegate_witness_of(tx))
    &&& delegate_witness_of(tx)[64] == SIG_HASH_ALL
}

/// Two guards that hold the same threshold are the same.
proof fn lemma_threshold_guards(a: Seq<u8>, b: Seq<u8>, threshold: int)
    requires
        is_threshold_guard(a, threshold),
        is_threshold_guard(b, threshold),
    ensures
        a == b,
{
    lemma_little_endian(a, b);
    assert(a =~= b);
}

/// The transaction of the example is accepted.
proof fn lemma_threshold_accepted(
    program: ProgramView,
    scripts: Seq<Vec<u8>>,
    tx: TransactionView,
)
    requires
        is_threshold_transfer(program, scripts, tx),
        bindings_hold(tx),
    ensures
        accepted(program, tx),
{
    let declared = tx.inputs[0].call->0.entry->Transfer_next_states;
    let bob = holding_of(tx.inputs[0]);
    let alice = holding_of(tx.inputs[1]);
    let before = seq![bob.current.state, alice.current.state];
    let after = seq![declared[0].state, declared[1].state];
    reveal_with_fuel(total, 3);
    assert(before.drop_last() =~= seq![before[0]]);
    assert(after.drop_last() =~= seq![after[0]]);
    assert(conserves(before, after));
    let commitment = bob.current.state.extension_commitment;
    lemma_word_equality(alice.current.state.extension_commitment, commitment);
    lemma_word_equality(declared[0].state.extension_commitment, commitment);
    lemma_word_equality(declared[1].state.extension_commitment, commitment);
    lemma_word_equality(declared[0].state.owner, bob.current.state.owner);
    lemma_threshold_guards(
        declared[0].state.borrow_guard@,
        bob.current.state.borrow_guard@,
        10,
    );
    lemma_word_equality(declared[0].state.borrow_guard, bob.current.state.borrow_guard);
    law_borrowed_receive_accepted(
        program,
        bob,
        alice,
        declared[0],
        declared[1],
        DEMO_COVENANT_ID,
        seq![PATH_BORROW],
        delegate_witness_of(tx),
        tx,
    );
}

/// Bob's output receives 11 tokens by borrowing; Alice signs for her own input. The scripts
/// are those of the states that [`threshold_states`] lists. The signature draws randomness,
/// so the delegate's witness is not fixed.
pub fn threshold_transfer(program: &TokenProgram, scripts: &[Vec<u8>; 4]) -> (example:
    ExampleTransfer)
    ensures
        is_threshold_transfer(program@, scripts@, example.transaction@),
        accepted(program@, example.transaction@),
        example.transaction_id@ == id_of(example.transaction@),
{
    let (alice_key, _) = demo_keys(0xaa);
    let states = threshold_states();
    let bob_before = EncodedState { state: states[0], script: copy_bytes(scripts[0].as_slice()) };
    let alice_before = EncodedState { state: states[1], script: copy_bytes(scripts[1].as_slice()) };
    let bob_after = EncodedState { state: states[2], script: copy_bytes(scripts[2].as_slice()) };
    let alice_after = EncodedState { state: states[3], script: copy_bytes(scripts[3].as_slice()) };
    let bob = unspent_token(program, bob_before, demo_outpoint(2, 0), &DEMO_COVENANT_ID);
    let alice = unspent_token(program, alice_before, demo_outpoint(1, 0), &DEMO_COVENANT_ID);
    let transaction = borrowed_receive(
        program,
        &bob,
        &alice,
        &bob_after,
        &alice_after,
        &DEMO_COVENANT_ID,
        &Borrower::Threshold,
        &alice_key,
    );
    proof {
        lemma_threshold_accepted(program@, scripts@, transaction@);
    }
    let id = transaction_id(&transaction);
    ExampleTransfer { transaction, transaction_id: id }
}

/// The examples.
#[derive(Clone, Copy, Debug, PartialEq, Eq)]
pub enum Example {
    Threshold,
    HashChain,
}

/// The example that the program's arguments name: the threshold example where there is no
/// argument, and none where there is more than one argument or an unknown one.
pub fn select_example(arguments: &Vec<String>) -> (example: Option<Example>)
    ensures
        example == (if arguments@.len() == 0 {
            Some(Example::Threshold)
        } else if arguments@.len() > 1 {
            None
        } else if arguments@[0]@ == "hash-chain"@ {
            Some(Example::HashChain)
        } else if arguments@[0]@ == "threshold"@ {
            Some(Example::Threshold)
        } else {
            None
        }),
{
    if arguments.len() == 0 {
        return Some(Example::Threshold);
    }
    if arguments.len() > 1 {
        return None;
    }
    if arguments[0] == "hash-chain".to_owned() {
        Some(Example::HashChain)
    } else if arguments[0] == "threshold".to_owned() {
        Some(Example::Threshold)
    } else {
        None
    }
}

} // verus!
