//! Two borrowed receives using successive links of the same hash chain.

use vstd::prelude::*;

use crate::authorization::schnorr_authorizes;
use crate::bytes::{append, copy_bytes, lemma_word_equality};
use crate::conservation::{conserves, total};
use crate::consensus::{bindings_hold, id_of, transaction_id};
use crate::crypto::{blake3_hash, blake3_of};
use crate::program::{ProgramView, TokenProgram};
use crate::receive::{
    borrowed_receive, delegate_witness_of, example_utxo, law_borrowed_receive_accepted,
    leader_witness_of, receive_view, unspent_token, Borrower, Holding, HoldingView,
};
use crate::state::{
    state_is, token_state, zero_word, TokenState, BORROW_DISABLED, BORROW_HASH_CHAIN,
};
use crate::support::{
    demo_keys, demo_outpoint, demo_public, Keypair, DEMO_COVENANT_ID, SIG_HASH_ALL,
};
use crate::transaction::{
    copy_lock, EncodedState, InputView, Outpoint, Transaction, TransactionView, Utxo, UtxoView,
};
use crate::transfer::{accepted, PATH_BORROW};

verus! {

/// The guard that commits to a next guard and a one-time public key.
pub open spec fn commitment_of(next_guard: Seq<u8>, public: Seq<u8>) -> Seq<u8> {
    blake3_of(next_guard + public)
}

/// The guard that commits to a next guard and a one-time key.
pub fn commitment(next_guard: [u8; 32], key: &Keypair) -> (guard: [u8; 32])
    ensures
        guard@ == commitment_of(next_guard@, key.public()),
{
    let mut preimage = copy_bytes(next_guard.as_slice());
    let public = key.public_key();
    append(&mut preimage, public.as_slice());
    blake3_hash(preimage.as_slice())
}

/// The seed of the one-time key of a step.
pub open spec fn link_seed(step: int) -> u8 {
    if step == 0 {
        0xcc
    } else {
        0xdd
    }
}

/// The guard before a step: the chain is built backwards from its terminal guard.
pub open spec fn guard_at(step: int) -> Seq<u8>
    decreases 2 - step,
{
    if step >= 2 {
        Seq::new(32, |i: int| 0x42u8)
    } else {
        commitment_of(guard_at(step + 1), demo_public(link_seed(step)))
    }
}

/// Whether a state is Bob's before a step: he gains one token with each.
pub open spec fn is_bob(state: TokenState, step: int) -> bool {
    state_is(state, demo_public(0xbb), 200 + step, BORROW_HASH_CHAIN, guard_at(step))
}

/// Whether a state is Alice's before a step: she gives one token with each.
pub open spec fn is_alice(state: TokenState, step: int) -> bool {
    state_is(state, demo_public(0xaa), 100 - step, BORROW_DISABLED, zero_word())
}

/// The three guards of the chain, from the first to the terminal one.
pub fn chain_guards() -> (guards: [[u8; 32]; 3])
    ensures
        guards@[0]@ == guard_at(0),
        guards@[1]@ == guard_at(1),
        guards@[2]@ == guard_at(2),
{
    reveal_with_fuel(guard_at, 3);
    let (first_key, _) = demo_keys(0xcc);
    let (second_key, _) = demo_keys(0xdd);
    let final_guard = [0x42u8; 32];
    assert(final_guard@ =~= guard_at(2));
    let middle_guard = commitment(final_guard, &second_key);
    let initial_guard = commitment(middle_guard, &first_key);
    [initial_guard, middle_guard, final_guard]
}

/// Bob's state before a step, with a guard.
pub fn bob_state(step: usize, guard: &[u8; 32]) -> (state: TokenState)
    requires
        step <= 2,
    ensures
        state_is(state, demo_public(0xbb), 200 + step, BORROW_HASH_CHAIN, guard@),
{
    let (_, bob_public_key) = demo_keys(0xbb);
    let mut state = token_state(&bob_public_key, 200 + step as i64);
    state.borrow_scheme = BORROW_HASH_CHAIN;
    state.borrow_guard = *guard;
    state
}

/// Alice's state before a step.
pub fn alice_state(step: usize) -> (state: TokenState)
    requires
        step <= 2,
    ensures
        is_alice(state, step as int),
{
    let (_, alice_public_key) = demo_keys(0xaa);
    token_state(&alice_public_key, 100 - step as i64)
}

/// The states of the run in the order of its scripts: Bob's and Alice's before the first
/// step, after it, and after the second.
pub fn chain_states() -> (states: Vec<TokenState>)
    ensures
        states@.len() == 6,
        is_bob(states@[0], 0),
        is_alice(states@[1], 0),
        is_bob(states@[2], 1),
        is_alice(states@[3], 1),
        is_bob(states@[4], 2),
        is_alice(states@[5], 2),
{
    let guards = chain_guards();
    let mut states: Vec<TokenState> = Vec::new();
    states.push(bob_state(0, &guards[0]));
    states.push(alice_state(0));
    states.push(bob_state(1, &guards[1]));
    states.push(alice_state(1));
    states.push(bob_state(2, &guards[2]));
    states.push(alice_state(2));
    states
}

/// One step of the run.
#[derive(Clone, Debug, PartialEq, Eq)]
pub struct BorrowStep {
    pub transaction: Transaction,
    pub transaction_id: [u8; 32],
    pub bob_amount: i64,
    pub alice_amount: i64,
    pub next_guard: [u8; 32],
}

/// What the run reports.
#[derive(Clone, Debug, PartialEq, Eq)]
pub struct ChainRun {
    pub initial_guard: [u8; 32],
    pub steps: Vec<BorrowStep>,
}

/// The holding that a token input spends.
pub open spec fn holding_of(input: InputView) -> HoldingView {
    HoldingView { current: input.call->0.current, previous: input.previous, utxo: input.utxo }
}

/// Whether a holding is the token output with a script, at a place.
pub open spec fn holding_is(
    program: ProgramView,
    holding: HoldingView,
    script: Seq<u8>,
    transaction_id: Seq<u8>,
    index: u32,
) -> bool {
    &&& holding.current.script == script
    &&& holding.previous.transaction_id@ == transaction_id
    &&& holding.previous.index == index
    &&& holding.utxo == example_utxo(program.token_lock(script), DEMO_COVENANT_ID)
}

/// Whether a leader's witness is the borrow of a step: the path, the next guard, the
/// one-time key and a signature by it that covers all inputs and outputs.
pub open spec fn link_shown(tx: TransactionView, step: int, witness: Seq<u8>) -> bool {
    let public = demo_public(link_seed(step));
    &&& witness.len() == 130
    &&& witness.take(65) == seq![PATH_BORROW] + guard_at(step + 1) + public
    &&& schnorr_authorizes(tx, 0, public, witness.skip(65))
    &&& witness[129] == SIG_HASH_ALL
}

/// Whether a transaction is that of a step, from holdings at two places.
pub open spec fn is_step(
    program: ProgramView,
    scripts: Seq<Vec<u8>>,
    step: int,
    tx: TransactionView,
    bob: (Seq<u8>, u32),
    alice: (Seq<u8>, u32),
) -> bool {
    let declared = tx.inputs[0].call->0.entry->Transfer_next_states;
    let from_bob = holding_of(tx.inputs[0]);
    let from_alice = holding_of(tx.inputs[1]);
    &&& tx == receive_view(
        program,
        from_bob,
        from_alice,
        declared[0],
        declared[1],
        DEMO_COVENANT_ID,
        leader_witness_of(tx),
        delegate_witness_of(tx),
    )
    &&& is_bob(from_bob.current.state, step)
    &&& is_alice(from_alice.current.state, step)
    &&& holding_is(
        program,
        from_bob,
        scripts[2 * step]@,
        bob.0,
        bob.1,
    )
    &&& holding_is(
        program,
        from_alice,
        scripts[2 * step + 1]@,
        alice.0,
        alice.1,
    )
    &&& is_bob(declared[0].state, step + 1)
    &&& is_alice(declared[1].state, step + 1)
    &&& declared[0].script == scripts[2 * step + 2]@
    &&& declared[1].script == scripts[2 * step + 3]@
    &&& link_shown(tx, step, leader_witness_of(tx))
    &&& schnorr_authorizes(tx, 1, demo_public(0xaa), delegate_witness_of(tx))
    &&& delegate_witness_of(tx)[64] == SIG_HASH_ALL
}

/// Where Bob's token stands before a step: an outpoint of the example, then the first
/// output of the transaction before.
pub open spec fn bob_place(steps: Seq<BorrowStep>, step: int) -> (Seq<u8>, u32) {
    if step == 0 {
        (Seq::new(32, |i: int| 1u8), 0)
    } else {
        (id_of(steps[step - 1].transaction@), 0)
    }
}

/// Where Alice's token stands before a step: an outpoint of the example, then the second
/// output of the transaction before.
pub open spec fn alice_place(steps: Seq<BorrowStep>, step: int) -> (Seq<u8>, u32) {
    if step == 0 {
        (Seq::new(32, |i: int| 2u8), 0)
    } else {
        (id_of(steps[step - 1].transaction@), 1)
    }
}

/// Whether a step of the run spends what the step before made, is accepted, and reports
/// itself.
pub open spec fn step_holds(
    program: ProgramView,
    scripts: Seq<Vec<u8>>,
    steps: Seq<BorrowStep>,
    step: int,
) -> bool {
    let done = steps[step];
    &&& is_step(
        program,
        scripts,
        step,
        done.transaction@,
        bob_place(steps, step),
        alice_place(steps, step),
    )
    &&& accepted(program, done.transaction@)
    &&& done.transaction_id@ == id_of(done.transaction@)
    &&& done.bob_amount == 200 + step + 1
    &&& done.alice_amount == 100 - step - 1
    &&& done.next_guard@ == guard_at(step + 1)
}

/// The token that an output of a transaction makes.
pub fn successor(
    tx: &Transaction,
    output: usize,
    current: EncodedState,
    transaction_id: &[u8; 32],
    covenant_id: &[u8; 32],
) -> (holding: Holding)
    requires
        output < tx.outputs@.len(),
        output <= u32::MAX,
    ensures
        holding@ == (HoldingView {
            current: current@,
            previous: Outpoint { transaction_id: *transaction_id, index: output as u32 },
            utxo: UtxoView {
                amount: tx@.outputs[output as int].value,
                lock: tx@.outputs[output as int].lock,
                daa_score: 1,
                coinbase: false,
                covenant_id: Some(*covenant_id),
            },
        }),
{
    let made = &tx.outputs[output];
    let utxo = Utxo {
        amount: made.value,
        lock: copy_lock(&made.lock),
        daa_score: 1,
        coinbase: false,
        covenant_id: Some(*covenant_id),
    };
    Holding {
        current,
        previous: Outpoint { transaction_id: *transaction_id, index: output as u32 },
        utxo,
    }
}

/// The transaction of a step is accepted.
proof fn lemma_step_accepted(
    program: ProgramView,
    scripts: Seq<Vec<u8>>,
    step: int,
    tx: TransactionView,
    bob: (Seq<u8>, u32),
    alice: (Seq<u8>, u32),
)
    requires
        0 <= step < 2,
        is_step(program, scripts, step, tx, bob, alice),
        bindings_hold(tx),
    ensures
        accepted(program, tx),
{
    let declared = tx.inputs[0].call->0.entry->Transfer_next_states;
    let from_bob = holding_of(tx.inputs[0]);
    let from_alice = holding_of(tx.inputs[1]);
    let before = seq![from_bob.current.state, from_alice.current.state];
    let after = seq![declared[0].state, declared[1].state];
    reveal_with_fuel(total, 3);
    assert(before.drop_last() =~= seq![before[0]]);
    assert(after.drop_last() =~= seq![after[0]]);
    assert(conserves(before, after));
    let commitment = from_bob.current.state.extension_commitment;
    lemma_word_equality(from_alice.current.state.extension_commitment, commitment);
    lemma_word_equality(declared[0].state.extension_commitment, commitment);
    lemma_word_equality(declared[1].state.extension_commitment, commitment);
    lemma_word_equality(declared[0].state.owner, from_bob.current.state.owner);
    let witness = leader_witness_of(tx);
    let bytes = witness.skip(1);
    let public = demo_public(link_seed(step));
    let shown = witness.take(65);
    assert(shown[0] == PATH_BORROW && witness[0] == shown[0]);
    assert(guard_at(step + 1).len() == 32);
    assert(shown.len() == 1 + 32 + public.len());
    assert(bytes.take(32) =~= guard_at(step + 1)) by {
        assert forall|i: int| 0 <= i < 32 implies bytes.take(32)[i] == guard_at(step + 1)[i] by {
            assert(bytes[i] == shown[i + 1]);
        }
    }
    assert(bytes.take(64) =~= guard_at(step + 1) + public) by {
        assert forall|i: int| 0 <= i < 64 implies bytes.take(64)[i] == (guard_at(step + 1)
            + public)[i] by {
            assert(bytes[i] == shown[i + 1]);
        }
    }
    assert(bytes.subrange(32, 64) =~= public) by {
        assert forall|i: int| 0 <= i < 32 implies bytes.subrange(32, 64)[i] == public[i] by {
            assert(bytes[i + 32] == shown[i + 33]);
        }
    }
    assert(bytes.skip(64) =~= witness.skip(65));
    law_borrowed_receive_accepted(
        program,
        from_bob,
        from_alice,
        declared[0],
        declared[1],
        DEMO_COVENANT_ID,
        witness,
        delegate_witness_of(tx),
        tx,
    );
}

/// Two consecutive borrowed receives. Bob's token is borrowed by one link of the chain
/// after the other, and each step spends what the step before made. The scripts are those
/// of the states that [`chain_states`] lists. The signatures draw randomness, so the
/// transactions' witnesses are not fixed.
pub fn run(program: &TokenProgram, scripts: &[Vec<u8>; 6]) -> (report: ChainRun)
    ensures
        report.initial_guard@ == guard_at(0),
        report.steps@.len() == 2,
        step_holds(program@, scripts@, report.steps@, 0),
        step_holds(program@, scripts@, report.steps@, 1),
{
    let (alice_key, _) = demo_keys(0xaa);
    let (first_key, _) = demo_keys(0xcc);
    let (second_key, _) = demo_keys(0xdd);
    let guards = chain_guards();
    let bob_now = EncodedState {
        state: bob_state(0, &guards[0]),
        script: copy_bytes(scripts[0].as_slice()),
    };
    let alice_now = EncodedState {
        state: alice_state(0),
        script: copy_bytes(scripts[1].as_slice()),
    };
    let mut bob = unspent_token(program, bob_now, demo_outpoint(1, 0), &DEMO_COVENANT_ID);
    let mut alice = unspent_token(program, alice_now, demo_outpoint(2, 0), &DEMO_COVENANT_ID);
    let mut steps: Vec<BorrowStep> = Vec::new();
    let mut step: usize = 0;
    while step < 2
        invariant
            step <= 2,
            guards@[0]@ == guard_at(0),
            guards@[1]@ == guard_at(1),
            guards@[2]@ == guard_at(2),
            alice_key.public() == demo_public(0xaa),
            first_key.public() == demo_public(0xcc),
            second_key.public() == demo_public(0xdd),
            steps@.len() == step,
            forall|k: int|
                0 <= k < step ==> #[trigger] step_holds(program@, scripts@, steps@, k),
            step < 2 ==> {
                &&& is_bob(bob@.current.state, step as int)
                &&& is_alice(alice@.current.state, step as int)
                &&& holding_is(
                    program@,
                    bob@,
                    scripts@[2 * step]@,
                    bob_place(steps@, step as int).0,
                    bob_place(steps@, step as int).1,
                )
                &&& holding_is(
                    program@,
                    alice@,
                    scripts@[2 * step + 1]@,
                    alice_place(steps@, step as int).0,
                    alice_place(steps@, step as int).1,
                )
            },
        decreases 2 - step,
    {
        let ghost before = steps@;
        let key = if step == 0 {
            first_key
        } else {
            second_key
        };
        let next_guard = guards[step + 1];
        assert(next_guard@ == guard_at(step + 1));
        let bob_next = EncodedState {
            state: bob_state(step + 1, &next_guard),
            script: copy_bytes(scripts[2 * step + 2].as_slice()),
        };
        let alice_next = EncodedState {
            state: alice_state(step + 1),
            script: copy_bytes(scripts[2 * step + 3].as_slice()),
        };
        let borrower = Borrower::HashChain { next_guard, key };
        let tx = borrowed_receive(
            program,
            &bob,
            &alice,
            &bob_next,
            &alice_next,
            &DEMO_COVENANT_ID,
            &borrower,
            &alice_key,
        );
        proof {
            let places = (bob_place(before, step as int), alice_place(before, step as int));
            assert(is_step(program@, scripts@, step as int, tx@, places.0, places.1));
            lemma_step_accepted(program@, scripts@, step as int, tx@, places.0, places.1);
        }
        let id = transaction_id(&tx);
        bob = successor(&tx, 0, bob_next, &id, &DEMO_COVENANT_ID);
        alice = successor(&tx, 1, alice_next, &id, &DEMO_COVENANT_ID);
        steps.push(BorrowStep {
            transaction: tx,
            transaction_id: id,
            bob_amount: bob.current.state.amount,
            alice_amount: alice.current.state.amount,
            next_guard,
        });
        proof {
            assert forall|k: int| 0 <= k < step + 1 implies #[trigger] step_holds(
                program@,
                scripts@,
                steps@,
                k,
            ) by {
                assert(bob_place(steps@, k) == bob_place(before, k));
                assert(alice_place(steps@, k) == alice_place(before, k));
                if k < step {
                    assert(step_holds(program@, scripts@, before, k));
                }
            }
        }
        step += 1;
    }
    assert(step_holds(program@, scripts@, steps@, 0));
    assert(step_holds(program@, scripts@, steps@, 1));
    ChainRun { initial_guard: guards[0], steps }
}

} // verus!
