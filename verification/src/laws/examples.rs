//! What the examples build, in terms of the values of their transactions.

use vstd::prelude::*;

use crate::chain_borrow::{
    commitment_of, guard_at, is_alice, is_bob, step_holds, BorrowStep,
};
use crate::consensus::{id_of, schnorr_hash};
use crate::crypto::{blake3_of, schnorr_verifies, script_hash_of, x_only_key_of};
use crate::laws::state::law_threshold_guard_digits;
use crate::program::ProgramView;
use crate::receive::{
    borrower_shows, delegate_witness_of, example_utxo, leader_witness_of, receive_view, Borrower,
    HoldingView,
};
use crate::state::{is_threshold_guard, zero_word, TokenState};
use crate::support::{demo_public, demo_secret, Keypair, DEMO_COVENANT_ID};
use crate::threshold_borrow::{is_plain_alice, is_threshold_bob, is_threshold_transfer};
use crate::transaction::{
    CallView, ComputeCommit, EncodedView, EntryView, LockView, TransactionView,
};
use crate::transfer::{accepted, input_verdict};

verus! {

/// The demo secret of a seed is that byte 32 times, and its public key the one of that
/// secret.
pub proof fn law_demo_secret_bytes(seed: u8, secret: Seq<u8>)
    requires
        secret.len() == 32,
        forall|i: int| 0 <= i < 32 ==> #[trigger] secret[i] == seed,
    ensures
        demo_secret(seed) == secret,
        demo_public(seed) == x_only_key_of(secret),
{
    assert(demo_secret(seed) =~= secret);
}

/// The public key of a key pair is that of its secret.
pub proof fn law_public_key_of_a_pair(key: Keypair)
    ensures
        key.public() == x_only_key_of(key.secret()),
{
}

/// The guards of the chain: the last is 0x42 repeated, and each one before is the hash of the
/// next guard and the one-time key of its step.
pub proof fn law_chain_guards()
    ensures
        guard_at(2).len() == 32,
        forall|i: int| 0 <= i < 32 ==> #[trigger] guard_at(2)[i] == 0x42,
        guard_at(1) == blake3_of(guard_at(2) + demo_public(0xdd)),
        guard_at(0) == blake3_of(guard_at(1) + demo_public(0xcc)),
{
    reveal_with_fuel(guard_at, 3);
}

/// What the states of the examples are, field by field.
pub proof fn law_example_states(state: TokenState, step: int, amount: int)
    ensures
        ({
            let plain = state.owner_scheme == 0 && forall|i: int|
                0 <= i < 32 ==> #[trigger] state.extension_commitment@[i] == 0;
            let bob = state.owner@ == demo_public(0xbb);
            let alice = state.owner@ == demo_public(0xaa) && state.borrow_scheme == 0 && forall|
                i: int,
            |
                0 <= i < 32 ==> #[trigger] state.borrow_guard@[i] == 0;
            &&& is_bob(state, step) <==> plain && bob && state.amount == 200 + step
                && state.borrow_scheme == 3 && state.borrow_guard@ == guard_at(step)
            &&& is_alice(state, step) <==> plain && alice && state.amount == 100 - step
            &&& is_plain_alice(state, amount) <==> plain && alice && state.amount == amount
            &&& is_threshold_bob(state, amount) <==> plain && bob && state.amount == amount
                && state.borrow_scheme == 1 && is_threshold_guard(state.borrow_guard@, 10)
        }),
{
    if forall|i: int| 0 <= i < 32 ==> #[trigger] state.extension_commitment@[i] == 0 {
        assert(state.extension_commitment@ =~= zero_word());
    }
    if forall|i: int| 0 <= i < 32 ==> #[trigger] state.borrow_guard@[i] == 0 {
        assert(state.borrow_guard@ =~= zero_word());
    }
}

/// A commitment is the hash of the next guard and the public key, in this order.
pub proof fn law_commitment(next_guard: Seq<u8>, public: Seq<u8>)
    ensures
        commitment_of(next_guard, public) == blake3_of(next_guard + public),
{
}

/// The outputs of the examples have a value of 1000, are of one block and no coinbase, and
/// belong to the family.
pub proof fn law_example_utxo(lock: LockView, covenant_id: [u8; 32])
    ensures
        example_utxo(lock, covenant_id).amount == 1000,
        example_utxo(lock, covenant_id).lock == lock,
        example_utxo(lock, covenant_id).daa_score == 1,
        !example_utxo(lock, covenant_id).coinbase,
        example_utxo(lock, covenant_id).covenant_id == Some(covenant_id),
{
}

/// The covenant family of the examples is 0x11 repeated.
pub proof fn law_demo_family()
    ensures
        forall|i: int| 0 <= i < 32 ==> #[trigger] DEMO_COVENANT_ID@[i] == 0x11,
{
}

/// A borrowed receive spends the leader by the leader's entry and the delegate by the
/// delegates', declares the two next states in order, and makes an output of 1000 for each,
/// bound to the first input and the family. All else is empty or zero.
pub proof fn law_receive_values(
    program: ProgramView,
    leader: HoldingView,
    delegate: HoldingView,
    leader_next: EncodedView,
    delegate_next: EncodedView,
    covenant_id: [u8; 32],
    leader_witness: Seq<u8>,
    delegate_witness: Seq<u8>,
)
    ensures
        ({
            let tx = receive_view(
                program,
                leader,
                delegate,
                leader_next,
                delegate_next,
                covenant_id,
                leader_witness,
                delegate_witness,
            );
            let entry = tx.inputs[0].call->0.entry;
            let hash = |next: EncodedView|
                script_hash_of(program.prefix + next.script + program.suffix);
            &&& tx.version == 1
            &&& tx.lock_time == 0
            &&& tx.gas == 0
            &&& tx.payload.len() == 0
            &&& tx.subnetwork_id.len() == 20
            &&& forall|i: int| 0 <= i < 20 ==> #[trigger] tx.subnetwork_id[i] == 0
            &&& tx.inputs.len() == 2
            &&& tx.inputs[0].previous == leader.previous
            &&& tx.inputs[0].utxo == leader.utxo
            &&& tx.inputs[0].signature_script.len() == 0
            &&& tx.inputs[0].sequence == 0
            &&& tx.inputs[0].compute_commit == ComputeCommit::ComputeBudget(0)
            &&& tx.inputs[0].call is Some
            &&& tx.inputs[0].call->0.current == leader.current
            &&& entry is Transfer
            &&& entry->Transfer_next_states.len() == 2
            &&& entry->Transfer_next_states[0] == leader_next
            &&& entry->Transfer_next_states[1] == delegate_next
            &&& entry->Transfer_witness == leader_witness
            &&& tx.inputs[1].previous == delegate.previous
            &&& tx.inputs[1].utxo == delegate.utxo
            &&& tx.inputs[1].signature_script.len() == 0
            &&& tx.inputs[1].sequence == 0
            &&& tx.inputs[1].compute_commit == ComputeCommit::ComputeBudget(0)
            &&& tx.inputs[1].call == Some(
                CallView {
                    current: delegate.current,
                    entry: EntryView::TransferDelegator { witness: delegate_witness },
                },
            )
            &&& tx.outputs.len() == 2
            &&& tx.outputs[0].value == 1000
            &&& tx.outputs[1].value == 1000
            &&& tx.outputs[0].lock.version == 0
            &&& tx.outputs[1].lock.version == 0
            &&& tx.outputs[0].lock.script == seq![0xaau8, 0x20u8] + hash(leader_next) + seq![0x87u8]
            &&& tx.outputs[1].lock.script == seq![0xaau8, 0x20u8] + hash(delegate_next)
                + seq![0x87u8]
            &&& tx.outputs[0].covenant is Some
            &&& tx.outputs[0].covenant->0.authorizing_input == 0
            &&& tx.outputs[0].covenant->0.covenant_id == covenant_id
            &&& tx.outputs[1].covenant == tx.outputs[0].covenant
            &&& leader_witness_of(tx) == leader_witness
            &&& delegate_witness_of(tx) == delegate_witness
        }),
{
}

/// What a borrower shows: the path byte alone for a threshold; for a hash chain the path
/// byte, the next guard, the public key, and a signature of the first input by that key that
/// covers all inputs and outputs.
pub proof fn law_borrower_bytes(tx: TransactionView, borrower: Borrower, witness: Seq<u8>)
    requires
        borrower_shows(tx, borrower, witness),
    ensures
        borrower is Threshold ==> witness == seq![0x01u8],
        borrower matches Borrower::HashChain { next_guard, key } ==> {
            let public = x_only_key_of(key.secret());
            &&& witness.len() == 130
            &&& witness[0] == 0x01
            &&& witness.subrange(1, 33) == next_guard@
            &&& witness.subrange(33, 65) == public
            &&& witness[129] == 0x01
            &&& schnorr_verifies(witness.subrange(65, 129), schnorr_hash(tx, 0, 0x01), public)
        },
{
    if let Borrower::HashChain { next_guard, key } = borrower {
        let shown = seq![0x01u8] + next_guard@ + key.public();
        assert(witness.take(65) == shown);
        assert(shown.len() == 33 + key.public().len());
        assert(witness[0] == witness.take(65)[0]);
        assert(witness.subrange(1, 33) =~= shown.subrange(1, 33));
        assert(shown.subrange(1, 33) =~= next_guard@);
        assert(witness.subrange(33, 65) =~= shown.subrange(33, 65));
        assert(shown.subrange(33, 65) =~= key.public());
        let signature = witness.skip(65);
        assert(signature[64] == witness[129]);
        assert(signature.take(64) =~= witness.subrange(65, 129));
    }
}

/// What a step of the hash-chain example does. Bob's token, with one token more for every
/// step before, is borrowed by the next guard, the one-time key of the step and its
/// signature; Alice's token signs for itself; the outputs pass one token from Alice to Bob,
/// with the next guard on Bob's. The first step spends the outpoints of the example, the
/// second the two outputs of the first.
pub proof fn law_chain_step(
    program: ProgramView,
    scripts: Seq<Vec<u8>>,
    steps: Seq<BorrowStep>,
    step: int,
)
    requires
        step == 0 || step == 1,
        step_holds(program, scripts, steps, step),
    ensures
        ({
            let done = steps[step];
            let tx = done.transaction@;
            let bob = tx.inputs[0].call->0.current;
            let alice = tx.inputs[1].call->0.current;
            let declared = tx.inputs[0].call->0.entry->Transfer_next_states;
            let shown = tx.inputs[0].call->0.entry->Transfer_witness;
            let signed = tx.inputs[1].call->0.entry->TransferDelegator_witness;
            let one_time = demo_public(if step == 0 { 0xccu8 } else { 0xddu8 });
            &&& tx.version == 1 && tx.inputs.len() == 2 && tx.outputs.len() == 2
            &&& tx.inputs[0].call->0.entry is Transfer
            &&& tx.inputs[1].call->0.entry is TransferDelegator
            &&& tx.inputs[0].previous.index == 0
            &&& tx.inputs[1].previous.index == step
            &&& step == 0 ==> forall|i: int|
                0 <= i < 32 ==> (#[trigger] tx.inputs[0].previous.transaction_id@[i]) == 1
            &&& step == 0 ==> forall|i: int|
                0 <= i < 32 ==> (#[trigger] tx.inputs[1].previous.transaction_id@[i]) == 2
            &&& step == 1 ==> tx.inputs[0].previous.transaction_id@ == id_of(steps[0].transaction@)
            &&& step == 1 ==> tx.inputs[1].previous.transaction_id@ == id_of(steps[0].transaction@)
            &&& tx.lock_time == 0 && tx.gas == 0 && tx.payload.len() == 0
            &&& tx.subnetwork_id.len() == 20
            &&& forall|i: int| 0 <= i < 20 ==> #[trigger] tx.subnetwork_id[i] == 0
            &&& forall|n: int|
                0 <= n < 2 ==> {
                    let input = #[trigger] tx.inputs[n];
                    &&& input.signature_script.len() == 0
                    &&& input.sequence == 0
                    &&& input.compute_commit == ComputeCommit::ComputeBudget(0)
                    &&& input.utxo.amount == 1000
                    &&& input.utxo.daa_score == 1
                    &&& !input.utxo.coinbase
                    &&& input.utxo.covenant_id == Some(DEMO_COVENANT_ID)
                    &&& input.utxo.lock.version == 0
                    &&& input.utxo.lock.script == seq![0xaau8, 0x20u8] + script_hash_of(
                        program.prefix + scripts[2 * step + n]@ + program.suffix,
                    ) + seq![0x87u8]
                    &&& forall|i: int|
                        0 <= i < 32 ==> #[trigger] input.call->0.current.state.extension_commitment@[i]
                            == 0
                }
            &&& forall|n: int, i: int|
                0 <= n < 2 && 0 <= i < 32 ==> #[trigger] declared[n].state.extension_commitment@[i]
                    == 0
            &&& forall|i: int|
                0 <= i < 32 ==> #[trigger] alice.state.borrow_guard@[i] == 0
            &&& forall|i: int|
                0 <= i < 32 ==> #[trigger] declared[1].state.borrow_guard@[i] == 0
            &&& bob.script == scripts[2 * step]@ && alice.script == scripts[2 * step + 1]@
            &&& bob.state.amount == 200 + step && alice.state.amount == 100 - step
            &&& bob.state.owner@ == demo_public(0xbb) && alice.state.owner@ == demo_public(0xaa)
            &&& bob.state.owner_scheme == 0 && alice.state.owner_scheme == 0
            &&& bob.state.borrow_scheme == 3 && alice.state.borrow_scheme == 0
            &&& bob.state.borrow_guard@ == guard_at(step)
            &&& declared.len() == 2
            &&& declared[0].script == scripts[2 * step + 2]@
            &&& declared[1].script == scripts[2 * step + 3]@
            &&& declared[0].state.amount == 201 + step && declared[1].state.amount == 99 - step
            &&& declared[0].state.owner@ == demo_public(0xbb)
            &&& declared[1].state.owner@ == demo_public(0xaa)
            &&& declared[0].state.owner_scheme == 0 && declared[1].state.owner_scheme == 0
            &&& declared[0].state.borrow_scheme == 3 && declared[1].state.borrow_scheme == 0
            &&& declared[0].state.borrow_guard@ == guard_at(step + 1)
            &&& forall|k: int|
                0 <= k < 2 ==> {
                    &&& (#[trigger] tx.outputs[k]).value == 1000
                    &&& tx.outputs[k].lock.version == 0
                    &&& tx.outputs[k].lock.script == seq![0xaau8, 0x20u8] + script_hash_of(
                        program.prefix + scripts[2 * step + 2 + k]@ + program.suffix,
                    ) + seq![0x87u8]
                    &&& tx.outputs[k].covenant is Some
                    &&& tx.outputs[k].covenant->0.authorizing_input == 0
                    &&& tx.outputs[k].covenant->0.covenant_id == DEMO_COVENANT_ID
                }
            &&& shown.len() == 130 && shown[0] == 1 && shown[129] == 1
            &&& shown.subrange(1, 33) == guard_at(step + 1)
            &&& shown.subrange(33, 65) == one_time
            &&& schnorr_verifies(shown.subrange(65, 129), schnorr_hash(tx, 0, 1), one_time)
            &&& signed.len() == 65 && signed[64] == 1
            &&& schnorr_verifies(
                signed.subrange(0, 64),
                schnorr_hash(tx, 1, 1),
                demo_public(0xaa),
            )
            &&& done.transaction_id@ == id_of(tx)
            &&& done.bob_amount == 201 + step && done.alice_amount == 99 - step
            &&& done.next_guard@ == guard_at(step + 1)
            &&& forall|i: int| 0 <= i < 2 ==> #[trigger] input_verdict(program, tx, i) is Ok
        }),
{
    let tx = steps[step].transaction@;
    let declared = tx.inputs[0].call->0.entry->Transfer_next_states;
    let shown = leader_witness_of(tx);
    let signed = delegate_witness_of(tx);
    let public = demo_public(if step == 0 { 0xccu8 } else { 0xddu8 });
    reveal_with_fuel(guard_at, 3);
    assert(guard_at(step + 1).len() == 32) by {
        assert(declared[0].state.borrow_guard@ == guard_at(step + 1));
    }
    let start = seq![0x01u8] + guard_at(step + 1) + public;
    assert(shown.take(65) == start);
    assert(start.len() == 33 + public.len());
    assert(shown[0] == shown.take(65)[0]);
    assert(shown.subrange(1, 33) =~= start.subrange(1, 33));
    assert(start.subrange(1, 33) =~= guard_at(step + 1));
    assert(shown.subrange(33, 65) =~= start.subrange(33, 65));
    assert(start.subrange(33, 65) =~= public);
    assert(shown.skip(65)[64] == shown[129]);
    assert(shown.skip(65).take(64) =~= shown.subrange(65, 129));
    assert(signed.take(64) =~= signed.subrange(0, 64));
    assert(accepted(program, tx));
}

/// What the threshold example does. Bob's token of 200, to which anyone may add more than
/// ten, is borrowed by the path byte alone and has 211 after; Alice's token of 100 signs for
/// itself and has 89 after.
pub proof fn law_threshold_example(
    program: ProgramView,
    scripts: Seq<Vec<u8>>,
    tx: TransactionView,
)
    requires
        is_threshold_transfer(program, scripts, tx),
    ensures
        ({
            let bob = tx.inputs[0].call->0.current;
            let alice = tx.inputs[1].call->0.current;
            let declared = tx.inputs[0].call->0.entry->Transfer_next_states;
            let signed = tx.inputs[1].call->0.entry->TransferDelegator_witness;
            &&& tx.version == 1 && tx.inputs.len() == 2 && tx.outputs.len() == 2
            &&& tx.inputs[0].call->0.entry is Transfer
            &&& tx.inputs[1].call->0.entry is TransferDelegator
            &&& tx.inputs[0].previous.index == 0 && tx.inputs[1].previous.index == 0
            &&& forall|i: int|
                0 <= i < 32 ==> (#[trigger] tx.inputs[0].previous.transaction_id@[i]) == 2
            &&& forall|i: int|
                0 <= i < 32 ==> (#[trigger] tx.inputs[1].previous.transaction_id@[i]) == 1
            &&& tx.lock_time == 0 && tx.gas == 0 && tx.payload.len() == 0
            &&& tx.subnetwork_id.len() == 20
            &&& forall|i: int| 0 <= i < 20 ==> #[trigger] tx.subnetwork_id[i] == 0
            &&& forall|n: int|
                0 <= n < 2 ==> {
                    let input = #[trigger] tx.inputs[n];
                    &&& input.signature_script.len() == 0
                    &&& input.sequence == 0
                    &&& input.compute_commit == ComputeCommit::ComputeBudget(0)
                    &&& input.utxo.amount == 1000
                    &&& input.utxo.daa_score == 1
                    &&& !input.utxo.coinbase
                    &&& input.utxo.covenant_id == Some(DEMO_COVENANT_ID)
                    &&& input.utxo.lock.version == 0
                    &&& input.utxo.lock.script == seq![0xaau8, 0x20u8] + script_hash_of(
                        program.prefix + scripts[0 + n]@ + program.suffix,
                    ) + seq![0x87u8]
                    &&& forall|i: int|
                        0 <= i < 32 ==> #[trigger] input.call->0.current.state.extension_commitment@[i]
                            == 0
                }
            &&& forall|n: int, i: int|
                0 <= n < 2 && 0 <= i < 32 ==> #[trigger] declared[n].state.extension_commitment@[i]
                    == 0
            &&& forall|i: int|
                0 <= i < 32 ==> #[trigger] alice.state.borrow_guard@[i] == 0
            &&& forall|i: int|
                0 <= i < 32 ==> #[trigger] declared[1].state.borrow_guard@[i] == 0
            &&& bob.script == scripts[0]@ && alice.script == scripts[1]@
            &&& bob.state.amount == 200 && alice.state.amount == 100
            &&& bob.state.owner@ == demo_public(0xbb) && alice.state.owner@ == demo_public(0xaa)
            &&& bob.state.owner_scheme == 0 && alice.state.owner_scheme == 0
            &&& bob.state.borrow_scheme == 1 && alice.state.borrow_scheme == 0
            &&& bob.state.borrow_guard@[0] == 10
            &&& forall|i: int| 1 <= i < 32 ==> #[trigger] bob.state.borrow_guard@[i] == 0
            &&& declared.len() == 2
            &&& declared[0].script == scripts[2]@ && declared[1].script == scripts[3]@
            &&& declared[0].state.amount == 211 && declared[1].state.amount == 89
            &&& declared[0].state.owner@ == demo_public(0xbb)
            &&& declared[1].state.owner@ == demo_public(0xaa)
            &&& declared[0].state.owner_scheme == 0 && declared[1].state.owner_scheme == 0
            &&& declared[0].state.borrow_scheme == 1 && declared[1].state.borrow_scheme == 0
            &&& declared[0].state.borrow_guard@[0] == 10
            &&& forall|i: int| 1 <= i < 32 ==> #[trigger] declared[0].state.borrow_guard@[i] == 0
            &&& forall|k: int|
                0 <= k < 2 ==> {
                    &&& (#[trigger] tx.outputs[k]).value == 1000
                    &&& tx.outputs[k].lock.version == 0
                    &&& tx.outputs[k].lock.script == seq![0xaau8, 0x20u8] + script_hash_of(
                        program.prefix + scripts[2 + k]@ + program.suffix,
                    ) + seq![0x87u8]
                    &&& tx.outputs[k].covenant is Some
                    &&& tx.outputs[k].covenant->0.authorizing_input == 0
                    &&& tx.outputs[k].covenant->0.covenant_id == DEMO_COVENANT_ID
                }
            &&& tx.inputs[0].call->0.entry->Transfer_witness == seq![0x01u8]
            &&& signed.len() == 65 && signed[64] == 1
            &&& schnorr_verifies(
                signed.subrange(0, 64),
                schnorr_hash(tx, 1, 1),
                demo_public(0xaa),
            )
        }),
{
    let declared = tx.inputs[0].call->0.entry->Transfer_next_states;
    let signed = delegate_witness_of(tx);
    lemma_ten_in_bytes(tx.inputs[0].call->0.current.state.borrow_guard@);
    lemma_ten_in_bytes(declared[0].state.borrow_guard@);
    assert(signed.take(64) =~= signed.subrange(0, 64));
}

/// The guard of a threshold of ten is the byte ten and zeros.
proof fn lemma_ten_in_bytes(guard: Seq<u8>)
    requires
        is_threshold_guard(guard, 10),
    ensures
        guard[0] == 10,
        forall|i: int| 1 <= i < 32 ==> #[trigger] guard[i] == 0,
{
    law_threshold_guard_digits(guard, 10);
    assert forall|i: int| 1 <= i < 32 implies #[trigger] guard[i] == 0 by {
        assert(i == 1 || i == 2 || i == 3 || i == 4 || i == 5 || i == 6 || i == 7 || i >= 8);
    }
}

} // verus!
