//! What the outside crates are asked: the values that enter digests, identifiers, bindings
//! and scripts.

use kaspa_consensus_core::tx::{TransactionInput, TransactionOutput, UtxoEntry};
use vstd::prelude::*;

use crate::consensus::{
    all_bound_in_range, all_continue, bare_inputs, bindings_hold, budget_input_of,
    consensus_hash_type, continues, covenants_accept, ecdsa_digest_of, ecdsa_hash, engine_accepts,
    entries_of, entry_of, full_inputs, id_of, in_family, output_of, outputs_of,
    schnorr_digest_of, schnorr_hash, script_accepts, sig_op_input_of, transaction_id_of,
};
use crate::transaction::{
    encoded_views, ComputeCommit, EncodedState, Entry, EntryView, OutputView, Transaction,
    TransactionView, TxInput,
};

verus! {

/// The six signature hash types of the consensus.
pub proof fn law_hash_types(byte: u8)
    ensures
        consensus_hash_type(byte) <==> byte == 1 || byte == 2 || byte == 4 || byte == 129 || byte
            == 130 || byte == 132,
{
}

/// The digests, the identifier and the verdict on the bindings are asked of all fields of the
/// transaction: of every input, in order, with its outpoint, sequence and compute commitment
/// and an empty signature script; of every output with value, lock and binding; of every
/// spent output; and of the asked input and hash type themselves.
pub proof fn law_digests_are_of_the_transaction(
    tx: TransactionView,
    inputs: Seq<TransactionInput>,
    outputs: Seq<TransactionOutput>,
    entries: Seq<UtxoEntry>,
    index: int,
    hash_type: u8,
)
    requires
        inputs.len() == tx.inputs.len(),
        outputs.len() == tx.outputs.len(),
        entries.len() == tx.inputs.len(),
        forall|i: int|
            #![trigger inputs[i]]
            0 <= i < inputs.len() ==> match tx.inputs[i].compute_commit {
                ComputeCommit::SigOpCount(count) => inputs[i] == sig_op_input_of(
                    tx.inputs[i].previous,
                    Seq::empty(),
                    tx.inputs[i].sequence,
                    count,
                ),
                ComputeCommit::ComputeBudget(budget) => inputs[i] == budget_input_of(
                    tx.inputs[i].previous,
                    Seq::empty(),
                    tx.inputs[i].sequence,
                    budget,
                ),
            },
        forall|k: int|
            0 <= k < outputs.len() ==> #[trigger] outputs[k] == output_of(
                tx.outputs[k].value,
                tx.outputs[k].lock,
                tx.outputs[k].covenant,
            ),
        forall|i: int| 0 <= i < entries.len() ==> #[trigger] entries[i] == entry_of(tx.inputs[i].utxo),
    ensures
        schnorr_hash(tx, index, hash_type) == schnorr_digest_of(
            tx.version,
            inputs,
            outputs,
            tx.lock_time,
            tx.subnetwork_id,
            tx.gas,
            tx.payload,
            entries,
            index,
            hash_type,
        ),
        ecdsa_hash(tx, index, hash_type) == ecdsa_digest_of(
            tx.version,
            inputs,
            outputs,
            tx.lock_time,
            tx.subnetwork_id,
            tx.gas,
            tx.payload,
            entries,
            index,
            hash_type,
        ),
        id_of(tx) == transaction_id_of(
            tx.version,
            inputs,
            outputs,
            tx.lock_time,
            tx.subnetwork_id,
            tx.gas,
            tx.payload,
        ),
        bindings_hold(tx) == covenants_accept(
            tx.version,
            inputs,
            outputs,
            tx.lock_time,
            tx.subnetwork_id,
            tx.gas,
            tx.payload,
            entries,
        ),
{
    assert(bare_inputs(tx) =~= inputs);
    assert(outputs_of(tx) =~= outputs);
    assert(entries_of(tx) =~= entries);
}

/// The script engine is asked of all fields of the transaction, the signature scripts among
/// them, and of the asked input itself.
pub proof fn law_scripts_are_of_the_transaction(
    tx: TransactionView,
    inputs: Seq<TransactionInput>,
    outputs: Seq<TransactionOutput>,
    entries: Seq<UtxoEntry>,
    index: int,
)
    requires
        inputs.len() == tx.inputs.len(),
        outputs.len() == tx.outputs.len(),
        entries.len() == tx.inputs.len(),
        forall|i: int|
            #![trigger inputs[i]]
            0 <= i < inputs.len() ==> match tx.inputs[i].compute_commit {
                ComputeCommit::SigOpCount(count) => inputs[i] == sig_op_input_of(
                    tx.inputs[i].previous,
                    tx.inputs[i].signature_script,
                    tx.inputs[i].sequence,
                    count,
                ),
                ComputeCommit::ComputeBudget(budget) => inputs[i] == budget_input_of(
                    tx.inputs[i].previous,
                    tx.inputs[i].signature_script,
                    tx.inputs[i].sequence,
                    budget,
                ),
            },
        forall|k: int|
            0 <= k < outputs.len() ==> #[trigger] outputs[k] == output_of(
                tx.outputs[k].value,
                tx.outputs[k].lock,
                tx.outputs[k].covenant,
            ),
        forall|i: int| 0 <= i < entries.len() ==> #[trigger] entries[i] == entry_of(tx.inputs[i].utxo),
    ensures
        script_accepts(tx, index) == engine_accepts(
            tx.version,
            inputs,
            outputs,
            tx.lock_time,
            tx.subnetwork_id,
            tx.gas,
            tx.payload,
            entries,
            index,
        ),
{
    assert(full_inputs(tx) =~= inputs);
    assert(outputs_of(tx) =~= outputs);
    assert(entries_of(tx) =~= entries);
}

/// An input is a member of the family that its spent output names, and of no other.
pub proof fn law_membership(tx: TransactionView, input: int, covenant_id: [u8; 32])
    ensures
        in_family(tx, input, covenant_id) <==> tx.inputs[input].utxo.covenant_id is Some
            && tx.inputs[input].utxo.covenant_id->0 == covenant_id,
{
}

/// An output continues a family exactly where it is bound to an input of the transaction
/// that spends an output of the family that the binding names.
pub proof fn law_continuation(tx: TransactionView, output: OutputView)
    ensures
        continues(tx, output) <==> {
            let binding = output.covenant->0;
            &&& output.covenant is Some
            &&& 0 <= binding.authorizing_input < tx.inputs.len()
            &&& tx.inputs[binding.authorizing_input as int].utxo.covenant_id is Some
            &&& tx.inputs[binding.authorizing_input as int].utxo.covenant_id->0
                == binding.covenant_id
        },
{
}

/// The bindings of all outputs are judged, the first and the last among them: one bound
/// output that does not continue a family is enough for not all to continue one, and one that
/// names no input for not all to be in range.
pub proof fn law_all_bindings_are_judged(tx: TransactionView)
    ensures
        !all_continue(tx) <==> exists|k: int|
            0 <= k < tx.outputs.len() && (#[trigger] tx.outputs[k]).covenant is Some && !continues(
                tx,
                tx.outputs[k],
            ),
        !all_bound_in_range(tx) <==> exists|k: int|
            0 <= k < tx.outputs.len() && (#[trigger] tx.outputs[k]).covenant is Some
                && tx.outputs[k].covenant->0.authorizing_input >= tx.inputs.len(),
{
}

/// The view of a transaction holds the values of the transaction, field by field.
pub proof fn law_transaction_view(tx: Transaction)
    ensures
        tx@.version == tx.version,
        tx@.lock_time == tx.lock_time,
        tx@.subnetwork_id == tx.subnetwork_id@,
        tx@.gas == tx.gas,
        tx@.payload == tx.payload@,
        tx@.inputs.len() == tx.inputs@.len(),
        tx@.outputs.len() == tx.outputs@.len(),
        forall|k: int|
            0 <= k < tx.outputs@.len() ==> {
                &&& (#[trigger] tx@.outputs[k]).value == tx.outputs@[k].value
                &&& tx@.outputs[k].lock.version == tx.outputs@[k].lock.version
                &&& tx@.outputs[k].lock.script == tx.outputs@[k].lock.script@
                &&& tx@.outputs[k].covenant == tx.outputs@[k].covenant
            },
        forall|i: int| 0 <= i < tx.inputs@.len() ==> #[trigger] tx@.inputs[i] == tx.inputs@[i]@,
{
}

/// The view of an input holds the values of the input, field by field.
pub proof fn law_input_view(input: TxInput)
    ensures
        input@.previous == input.previous,
        input@.signature_script == input.signature_script@,
        input@.sequence == input.sequence,
        input@.compute_commit == input.compute_commit,
        input@.utxo.amount == input.utxo.amount,
        input@.utxo.lock.version == input.utxo.lock.version,
        input@.utxo.lock.script == input.utxo.lock.script@,
        input@.utxo.daa_score == input.utxo.daa_score,
        input@.utxo.coinbase == input.utxo.coinbase,
        input@.utxo.covenant_id == input.utxo.covenant_id,
        input@.call is Some <==> input.call is Some,
        input.call is Some ==> {
            &&& input@.call->0.current.state == input.call->0.current.state
            &&& input@.call->0.current.script == input.call->0.current.script@
            &&& input@.call->0.entry == input.call->0.entry@
        },
{
}

/// The view of an entry holds the declared states, in order and none left out, and the
/// witness.
pub proof fn law_entry_view(entry: Entry)
    ensures
        entry matches Entry::TransferDelegator { witness } ==> entry@
            == (EntryView::TransferDelegator { witness: witness@ }),
        entry matches Entry::Transfer { next_states, witness } ==> {
            &&& entry@ is Transfer
            &&& entry@->Transfer_witness == witness@
            &&& entry@->Transfer_next_states.len() == next_states@.len()
            &&& forall|k: int|
                0 <= k < next_states@.len() ==> {
                    &&& (#[trigger] entry@->Transfer_next_states[k]).state == next_states@[k].state
                    &&& entry@->Transfer_next_states[k].script == next_states@[k].script@
                }
        },
{
}

/// The views of a list of encoded states, one for one.
pub proof fn law_encoded_views(states: Seq<EncodedState>)
    ensures
        encoded_views(states).len() == states.len(),
        forall|k: int|
            0 <= k < states.len() ==> {
                &&& (#[trigger] encoded_views(states)[k]).state == states[k].state
                &&& encoded_views(states)[k].script == states[k].script@
            },
{
}

} // verus!
