//! What the execution of an input decides, and for which reason, in terms of the values of
//! the transaction.

use vstd::prelude::*;

use crate::authorization::owner_authorizes;
use crate::borrow::borrow_authorizes;
use crate::conservation::total;
use crate::consensus::{bindings_hold, script_accepts};
use crate::crypto::script_hash_of;
use crate::laws::family::{law_family_inputs_are, law_family_outputs_are, law_small_totals};
use crate::program::ProgramView;
use crate::state::{valid_policy, TokenState};
use crate::transaction::{EncodedView, EntryView, TransactionView};
use crate::transfer::{
    accepted, authorizes_output, delegate_verdict, input_verdict, leader_verdict, plain_states,
    shape_verdict, spent_states, states_verdict, witness_verdict, Rejection,
};

verus! {

/// A transaction is accepted exactly where no input of it is rejected.
pub proof fn law_every_input_decides(program: ProgramView, tx: TransactionView)
    ensures
        !accepted(program, tx) <==> exists|i: int|
            0 <= i < tx.inputs.len() && #[trigger] input_verdict(program, tx, i) is Err,
{
}

/// An input that makes no token call is decided by the script engine, whatever it spends: it
/// is accepted exactly where the bindings hold and its script succeeds.
pub proof fn law_other_inputs_run_their_script(
    program: ProgramView,
    tx: TransactionView,
    index: int,
)
    requires
        tx.inputs[index].call is None,
    ensures
        input_verdict(program, tx, index) is Ok <==> bindings_hold(tx) && script_accepts(tx, index),
        input_verdict(program, tx, index) == Err::<(), Rejection>(Rejection::Binding)
            <==> !bindings_hold(tx),
        input_verdict(program, tx, index) == Err::<(), Rejection>(Rejection::Script)
            <==> bindings_hold(tx) && !script_accepts(tx, index),
{
}

/// In an accepted transaction the script of every input without a token call succeeds, be it
/// an authority of a token, a member of a family or neither.
pub proof fn law_authorities_execute(program: ProgramView, tx: TransactionView, index: int)
    requires
        accepted(program, tx),
        0 <= index < tx.inputs.len(),
        tx.inputs[index].call is None,
    ensures
        script_accepts(tx, index),
{
    assert(input_verdict(program, tx, index) is Ok);
}

/// An input that makes a token call is rejected first for the bindings, then for the output
/// that it spends; then its entry decides, on the claimed state, the spent family and the
/// arguments of the call.
pub proof fn law_token_calls_are_dispatched(program: ProgramView, tx: TransactionView, index: int)
    requires
        tx.inputs[index].call is Some,
    ensures
        ({
            let input = tx.inputs[index];
            let call = input.call->0;
            let redeem_script = program.prefix + call.current.script + program.suffix;
            let committed = input.utxo.covenant_id is Some && input.utxo.lock.version == 0
                && input.utxo.lock.script == seq![0xaau8, 0x20u8] + script_hash_of(redeem_script)
                + seq![0x87u8];
            &&& input_verdict(program, tx, index) == Err::<(), Rejection>(Rejection::Binding)
                <==> !bindings_hold(tx)
            &&& bindings_hold(tx) && !committed ==> input_verdict(program, tx, index) == Err::<
                (),
                Rejection,
            >(Rejection::Commitment)
            &&& bindings_hold(tx) && committed ==> match call.entry {
                EntryView::Transfer { next_states, witness } => input_verdict(program, tx, index)
                    == leader_verdict(
                    program,
                    tx,
                    index,
                    input.utxo.covenant_id->0,
                    call.current.state,
                    next_states,
                    witness,
                ),
                EntryView::TransferDelegator { witness } => input_verdict(program, tx, index)
                    == delegate_verdict(
                    tx,
                    index,
                    input.utxo.covenant_id->0,
                    call.current.state,
                    witness,
                ),
            }
        }),
{
}

/// What the leader's entry decides and why. The lists name the inputs and the outputs of the
/// family, in the order of the transaction.
pub proof fn law_leader_verdict(
    program: ProgramView,
    tx: TransactionView,
    leader: int,
    covenant_id: [u8; 32],
    current: TokenState,
    declared: Seq<EncodedView>,
    witness: Seq<u8>,
    inputs: Seq<int>,
    outputs: Seq<int>,
)
    requires
        forall|j: int, k: int| 0 <= j < k < inputs.len() ==> inputs[j] < inputs[k],
        forall|i: int| #[trigger]
            inputs.contains(i) <==> 0 <= i < tx.inputs.len() && tx.inputs[i].utxo.covenant_id
                == Some(covenant_id),
        forall|j: int, k: int| 0 <= j < k < outputs.len() ==> outputs[j] < outputs[k],
        forall|k: int| #[trigger]
            outputs.contains(k) <==> {
                let binding = tx.outputs[k].covenant->0;
                &&& 0 <= k < tx.outputs.len()
                &&& tx.outputs[k].covenant is Some
                &&& binding.covenant_id == covenant_id
                &&& binding.authorizing_input < tx.inputs.len()
                &&& tx.inputs[binding.authorizing_input as int].utxo.covenant_id == Some(
                    covenant_id,
                )
            },
        inputs.contains(leader),
    ensures
        ({
            let spent = |k: int| tx.inputs[inputs[k]].call->0.current.state;
            let made = |k: int| declared[k].state;
            let spent_sum = if inputs.len() == 1 {
                spent(0).amount as int
            } else if inputs.len() == 2 {
                spent(0).amount + spent(1).amount
            } else {
                spent(0).amount + spent(1).amount + spent(2).amount
            };
            let made_sum = if outputs.len() == 1 {
                made(0).amount as int
            } else if outputs.len() == 2 {
                made(0).amount + made(1).amount
            } else {
                made(0).amount + made(1).amount + made(2).amount
            };
            let hold_tokens = forall|k: int|
                0 <= k < inputs.len() ==> {
                    let input = tx.inputs[#[trigger] inputs[k]];
                    &&& input.call is Some
                    &&& input.utxo.lock.version == 0
                    &&& input.utxo.lock.script == seq![0xaau8, 0x20u8] + script_hash_of(
                        program.prefix + input.call->0.current.script + program.suffix,
                    ) + seq![0x87u8]
                };
            let carry = declared.len() == outputs.len() && forall|k: int|
                0 <= k < outputs.len() ==> {
                    let output = tx.outputs[#[trigger] outputs[k]];
                    &&& output.covenant->0.authorizing_input == leader
                    &&& output.lock.version == 0
                    &&& output.lock.script == seq![0xaau8, 0x20u8] + script_hash_of(
                        program.prefix + declared[k].script + program.suffix,
                    ) + seq![0x87u8]
                };
            let no_negative = (forall|k: int| #![trigger inputs[k]]
                0 <= k < inputs.len() ==> spent(k).amount >= 0) && (forall|k: int|
                #![trigger declared[k]]
                0 <= k < declared.len() ==> made(k).amount >= 0);
            let one_commitment = (forall|k: int| #![trigger inputs[k]]
                0 <= k < inputs.len() ==> spent(k).extension_commitment
                    == current.extension_commitment) && (forall|k: int|
                #![trigger declared[k]]
                0 <= k < declared.len() ==> made(k).extension_commitment
                    == current.extension_commitment);
            let policies = forall|k: int|
                #![trigger declared[k]]
                0 <= k < declared.len() ==> valid_policy(made(k));
            leader_verdict(program, tx, leader, covenant_id, current, declared, witness) == (
            if inputs[0] < leader {
                Err::<(), Rejection>(Rejection::Role)
            } else if inputs.len() > 3 || outputs.len() == 0 || outputs.len() > 3 {
                Err(Rejection::Shape)
            } else if !hold_tokens {
                Err(Rejection::Commitment)
            } else if !carry {
                Err(Rejection::Continuation)
            } else if !no_negative || spent_sum != made_sum || made_sum > 0x7fff_ffff_ffff_ffff {
                Err(Rejection::Conservation)
            } else if !one_commitment {
                Err(Rejection::Extension)
            } else if !policies {
                Err(Rejection::Policy)
            } else {
                witness_verdict(tx, leader, current, outputs[0], declared[0].state, witness)
            })
        }),
{
    law_family_inputs_are(tx, covenant_id, inputs);
    law_family_outputs_are(tx, covenant_id, outputs);
    let before = spent_states(tx, inputs);
    let after = plain_states(declared);
    law_small_totals(before);
    law_small_totals(after);
    let place = choose|k: int| 0 <= k < inputs.len() && inputs[k] == leader;
    assert(inputs[0] <= leader) by {
        if place > 0 {
            assert(inputs[0] < inputs[place]);
        }
    }
    assert forall|k: int| 0 <= k < inputs.len() implies tx.inputs[
        #[trigger] inputs[k]
    ].utxo.covenant_id == Some(covenant_id) && before[k]
        == tx.inputs[inputs[k]].call->0.current.state by {
        assert(inputs.contains(inputs[k]));
    }
    assert forall|k: int| 0 <= k < outputs.len() implies authorizes_output(
        tx,
        leader,
        #[trigger] outputs[k],
    ) == (tx.outputs[outputs[k]].covenant->0.authorizing_input == leader) by {
        assert(outputs.contains(outputs[k]));
    }
    assert forall|k: int| 0 <= k < declared.len() implies after[k] == (
    #[trigger] declared[k]).state by {}
}

/// What the leader's witness decides: its first byte chooses between the owner and a
/// borrower, and the rest is what that one shows.
pub proof fn law_witness_verdict(
    tx: TransactionView,
    index: int,
    current: TokenState,
    successor: int,
    next: TokenState,
    path: u8,
    bytes: Seq<u8>,
)
    ensures
        ({
            let value_kept = tx.inputs[index].utxo.amount <= tx.outputs[successor].value;
            let holding_kept = current.owner == next.owner && current.owner_scheme
                == next.owner_scheme && current.borrow_scheme == next.borrow_scheme
                && current.extension_commitment == next.extension_commitment && current.amount
                < next.amount;
            witness_verdict(tx, index, current, successor, next, seq![path] + bytes) == (if path
                == 0x00 {
                if owner_authorizes(tx, index, current.owner_scheme, current.owner, bytes) {
                    Ok::<(), Rejection>(())
                } else {
                    Err(Rejection::Authorization)
                }
            } else if path == 0x01 {
                if value_kept && holding_kept && borrow_authorizes(
                    tx,
                    index,
                    current,
                    next,
                    bytes,
                ) {
                    Ok(())
                } else {
                    Err(Rejection::Borrow)
                }
            } else {
                Err(Rejection::Witness)
            })
        }),
        witness_verdict(tx, index, current, successor, next, Seq::empty()) == Err::<
            (),
            Rejection,
        >(Rejection::Witness),
{
    assert((seq![path] + bytes).skip(1) =~= bytes);
    assert((seq![path] + bytes)[0] == path);
}

/// What the delegates' entry decides and why. The list names the inputs of the family, in the
/// order of the transaction.
pub proof fn law_delegate_verdict(
    tx: TransactionView,
    delegate: int,
    covenant_id: [u8; 32],
    current: TokenState,
    witness: Seq<u8>,
    inputs: Seq<int>,
)
    requires
        forall|j: int, k: int| 0 <= j < k < inputs.len() ==> inputs[j] < inputs[k],
        forall|i: int| #[trigger]
            inputs.contains(i) <==> 0 <= i < tx.inputs.len() && tx.inputs[i].utxo.covenant_id
                == Some(covenant_id),
        inputs.contains(delegate),
    ensures
        ({
            let authorizes = exists|k: int|
                0 <= k < tx.outputs.len() && (#[trigger] tx.outputs[k]).covenant is Some
                    && tx.outputs[k].covenant->0.authorizing_input == delegate
                    && tx.outputs[k].covenant->0.covenant_id == covenant_id;
            delegate_verdict(tx, delegate, covenant_id, current, witness) == (if inputs[0]
                == delegate {
                Err::<(), Rejection>(Rejection::Role)
            } else if authorizes {
                Err(Rejection::Continuation)
            } else if owner_authorizes(
                tx,
                delegate,
                current.owner_scheme,
                current.owner,
                witness,
            ) {
                Ok(())
            } else {
                Err(Rejection::Authorization)
            })
        }),
{
    law_family_inputs_are(tx, covenant_id, inputs);
    assert forall|k: int| 0 <= k < tx.outputs.len() implies authorizes_output(tx, delegate, k) == ((
    #[trigger] tx.outputs[k]).covenant is Some && tx.outputs[k].covenant->0.authorizing_input
        == delegate && tx.outputs[k].covenant->0.covenant_id == covenant_id) by {}
    if exists|k: int|
        0 <= k < tx.outputs.len() && (#[trigger] tx.outputs[k]).covenant is Some
            && tx.outputs[k].covenant->0.authorizing_input == delegate
            && tx.outputs[k].covenant->0.covenant_id == covenant_id {
        let k = choose|k: int|
            0 <= k < tx.outputs.len() && (#[trigger] tx.outputs[k]).covenant is Some
                && tx.outputs[k].covenant->0.authorizing_input == delegate
                && tx.outputs[k].covenant->0.covenant_id == covenant_id;
        assert(authorizes_output(tx, delegate, k));
    }
}

/// What places decide: the leader comes first, at most three inputs, one to three outputs.
pub proof fn law_shape_verdict(inputs: Seq<int>, outputs: Seq<int>, index: int)
    ensures
        shape_verdict(inputs, outputs, index) is Ok <==> inputs[0] == index && inputs.len() <= 3
            && 1 <= outputs.len() && outputs.len() <= 3,
        shape_verdict(inputs, outputs, index) == Err::<(), Rejection>(Rejection::Role)
            <==> inputs[0] != index,
        shape_verdict(inputs, outputs, index) == Err::<(), Rejection>(Rejection::Shape)
            <==> inputs[0] == index && (inputs.len() > 3 || outputs.len() == 0 || outputs.len()
            > 3),
{
}

/// What states decide: first the sums, then the commitments, then the policies.
pub proof fn law_states_verdict(
    before: Seq<TokenState>,
    after: Seq<TokenState>,
    commitment: [u8; 32],
)
    ensures
        ({
            let kept = (forall|k: int| 0 <= k < before.len() ==> (#[trigger] before[k]).amount >= 0)
                && (forall|k: int| 0 <= k < after.len() ==> (#[trigger] after[k]).amount >= 0)
                && total(before) == total(after) && total(before) <= 0x7fff_ffff_ffff_ffff;
            let shared = (forall|k: int|
                0 <= k < before.len() ==> (#[trigger] before[k]).extension_commitment == commitment)
                && (forall|k: int|
                0 <= k < after.len() ==> (#[trigger] after[k]).extension_commitment == commitment);
            let valid = forall|k: int| 0 <= k < after.len() ==> valid_policy(#[trigger] after[k]);
            states_verdict(before, after, commitment) == (if !kept {
                Err::<(), Rejection>(Rejection::Conservation)
            } else if !shared {
                Err(Rejection::Extension)
            } else if !valid {
                Err(Rejection::Policy)
            } else {
                Ok(())
            })
        }),
{
}

} // verus!
