//! What a token family is in a transaction: its inputs, its outputs, its states and their sum.

use vstd::prelude::*;

use crate::conservation::{all_carry, conserves, spendable, total};
use crate::consensus::in_family;
use crate::crypto::script_hash_of;
use crate::program::ProgramView;
use crate::state::{valid_policy, TokenState};
use crate::transaction::{EncodedView, InputView, TransactionView};
use crate::transfer::{
    all_hold_tokens, all_valid_policies, authorizes_output, carry_states, continues_family,
    family_inputs, family_outputs, holds_token, lemma_family_inputs, lemma_family_outputs,
    plain_states, positions, spent_states,
};

verus! {

/// Two strictly increasing lists with the same members are the same.
proof fn lemma_same_members(a: Seq<int>, b: Seq<int>)
    requires
        forall|j: int, k: int| 0 <= j < k < a.len() ==> a[j] < a[k],
        forall|j: int, k: int| 0 <= j < k < b.len() ==> b[j] < b[k],
        forall|x: int| #[trigger] a.contains(x) <==> b.contains(x),
    ensures
        a == b,
    decreases a.len(),
{
    if a.len() == 0 {
        if b.len() > 0 {
            assert(b.contains(b[0]));
            assert(a.contains(b[0]));
        }
        assert(a =~= b);
    } else {
        assert(a.contains(a.last()));
        assert(b.contains(a.last()));
        assert(b.contains(b.last()));
        assert(a.contains(b.last()));
        let i = choose|i: int| 0 <= i < a.len() && a[i] == b.last();
        let j = choose|j: int| 0 <= j < b.len() && b[j] == a.last();
        assert(a.last() == b.last()) by {
            if i < a.len() - 1 {
                assert(a[i] < a[a.len() - 1]);
            }
            if j < b.len() - 1 {
                assert(b[j] < b[b.len() - 1]);
            }
        }
        let (c, d) = (a.drop_last(), b.drop_last());
        assert forall|x: int| #[trigger] c.contains(x) <==> d.contains(x) by {
            if c.contains(x) {
                let k = choose|k: int| 0 <= k < c.len() && c[k] == x;
                assert(a[k] == x && a[k] < a[a.len() - 1]);
                assert(a.contains(x));
                let l = choose|l: int| 0 <= l < b.len() && b[l] == x;
                assert(d[l] == x);
            }
            if d.contains(x) {
                let k = choose|k: int| 0 <= k < d.len() && d[k] == x;
                assert(b[k] == x && b[k] < b[b.len() - 1]);
                assert(b.contains(x));
                assert(a.contains(x));
                let l = choose|l: int| 0 <= l < a.len() && a[l] == x;
                assert(c[l] == x);
            }
        }
        lemma_same_members(c, d);
        assert(a =~= c.push(a.last()));
        assert(b =~= d.push(b.last()));
    }
}

/// The inputs of a family are all inputs that spend an output of it, in the order of the
/// transaction, each once: any list that is so is the list.
pub proof fn law_family_inputs_are(tx: TransactionView, covenant_id: [u8; 32], members: Seq<int>)
    requires
        forall|j: int, k: int| 0 <= j < k < members.len() ==> members[j] < members[k],
        forall|i: int| #[trigger]
            members.contains(i) <==> 0 <= i < tx.inputs.len() && tx.inputs[i].utxo.covenant_id
                == Some(covenant_id),
    ensures
        family_inputs(tx, covenant_id) == members,
{
    let found = family_inputs(tx, covenant_id);
    lemma_family_inputs(tx, covenant_id, tx.inputs.len());
    assert forall|i: int| #[trigger] found.contains(i) <==> members.contains(i) by {
        if found.contains(i) {
            let k = choose|k: int| 0 <= k < found.len() && found[k] == i;
            assert(in_family(tx, found[k], covenant_id));
        }
        if members.contains(i) {
            assert(in_family(tx, i, covenant_id));
        }
    }
    lemma_same_members(found, members);
}

/// The outputs of a family are all outputs that are bound to it and to an input that spends
/// an output of it, in the order of the transaction, each once: any list that is so is the
/// list.
pub proof fn law_family_outputs_are(tx: TransactionView, covenant_id: [u8; 32], members: Seq<int>)
    requires
        forall|j: int, k: int| 0 <= j < k < members.len() ==> members[j] < members[k],
        forall|k: int| #[trigger]
            members.contains(k) <==> {
                let binding = tx.outputs[k].covenant->0;
                &&& 0 <= k < tx.outputs.len()
                &&& tx.outputs[k].covenant is Some
                &&& binding.covenant_id == covenant_id
                &&& binding.authorizing_input < tx.inputs.len()
                &&& tx.inputs[binding.authorizing_input as int].utxo.covenant_id == Some(
                    covenant_id,
                )
            },
    ensures
        family_outputs(tx, covenant_id) == members,
{
    let found = family_outputs(tx, covenant_id);
    lemma_family_outputs(tx, covenant_id, tx.outputs.len());
    assert forall|i: int| #[trigger] found.contains(i) <==> members.contains(i) by {
        if found.contains(i) {
            let k = choose|k: int| 0 <= k < found.len() && found[k] == i;
            assert(continues_family(tx, found[k], covenant_id));
        }
        if members.contains(i) {
            assert(continues_family(tx, i, covenant_id));
        }
    }
    lemma_same_members(found, members);
}

/// An input authorizes exactly the outputs that are bound to it and to the family of the
/// output that it spends.
pub proof fn law_authorized_outputs(tx: TransactionView, input: int, output: int)
    ensures
        authorizes_output(tx, input, output) <==> {
            let binding = tx.outputs[output].covenant->0;
            &&& tx.outputs[output].covenant is Some
            &&& 0 <= input < tx.inputs.len()
            &&& binding.authorizing_input == input
            &&& tx.inputs[input].utxo.covenant_id == Some(binding.covenant_id)
        },
{
}

/// An input holds a token exactly where it makes a call, spends an output of a family, and
/// that output is locked by the hash of the program with the claimed state's script in it.
pub proof fn law_token_inputs(program: ProgramView, input: InputView)
    ensures
        holds_token(program, input) <==> {
            let redeem_script = program.prefix + input.call->0.current.script + program.suffix;
            &&& input.utxo.covenant_id is Some
            &&& input.call is Some
            &&& input.utxo.lock.version == 0
            &&& input.utxo.lock.script == seq![0xaau8, 0x20u8] + script_hash_of(redeem_script)
                + seq![0x87u8]
        },
{
}

/// All of some inputs hold tokens exactly where none of them does not.
pub proof fn law_all_inputs_hold_tokens(
    program: ProgramView,
    tx: TransactionView,
    inputs: Seq<int>,
)
    ensures
        !all_hold_tokens(program, tx, inputs) <==> exists|k: int|
            0 <= k < inputs.len() && !holds_token(program, tx.inputs[#[trigger] inputs[k]]),
{
}

/// Outputs carry declared states exactly where there are as many of each, and each output,
/// in order, is authorized by the leader and locked by the hash of the program with the
/// script of the declared state at the same place.
pub proof fn law_outputs_carry(
    program: ProgramView,
    tx: TransactionView,
    leader: int,
    outputs: Seq<int>,
    declared: Seq<EncodedView>,
)
    ensures
        carry_states(program, tx, leader, outputs, declared) <==> {
            &&& declared.len() == outputs.len()
            &&& forall|k: int|
                0 <= k < declared.len() ==> {
                    let output = tx.outputs[#[trigger] outputs[k]];
                    let redeem_script = program.prefix + declared[k].script + program.suffix;
                    &&& authorizes_output(tx, leader, outputs[k])
                    &&& output.lock.version == 0
                    &&& output.lock.script == seq![0xaau8, 0x20u8] + script_hash_of(redeem_script)
                        + seq![0x87u8]
                }
        },
{
}

/// The states that inputs spend are those of their calls, one for one and in order.
pub proof fn law_spent_states(tx: TransactionView, inputs: Seq<int>)
    ensures
        spent_states(tx, inputs).len() == inputs.len(),
        forall|k: int|
            0 <= k < inputs.len() ==> #[trigger] spent_states(tx, inputs)[k]
                == tx.inputs[inputs[k]].call->0.current.state,
{
}

/// The states of encoded states are their own, one for one and in order.
pub proof fn law_plain_states(encoded: Seq<EncodedView>)
    ensures
        plain_states(encoded).len() == encoded.len(),
        forall|k: int|
            0 <= k < encoded.len() ==> #[trigger] plain_states(encoded)[k] == encoded[k].state,
{
}

/// All policies are valid exactly where none is not.
pub proof fn law_all_policies(states: Seq<TokenState>)
    ensures
        !all_valid_policies(states) <==> exists|k: int|
            0 <= k < states.len() && !valid_policy(#[trigger] states[k]),
{
}

/// Positions are the same numbers.
pub proof fn law_positions(indices: Seq<usize>)
    ensures
        positions(indices).len() == indices.len(),
        forall|k: int| 0 <= k < indices.len() ==> #[trigger] positions(indices)[k] == indices[k],
{
}

/// No states sum up to zero, one state to its amount, and two lists behind each other to the
/// sum of their sums.
pub proof fn law_total_is_the_sum(a: Seq<TokenState>, b: Seq<TokenState>, state: TokenState)
    ensures
        total(Seq::empty()) == 0,
        total(seq![state]) == state.amount,
        total(a + b) == total(a) + total(b),
    decreases b.len(),
{
    assert(seq![state].drop_last() =~= Seq::empty());
    assert(total(seq![state].drop_last()) == 0);
    if b.len() == 0 {
        assert(a + b =~= a);
    } else {
        law_total_is_the_sum(a, b.drop_last(), state);
        assert((a + b).drop_last() =~= a + b.drop_last());
    }
}

/// The sums of one, two and three states.
pub proof fn law_small_totals(states: Seq<TokenState>)
    ensures
        states.len() == 0 ==> total(states) == 0,
        states.len() == 1 ==> total(states) == states[0].amount,
        states.len() == 2 ==> total(states) == states[0].amount + states[1].amount,
        states.len() == 3 ==> total(states) == states[0].amount + states[1].amount
            + states[2].amount,
{
    reveal_with_fuel(total, 4);
}

/// The order of the states does not change their sum: two neighbours may change places.
pub proof fn law_total_ignores_order(
    a: Seq<TokenState>,
    first: TokenState,
    second: TokenState,
    b: Seq<TokenState>,
)
    ensures
        total(a + seq![first, second] + b) == total(a + seq![second, first] + b),
{
    law_total_is_the_sum(a + seq![first, second], b, first);
    law_total_is_the_sum(a + seq![second, first], b, first);
    law_total_is_the_sum(a, seq![first, second], first);
    law_total_is_the_sum(a, seq![second, first], first);
    law_small_totals(seq![first, second]);
    law_small_totals(seq![second, first]);
}

/// States can be spent exactly where no amount is below zero and the sum is at most the
/// largest integer of 63 bits.
pub proof fn law_spendable(states: Seq<TokenState>)
    ensures
        spendable(states) <==> {
            &&& !exists|i: int| 0 <= i < states.len() && (#[trigger] states[i]).amount < 0
            &&& total(states) <= 0x7fff_ffff_ffff_ffff
        },
{
}

/// A transfer keeps the total exactly where neither side has an amount below zero, neither
/// sum is beyond the largest integer of 63 bits, and the sums are the same.
pub proof fn law_conservation(before: Seq<TokenState>, after: Seq<TokenState>)
    ensures
        conserves(before, after) <==> {
            &&& forall|i: int| 0 <= i < before.len() ==> 0 <= (#[trigger] before[i]).amount
            &&& forall|i: int| 0 <= i < after.len() ==> 0 <= (#[trigger] after[i]).amount
            &&& total(before) == total(after)
            &&& total(after) <= 0x7fff_ffff_ffff_ffff
        },
{
}

/// All states carry a commitment exactly where none carries another.
pub proof fn law_commitments(states: Seq<TokenState>, commitment: [u8; 32])
    ensures
        !all_carry(states, commitment) <==> exists|i: int|
            0 <= i < states.len() && (#[trigger] states[i]).extension_commitment != commitment,
{
}

} // verus!
