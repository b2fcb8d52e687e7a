//! What holds of every accepted transfer.

pub mod authorization;
pub mod borrow;
pub mod consensus;
pub mod examples;
pub mod family;
pub mod state;
pub mod verdict;

use vstd::prelude::*;

use crate::authorization::owner_authorizes;
use crate::borrow::{borrow_authorizes, keeps_holding};
use crate::conservation::{all_carry, conserves, total};
use crate::consensus::{bindings_hold, consensus_hash_type, in_family};
use crate::crypto::blake3_of;
use crate::laws::family::{law_family_inputs_are, law_small_totals};
use crate::program::ProgramView;
use crate::state::{
    threshold_of, valid_policy, TokenState, BORROW_AMOUNT_THRESHOLD, BORROW_DISABLED,
    BORROW_HASH_CHAIN, OWNER_COVENANT_ID, OWNER_P2PKH_ECDSA, OWNER_P2PKH_SCHNORR,
    OWNER_P2PK_SCHNORR, OWNER_P2SH,
};
use crate::transaction::{EncodedView, TransactionView};
use crate::transfer::{
    accepted, all_hold_tokens, all_valid_policies, authorizes_output, carry_states,
    continues_family, family_inputs, family_outputs, holds_token, input_verdict,
    lemma_family_inputs, lemma_family_outputs, plain_states, spent_states, witness_verdict,
    Rejection, MAX_TOKENS, PATH_BORROW, PATH_NORMAL,
};

verus! {

/// Whether an input calls the leader's entry.
pub open spec fn calls_transfer(tx: TransactionView, index: int) -> bool {
    &&& 0 <= index < tx.inputs.len()
    &&& tx.inputs[index].call matches Some(call) && call.entry is Transfer
}

/// Whether an input calls the delegates' entry.
pub open spec fn calls_delegator(tx: TransactionView, index: int) -> bool {
    &&& 0 <= index < tx.inputs.len()
    &&& tx.inputs[index].call matches Some(call) && call.entry is TransferDelegator
}

/// The covenant family of an input.
pub open spec fn family_of(tx: TransactionView, index: int) -> [u8; 32] {
    tx.inputs[index].utxo.covenant_id->0
}

/// The state that a token input spends.
pub open spec fn current_of(tx: TransactionView, index: int) -> TokenState {
    tx.inputs[index].call->0.current.state
}

/// The states that a leader declares.
pub open spec fn declared_of(tx: TransactionView, leader: int) -> Seq<EncodedView> {
    tx.inputs[leader].call->0.entry->Transfer_next_states
}

/// The witness of a leader.
pub open spec fn leader_witness(tx: TransactionView, leader: int) -> Seq<u8> {
    tx.inputs[leader].call->0.entry->Transfer_witness
}

/// The witness of a delegate.
pub open spec fn delegate_witness(tx: TransactionView, delegate: int) -> Seq<u8> {
    tx.inputs[delegate].call->0.entry->TransferDelegator_witness
}

/// The states that a leader's family spends.
pub open spec fn family_before(tx: TransactionView, leader: int) -> Seq<TokenState> {
    spent_states(tx, family_inputs(tx, family_of(tx, leader)))
}

/// The states that a leader's family has next.
pub open spec fn family_after(tx: TransactionView, leader: int) -> Seq<TokenState> {
    plain_states(declared_of(tx, leader))
}

/// Exactly when a leader is accepted: it spends a token, it is the lowest input of its
/// family, the family has one to three token inputs and one to three outputs, the outputs
/// carry the declared states and are authorized by the leader, the total and the extension
/// commitment are kept, the declared policies are valid, and the owner or a borrower
/// authorizes the leader.
pub proof fn law_leader_accepted_iff(program: ProgramView, tx: TransactionView, leader: int)
    requires
        calls_transfer(tx, leader),
    ensures
        ({
            let inputs = family_inputs(tx, family_of(tx, leader));
            let outputs = family_outputs(tx, family_of(tx, leader));
            let before = family_before(tx, leader);
            let after = family_after(tx, leader);
            let current = current_of(tx, leader);
            let witness = leader_witness(tx, leader);
            input_verdict(program, tx, leader) is Ok <==> {
                &&& bindings_hold(tx)
                &&& holds_token(program, tx.inputs[leader])
                &&& inputs[0] == leader
                &&& inputs.len() <= MAX_TOKENS
                &&& 1 <= outputs.len() <= MAX_TOKENS
                &&& all_hold_tokens(program, tx, inputs)
                &&& carry_states(program, tx, leader, outputs, declared_of(tx, leader))
                &&& conserves(before, after)
                &&& all_carry(before, current.extension_commitment)
                &&& all_carry(after, current.extension_commitment)
                &&& all_valid_policies(after)
                &&& witness.len() > 0
                &&& {
                    ||| witness[0] == PATH_NORMAL && owner_authorizes(
                        tx,
                        leader,
                        current.owner_scheme,
                        current.owner,
                        witness.skip(1),
                    )
                    ||| witness[0] == PATH_BORROW && keeps_holding(
                        current,
                        tx.inputs[leader].utxo.amount,
                        after[0],
                        tx.outputs[outputs[0]].value,
                    ) && borrow_authorizes(tx, leader, current, after[0], witness.skip(1))
                }
            }
        }),
{
}

/// Exactly when a delegate is accepted: it spends a token, it is not the lowest input of
/// its family, it authorizes no output, and its owner authorizes it.
pub proof fn law_delegate_accepted_iff(program: ProgramView, tx: TransactionView, delegate: int)
    requires
        calls_delegator(tx, delegate),
    ensures
        input_verdict(program, tx, delegate) is Ok <==> {
            &&& bindings_hold(tx)
            &&& holds_token(program, tx.inputs[delegate])
            &&& family_inputs(tx, family_of(tx, delegate))[0] != delegate
            &&& forall|k: int|
                0 <= k < tx.outputs.len() ==> !#[trigger] authorizes_output(tx, delegate, k)
            &&& owner_authorizes(
                tx,
                delegate,
                current_of(tx, delegate).owner_scheme,
                current_of(tx, delegate).owner,
                delegate_witness(tx, delegate),
            )
        },
{
}

/// A transfer keeps the total amount of its family, no amount is negative, and the total
/// fits the integer range.
pub proof fn law_amounts_preserved(program: ProgramView, tx: TransactionView, leader: int)
    requires
        calls_transfer(tx, leader),
        input_verdict(program, tx, leader) is Ok,
    ensures
        total(family_before(tx, leader)) == total(family_after(tx, leader)),
        0 <= total(family_after(tx, leader)) <= i64::MAX,
        forall|k: int|
            0 <= k < family_before(tx, leader).len() ==> 0 <= (#[trigger] family_before(
                tx,
                leader,
            )[k]).amount,
        forall|k: int|
            0 <= k < family_after(tx, leader).len() ==> 0 <= (#[trigger] family_after(
                tx,
                leader,
            )[k]).amount,
{
    lemma_total_nonnegative(family_after(tx, leader));
}

/// A total without negative amounts is not negative.
proof fn lemma_total_nonnegative(states: Seq<TokenState>)
    requires
        forall|i: int| 0 <= i < states.len() ==> (#[trigger] states[i]).amount >= 0,
    ensures
        total(states) >= 0,
    decreases states.len(),
{
    if states.len() > 0 {
        assert(states.last() == states[states.len() - 1]);
        assert forall|i: int| 0 <= i < states.drop_last().len() implies (
        #[trigger] states.drop_last()[i]).amount >= 0 by {
            assert(states.drop_last()[i] == states[i]);
        }
        lemma_total_nonnegative(states.drop_last());
    }
}

/// Every declared state of an accepted leader is counted, in its own place: the states that
/// the family has next are the declared ones, each once and in order, and the sum of their
/// amounts is the sum of the amounts of the family's inputs.
pub proof fn law_declared_states_are_counted(
    program: ProgramView,
    tx: TransactionView,
    leader: int,
    inputs: Seq<int>,
)
    requires
        0 <= leader < tx.inputs.len(),
        tx.inputs[leader].call is Some,
        tx.inputs[leader].call->0.entry is Transfer,
        input_verdict(program, tx, leader) is Ok,
        forall|j: int, k: int| 0 <= j < k < inputs.len() ==> inputs[j] < inputs[k],
        forall|i: int| #[trigger]
            inputs.contains(i) <==> 0 <= i < tx.inputs.len() && tx.inputs[i].utxo.covenant_id
                == tx.inputs[leader].utxo.covenant_id,
    ensures
        ({
            let declared = tx.inputs[leader].call->0.entry->Transfer_next_states;
            let spent = |k: int| tx.inputs[inputs[k]].call->0.current.state.amount;
            let made = |k: int| declared[k].state.amount;
            &&& family_after(tx, leader).len() == declared.len()
            &&& forall|k: int|
                0 <= k < declared.len() ==> #[trigger] family_after(tx, leader)[k]
                    == declared[k].state
            &&& 1 <= declared.len() <= 3
            &&& 1 <= inputs.len() <= 3
            &&& (if inputs.len() == 1 {
                spent(0) as int
            } else if inputs.len() == 2 {
                spent(0) + spent(1)
            } else {
                spent(0) + spent(1) + spent(2)
            }) == (if declared.len() == 1 {
                made(0) as int
            } else if declared.len() == 2 {
                made(0) + made(1)
            } else {
                made(0) + made(1) + made(2)
            })
        }),
{
    law_family_inputs_are(tx, family_of(tx, leader), inputs);
    assert(inputs.contains(leader));
    law_small_totals(family_before(tx, leader));
    law_small_totals(family_after(tx, leader));
}

/// All states that a transfer spends and all that it makes share one extension commitment,
/// whatever its value.
pub proof fn law_extension_preserved(program: ProgramView, tx: TransactionView, leader: int)
    requires
        calls_transfer(tx, leader),
        input_verdict(program, tx, leader) is Ok,
    ensures
        all_carry(family_before(tx, leader), current_of(tx, leader).extension_commitment),
        all_carry(family_after(tx, leader), current_of(tx, leader).extension_commitment),
{
}

/// The outputs that continue the family of an accepted leader are exactly those of the
/// declared states, in order: each is locked to its state under the program, and the leader
/// authorizes it.
pub proof fn law_outputs_carry_declared_states(
    program: ProgramView,
    tx: TransactionView,
    leader: int,
)
    requires
        calls_transfer(tx, leader),
        input_verdict(program, tx, leader) is Ok,
    ensures
        family_outputs(tx, family_of(tx, leader)).len() == declared_of(tx, leader).len(),
        forall|k: int|
            0 <= k < declared_of(tx, leader).len() ==> {
                let output = tx.outputs[#[trigger] family_outputs(tx, family_of(tx, leader))[k]];
                &&& output.lock == program.token_lock(declared_of(tx, leader)[k].script)
                &&& output.covenant is Some
                &&& output.covenant->0.authorizing_input == leader
            },
        forall|k: int|
            0 <= k < tx.outputs.len() && #[trigger] continues_family(tx, k, family_of(tx, leader))
                ==> family_outputs(tx, family_of(tx, leader)).contains(k),
{
    lemma_family_outputs(tx, family_of(tx, leader), tx.outputs.len());
}

/// A token input of an accepted transaction calls the leader's entry exactly where it is the
/// lowest input of its family, and the delegates' entry otherwise.
pub proof fn law_one_leader(program: ProgramView, tx: TransactionView, index: int)
    requires
        accepted(program, tx),
        0 <= index < tx.inputs.len(),
        tx.inputs[index].call is Some,
    ensures
        calls_transfer(tx, index) <==> family_inputs(tx, family_of(tx, index))[0] == index,
        calls_delegator(tx, index) <==> family_inputs(tx, family_of(tx, index))[0] != index,
        forall|i: int|
            0 <= i < tx.inputs.len() && #[trigger] in_family(tx, i, family_of(tx, index))
                ==> family_inputs(tx, family_of(tx, index))[0] <= i,
{
    assert(input_verdict(program, tx, index) is Ok);
    let found = family_inputs(tx, family_of(tx, index));
    lemma_family_inputs(tx, family_of(tx, index), tx.inputs.len());
    assert forall|i: int|
        0 <= i < tx.inputs.len() && #[trigger] in_family(
            tx,
            i,
            family_of(tx, index),
        ) implies found[0] <= i by {
        let k = choose|k: int| 0 <= k < found.len() && found[k] == i;
        if k > 0 {
            assert(found[0] < found[k]);
        }
    }
}

/// In an accepted transaction, a family whose lowest input is a token input is led by it:
/// the family has one to three inputs and one to three outputs, all of its inputs are token
/// inputs, all but the leader call the delegates' entry, and the total amount is kept.
pub proof fn law_family_is_led(
    program: ProgramView,
    tx: TransactionView,
    covenant_id: [u8; 32],
)
    requires
        accepted(program, tx),
        family_inputs(tx, covenant_id).len() > 0,
        tx.inputs[family_inputs(tx, covenant_id)[0]].call is Some,
    ensures
        ({
            let inputs = family_inputs(tx, covenant_id);
            let leader = inputs[0];
            &&& calls_transfer(tx, leader)
            &&& family_of(tx, leader) == covenant_id
            &&& 1 <= inputs.len() <= MAX_TOKENS
            &&& 1 <= family_outputs(tx, covenant_id).len() <= MAX_TOKENS
            &&& all_hold_tokens(program, tx, inputs)
            &&& total(family_before(tx, leader)) == total(family_after(tx, leader))
            &&& forall|k: int| 1 <= k < inputs.len() ==> calls_delegator(tx, #[trigger] inputs[k])
        }),
{
    let inputs = family_inputs(tx, covenant_id);
    lemma_family_inputs(tx, covenant_id, tx.inputs.len());
    assert(in_family(tx, inputs[0], covenant_id));
    law_one_leader(program, tx, inputs[0]);
    assert(input_verdict(program, tx, inputs[0]) is Ok);
    assert forall|k: int| 1 <= k < inputs.len() implies calls_delegator(
        tx,
        #[trigger] inputs[k],
    ) by {
        assert(in_family(tx, inputs[k], covenant_id));
        assert(holds_token(program, tx.inputs[inputs[k]]));
        assert(inputs[0] < inputs[k]);
        law_one_leader(program, tx, inputs[k]);
    }
}

/// An input that calls the entry of the other role is rejected for it.
pub proof fn law_roles_cannot_be_swapped(program: ProgramView, tx: TransactionView, index: int)
    requires
        0 <= index < tx.inputs.len(),
        bindings_hold(tx),
        holds_token(program, tx.inputs[index]),
    ensures
        calls_transfer(tx, index) && family_inputs(tx, family_of(tx, index))[0] != index
            ==> input_verdict(program, tx, index) == Err::<(), Rejection>(Rejection::Role),
        calls_delegator(tx, index) && family_inputs(tx, family_of(tx, index))[0] == index
            ==> input_verdict(program, tx, index) == Err::<(), Rejection>(Rejection::Role),
{
}

/// Every token that an accepted transaction spends is authorized: by its owner, or, for a
/// leader alone, by a borrower.
pub proof fn law_tokens_are_authorized(program: ProgramView, tx: TransactionView, index: int)
    requires
        accepted(program, tx),
        0 <= index < tx.inputs.len(),
        tx.inputs[index].call is Some,
    ensures
        ({
            let current = current_of(tx, index);
            ||| calls_delegator(tx, index) && owner_authorizes(
                tx,
                index,
                current.owner_scheme,
                current.owner,
                delegate_witness(tx, index),
            )
            ||| calls_transfer(tx, index) && leader_witness(tx, index)[0] == PATH_NORMAL
                && owner_authorizes(
                tx,
                index,
                current.owner_scheme,
                current.owner,
                leader_witness(tx, index).skip(1),
            )
            ||| calls_transfer(tx, index) && leader_witness(tx, index)[0] == PATH_BORROW
                && borrow_authorizes(
                tx,
                index,
                current,
                family_after(tx, index)[0],
                leader_witness(tx, index).skip(1),
            )
        }),
{
    assert(input_verdict(program, tx, index) is Ok);
}

/// A borrowed leader loses nothing: the first output of its family keeps its owner, its
/// schemes and its extension commitment, gains tokens and does not lose value. Its guard
/// stays, unless it is the guard of a hash chain.
pub proof fn law_borrowed_leader_keeps_holding(
    program: ProgramView,
    tx: TransactionView,
    leader: int,
)
    requires
        calls_transfer(tx, leader),
        input_verdict(program, tx, leader) is Ok,
        leader_witness(tx, leader)[0] == PATH_BORROW,
    ensures
        ({
            let before = current_of(tx, leader);
            let after = family_after(tx, leader)[0];
            let successor = family_outputs(tx, family_of(tx, leader))[0];
            &&& tx.outputs[successor].lock == program.token_lock(declared_of(tx, leader)[0].script)
            &&& tx.outputs[successor].value >= tx.inputs[leader].utxo.amount
            &&& after.owner == before.owner
            &&& after.owner_scheme == before.owner_scheme
            &&& after.borrow_scheme == before.borrow_scheme
            &&& after.extension_commitment == before.extension_commitment
            &&& after.amount > before.amount
            &&& before.borrow_scheme != BORROW_DISABLED
            &&& before.borrow_scheme != BORROW_HASH_CHAIN ==> after.borrow_guard
                == before.borrow_guard
            &&& before.borrow_scheme == BORROW_AMOUNT_THRESHOLD ==> after.amount - before.amount
                > threshold_of(before.borrow_guard@)
            &&& before.borrow_scheme == BORROW_HASH_CHAIN ==> exists|public: Seq<u8>|
                public.len() == 32 && before.borrow_guard@ == #[trigger] blake3_of(
                    after.borrow_guard@ + public,
                )
        }),
{
    let outputs = family_outputs(tx, family_of(tx, leader));
    let before = current_of(tx, leader);
    let after = family_after(tx, leader)[0];
    let bytes = leader_witness(tx, leader).skip(1);
    assert(authorizes_output(tx, leader, outputs[0]));
    if before.borrow_scheme == BORROW_HASH_CHAIN {
        let public = bytes.subrange(32, 64);
        assert(bytes.take(64) =~= bytes.take(32) + public);
        assert(before.borrow_guard@ == blake3_of(after.borrow_guard@ + public));
    }
}

/// A leader whose state has borrowing disabled, or an unknown borrow scheme, is never
/// borrowed.
pub proof fn law_disabled_is_never_borrowed(
    program: ProgramView,
    tx: TransactionView,
    leader: int,
)
    requires
        calls_transfer(tx, leader),
        current_of(tx, leader).borrow_scheme == BORROW_DISABLED || current_of(
            tx,
            leader,
        ).borrow_scheme > BORROW_HASH_CHAIN,
        leader_witness(tx, leader).len() > 0,
        leader_witness(tx, leader)[0] == PATH_BORROW,
    ensures
        input_verdict(program, tx, leader) is Err,
{
}

/// Only the first eight bytes of a guard affect its threshold.
pub proof fn law_threshold_uses_eight_bytes(a: Seq<u8>, b: Seq<u8>)
    requires
        a.len() == 32,
        b.len() == 32,
        a.take(8) == b.take(8),
    ensures
        threshold_of(a) == threshold_of(b),
{
    assert forall|i: int| 0 <= i < 8 implies a[i] == b[i] by {
        assert(a.take(8)[i] == a[i]);
        assert(b.take(8)[i] == b[i]);
    }
}

/// A leader with the largest threshold is never borrowed: no increase exceeds it.
pub proof fn law_largest_threshold_is_never_met(
    program: ProgramView,
    tx: TransactionView,
    leader: int,
)
    requires
        calls_transfer(tx, leader),
        current_of(tx, leader).borrow_scheme == BORROW_AMOUNT_THRESHOLD,
        threshold_of(current_of(tx, leader).borrow_guard@) == i64::MAX,
        leader_witness(tx, leader).len() > 0,
        leader_witness(tx, leader)[0] == PATH_BORROW,
    ensures
        input_verdict(program, tx, leader) is Err,
{
    lemma_family_inputs(tx, family_of(tx, leader), tx.inputs.len());
    if input_verdict(program, tx, leader) is Ok {
        assert(in_family(tx, leader, family_of(tx, leader)));
        assert(family_before(tx, leader)[0] == current_of(tx, leader));
    }
}

/// A link of a hash chain is not accepted again once the chain has advanced by it: where a
/// leader was borrowed by a link, no later leader that holds its successor's state is
/// borrowed by the same link. (A link whose next guard is its own commitment does not
/// advance the chain.)
pub proof fn law_links_are_not_reused(
    program: ProgramView,
    tx: TransactionView,
    leader: int,
    later_tx: TransactionView,
    later: int,
)
    requires
        calls_transfer(tx, leader),
        input_verdict(program, tx, leader) is Ok,
        current_of(tx, leader).borrow_scheme == BORROW_HASH_CHAIN,
        leader_witness(tx, leader)[0] == PATH_BORROW,
        family_after(tx, leader)[0].borrow_guard@ != current_of(tx, leader).borrow_guard@,
        calls_transfer(later_tx, later),
        current_of(later_tx, later) == family_after(tx, leader)[0],
        leader_witness(tx, leader).take(65).is_prefix_of(leader_witness(later_tx, later)),
    ensures
        input_verdict(program, later_tx, later) is Err,
{
    let witness = leader_witness(tx, leader);
    let again = leader_witness(later_tx, later);
    let shown = witness.take(65);
    assert(again.subrange(0, 65) == shown);
    assert(again[0] == shown[0]);
    assert(witness.skip(1).take(64) =~= shown.skip(1));
    assert(again.skip(1).take(64) =~= shown.skip(1));
}

/// Owner authorization has the exact length of its scheme, and an unknown scheme
/// authorizes nothing.
pub proof fn law_owner_witness_lengths(
    tx: TransactionView,
    index: int,
    owner_scheme: u8,
    owner: [u8; 32],
    bytes: Seq<u8>,
)
    requires
        owner_authorizes(tx, index, owner_scheme, owner, bytes),
    ensures
        owner_scheme <= OWNER_COVENANT_ID,
        owner_scheme == OWNER_P2PK_SCHNORR ==> bytes.len() == 65,
        owner_scheme == OWNER_P2PKH_SCHNORR ==> bytes.len() == 97,
        owner_scheme == OWNER_P2PKH_ECDSA ==> bytes.len() == 98,
        owner_scheme == OWNER_P2SH ==> bytes.len() == 1,
        owner_scheme == OWNER_COVENANT_ID ==> bytes.len() == 0,
        owner_scheme <= OWNER_P2PKH_ECDSA ==> consensus_hash_type(bytes.last()),
{
}

/// Any participating input of the owning family satisfies a covenant owner, the input that
/// is authorized among them.
pub proof fn law_covenant_owner_accepts_any_member(
    tx: TransactionView,
    index: int,
    member: int,
    owner: [u8; 32],
)
    requires
        0 <= member < tx.inputs.len(),
        in_family(tx, member, owner),
    ensures
        owner_authorizes(tx, index, OWNER_COVENANT_ID, owner, Seq::empty()),
{
}

/// An owner who authorizes a transfer may give the outputs any valid policy: nothing else
/// of the leader's borrow policy enters into the verdict.
pub proof fn law_owner_may_replace_policy(
    tx: TransactionView,
    index: int,
    current: TokenState,
    successor: int,
    next: TokenState,
    other: TokenState,
    witness: Seq<u8>,
)
    requires
        witness.len() > 0,
        witness[0] == PATH_NORMAL,
    ensures
        witness_verdict(tx, index, current, successor, next, witness) == witness_verdict(
            tx,
            index,
            current,
            successor,
            other,
            witness,
        ),
{
}

/// Every state that a transfer makes has a known owner scheme, a known borrow scheme and no
/// negative threshold.
pub proof fn law_successors_have_valid_policies(
    program: ProgramView,
    tx: TransactionView,
    leader: int,
    k: int,
)
    requires
        calls_transfer(tx, leader),
        input_verdict(program, tx, leader) is Ok,
        0 <= k < family_after(tx, leader).len(),
    ensures
        valid_policy(family_after(tx, leader)[k]),
{
}

} // verus!
