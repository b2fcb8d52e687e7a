//! Building a borrowed receive: one borrowed leader, one delegate that its owner signs
//! for.

use vstd::prelude::*;

use crate::authorization::{owner_authorizes, schnorr_authorizes};
use crate::borrow::{borrow_authorizes, keeps_holding};
use crate::bytes::append;
use crate::conservation::{all_carry, conserves};
use crate::consensus::{
    all_continue, bindings_hold, check_bindings, continues, in_family,
    law_hashes_ignore_unlocking, same_but_unlocking,
};
use crate::program::{ProgramView, TokenProgram};
use crate::state::{valid_policy, TOKEN_OUTPUT_SOMPI};
use crate::support::{sign_input, Keypair, SIG_HASH_ALL};
use crate::transaction::{
    copy_encoded, copy_utxo, encoded_views, Binding, CallView, ComputeCommit, EncodedState,
    EncodedView, Entry, EntryView, InputView, LockView, Outpoint, OutputView, TokenCall,
    Transaction, TransactionView, TxInput, TxOutput, Utxo, UtxoView,
};
use crate::transfer::{
    accepted, all_hold_tokens, authorizes_output, carry_states, continues_family, family_inputs,
    family_inputs_below, family_outputs, family_outputs_below, input_verdict, plain_states,
    spent_states, PATH_BORROW,
};

verus! {

/// The version of the transactions that carry covenant bindings.
pub const COVENANT_TX_VERSION: u16 = 1;

/// An unspent token output.
#[derive(Clone, Debug, PartialEq, Eq)]
pub struct Holding {
    pub current: EncodedState,
    pub previous: Outpoint,
    pub utxo: Utxo,
}

/// The contents of a [`Holding`].
pub struct HoldingView {
    pub current: EncodedView,
    pub previous: Outpoint,
    pub utxo: UtxoView,
}

impl View for Holding {
    type V = HoldingView;

    open spec fn view(&self) -> HoldingView {
        HoldingView { current: self.current@, previous: self.previous, utxo: self.utxo@ }
    }
}

/// How the leader is borrowed.
#[derive(Clone, Copy)]
pub enum Borrower {
    /// By an increase beyond the threshold: there is nothing to show.
    Threshold,
    /// By the next link of a hash chain: the next guard and a one-time key.
    HashChain { next_guard: [u8; 32], key: Keypair },
}

/// The token output of the examples that a lock makes.
pub open spec fn example_utxo(lock: LockView, covenant_id: [u8; 32]) -> UtxoView {
    UtxoView {
        amount: TOKEN_OUTPUT_SOMPI,
        lock,
        daa_score: 1,
        coinbase: false,
        covenant_id: Some(covenant_id),
    }
}

/// An input of a borrowed receive.
pub open spec fn receive_input(holding: HoldingView, entry: EntryView) -> InputView {
    InputView {
        previous: holding.previous,
        signature_script: Seq::empty(),
        sequence: 0,
        compute_commit: ComputeCommit::ComputeBudget(0),
        utxo: holding.utxo,
        call: Some(CallView { current: holding.current, entry }),
    }
}

/// An output of a borrowed receive: it carries a state and is authorized by the first
/// input.
pub open spec fn receive_output(
    program: ProgramView,
    next: EncodedView,
    covenant_id: [u8; 32],
) -> OutputView {
    OutputView {
        value: TOKEN_OUTPUT_SOMPI,
        lock: program.token_lock(next.script),
        covenant: Some(Binding { authorizing_input: 0, covenant_id }),
    }
}

/// The transaction of a borrowed receive with its two witnesses.
pub open spec fn receive_view(
    program: ProgramView,
    leader: HoldingView,
    delegate: HoldingView,
    leader_next: EncodedView,
    delegate_next: EncodedView,
    covenant_id: [u8; 32],
    leader_witness: Seq<u8>,
    delegate_witness: Seq<u8>,
) -> TransactionView {
    TransactionView {
        version: COVENANT_TX_VERSION,
        inputs: seq![
            receive_input(
                leader,
                EntryView::Transfer {
                    next_states: seq![leader_next, delegate_next],
                    witness: leader_witness,
                },
            ),
            receive_input(delegate, EntryView::TransferDelegator { witness: delegate_witness }),
        ],
        outputs: seq![
            receive_output(program, leader_next, covenant_id),
            receive_output(program, delegate_next, covenant_id),
        ],
        lock_time: 0,
        subnetwork_id: Seq::new(20, |i: int| 0u8),
        gas: 0,
        payload: Seq::empty(),
    }
}

/// The witness of the first input of a borrowed receive.
pub open spec fn leader_witness_of(tx: TransactionView) -> Seq<u8> {
    tx.inputs[0].call->0.entry->Transfer_witness
}

/// The witness of the second input of a borrowed receive.
pub open spec fn delegate_witness_of(tx: TransactionView) -> Seq<u8> {
    tx.inputs[1].call->0.entry->TransferDelegator_witness
}

/// Whether a leader's witness shows what its borrower has to show: nothing, or the next
/// guard, the one-time key and a signature by it that covers all inputs and outputs.
pub open spec fn borrower_shows(tx: TransactionView, borrower: Borrower, witness: Seq<u8>) -> bool {
    match borrower {
        Borrower::Threshold => witness == seq![PATH_BORROW],
        Borrower::HashChain { next_guard, key } => {
            &&& witness.len() == 130
            &&& witness.take(65) == seq![PATH_BORROW] + next_guard@ + key.public()
            &&& schnorr_authorizes(tx, 0, key.public(), witness.skip(65))
            &&& witness[129] == SIG_HASH_ALL
        },
    }
}

/// An unspent token output of the examples.
pub fn unspent_token(
    program: &TokenProgram,
    current: EncodedState,
    previous: Outpoint,
    covenant_id: &[u8; 32],
) -> (holding: Holding)
    ensures
        holding@ == (HoldingView {
            current: current@,
            previous,
            utxo: example_utxo(program@.token_lock(current@.script), *covenant_id),
        }),
{
    let utxo = Utxo {
        amount: TOKEN_OUTPUT_SOMPI,
        lock: program.token_lock(current.script.as_slice()),
        daa_score: 1,
        coinbase: false,
        covenant_id: Some(*covenant_id),
    };
    Holding { current, previous, utxo }
}

/// An input of a borrowed receive.
fn token_input(holding: &Holding, entry: Entry) -> (input: TxInput)
    ensures
        input@ == receive_input(holding@, entry@),
{
    let call = TokenCall { current: copy_encoded(&holding.current), entry };
    let input = TxInput {
        previous: holding.previous,
        signature_script: Vec::new(),
        sequence: 0,
        compute_commit: ComputeCommit::ComputeBudget(0),
        utxo: copy_utxo(&holding.utxo),
        call: Some(call),
    };
    assert(input@.signature_script =~= Seq::<u8>::empty());
    input
}

/// An output of a borrowed receive.
fn token_output(program: &TokenProgram, next: &EncodedState, covenant_id: &[u8; 32]) -> (output:
    TxOutput)
    ensures
        output@ == receive_output(program@, next@, *covenant_id),
{
    TxOutput {
        value: TOKEN_OUTPUT_SOMPI,
        lock: program.token_lock(next.script.as_slice()),
        covenant: Some(Binding { authorizing_input: 0, covenant_id: *covenant_id }),
    }
}

/// The transaction of a borrowed receive with its two witnesses.
pub fn receive_transaction(
    program: &TokenProgram,
    leader: &Holding,
    delegate: &Holding,
    leader_next: &EncodedState,
    delegate_next: &EncodedState,
    covenant_id: &[u8; 32],
    leader_witness: Vec<u8>,
    delegate_witness: Vec<u8>,
) -> (tx: Transaction)
    ensures
        tx@ == receive_view(
            program@,
            leader@,
            delegate@,
            leader_next@,
            delegate_next@,
            *covenant_id,
            leader_witness@,
            delegate_witness@,
        ),
{
    let mut next_states: Vec<EncodedState> = Vec::new();
    next_states.push(copy_encoded(leader_next));
    next_states.push(copy_encoded(delegate_next));
    assert(encoded_views(next_states@) =~= seq![leader_next@, delegate_next@]);
    let mut inputs: Vec<TxInput> = Vec::new();
    inputs.push(token_input(leader, Entry::Transfer { next_states, witness: leader_witness }));
    inputs.push(token_input(delegate, Entry::TransferDelegator { witness: delegate_witness }));
    let mut outputs: Vec<TxOutput> = Vec::new();
    outputs.push(token_output(program, leader_next, covenant_id));
    outputs.push(token_output(program, delegate_next, covenant_id));
    let tx = Transaction {
        version: COVENANT_TX_VERSION,
        inputs,
        outputs,
        lock_time: 0,
        subnetwork_id: [0u8; 20],
        gas: 0,
        payload: Vec::new(),
    };
    proof {
        let expected = receive_view(
            program@,
            leader@,
            delegate@,
            leader_next@,
            delegate_next@,
            *covenant_id,
            leader_witness@,
            delegate_witness@,
        );
        assert(tx@.inputs =~= expected.inputs);
        assert(tx@.outputs =~= expected.outputs);
        assert(tx@.subnetwork_id =~= expected.subnetwork_id);
        assert(tx@.payload =~= expected.payload);
    }
    tx
}

/// The witness that a borrower shows for the first input of a transaction.
pub fn borrow_witness(tx: &Transaction, borrower: &Borrower) -> (witness: Vec<u8>)
    requires
        tx.inputs@.len() > 0,
    ensures
        borrower_shows(tx@, *borrower, witness@),
{
    let mut witness: Vec<u8> = Vec::new();
    witness.push(PATH_BORROW);
    match borrower {
        Borrower::Threshold => {
            assert(witness@ =~= seq![PATH_BORROW]);
        },
        Borrower::HashChain { next_guard, key } => {
            append(&mut witness, next_guard.as_slice());
            let public = key.public_key();
            append(&mut witness, public.as_slice());
            let ghost shown = witness@;
            let signature = sign_input(tx, 0, key);
            append(&mut witness, signature.as_slice());
            assert(shown =~= seq![PATH_BORROW] + next_guard@ + key.public());
            assert(witness@.take(65) =~= shown);
            assert(witness@.skip(65) =~= signature@);
        },
    }
    witness
}

/// A borrowed receive: the borrower unlocks the leader, the delegate's key signs for the
/// delegate. The signatures cover all inputs and outputs. They draw randomness, so the witnesses are not fixed; what holds
/// of them holds whatever was drawn.
pub fn borrowed_receive(
    program: &TokenProgram,
    leader: &Holding,
    delegate: &Holding,
    leader_next: &EncodedState,
    delegate_next: &EncodedState,
    covenant_id: &[u8; 32],
    borrower: &Borrower,
    delegate_key: &Keypair,
) -> (tx: Transaction)
    ensures
        tx@ == receive_view(
            program@,
            leader@,
            delegate@,
            leader_next@,
            delegate_next@,
            *covenant_id,
            leader_witness_of(tx@),
            delegate_witness_of(tx@),
        ),
        borrower_shows(tx@, *borrower, leader_witness_of(tx@)),
        schnorr_authorizes(tx@, 1, delegate_key.public(), delegate_witness_of(tx@)),
        delegate_witness_of(tx@)[64] == SIG_HASH_ALL,
        leader@.utxo.covenant_id == Some(*covenant_id) ==> bindings_hold(tx@),
{
    let unsigned = receive_transaction(
        program,
        leader,
        delegate,
        leader_next,
        delegate_next,
        covenant_id,
        Vec::new(),
        Vec::new(),
    );
    assert(unsigned@.inputs.len() == 2);
    let leader_witness = borrow_witness(&unsigned, borrower);
    let delegate_witness = sign_input(&unsigned, 1, delegate_key);
    let ghost shown = leader_witness@;
    let ghost signed = delegate_witness@;
    let tx = receive_transaction(
        program,
        leader,
        delegate,
        leader_next,
        delegate_next,
        covenant_id,
        leader_witness,
        delegate_witness,
    );
    proof {
        assert(same_but_unlocking(tx@, unsigned@));
        law_hashes_ignore_unlocking(tx@, unsigned@, 0, shown.skip(65)[64]);
        law_hashes_ignore_unlocking(tx@, unsigned@, 1, signed[64]);
    }
    // Both outputs continue the family of the leader, so the consensus crate accepts them.
    let bound = check_bindings(&tx);
    proof {
        if leader@.utxo.covenant_id == Some(*covenant_id) {
            assert(in_family(tx@, 0, *covenant_id));
            assert(all_continue(tx@) && bound);
        }
    }
    tx
}

/// A borrowed receive is accepted: both inputs hold tokens of one family, the outputs keep
/// the total and the extension commitment and have valid policies, the leader's successor
/// keeps its holding, the borrower is authorized, the delegate's owner is, and the consensus
/// crate accepts the bindings.
pub proof fn law_borrowed_receive_accepted(
    program: ProgramView,
    leader: HoldingView,
    delegate: HoldingView,
    leader_next: EncodedView,
    delegate_next: EncodedView,
    covenant_id: [u8; 32],
    leader_witness: Seq<u8>,
    delegate_witness: Seq<u8>,
    tx: TransactionView,
)
    requires
        tx == receive_view(
            program,
            leader,
            delegate,
            leader_next,
            delegate_next,
            covenant_id,
            leader_witness,
            delegate_witness,
        ),
        leader.utxo.covenant_id == Some(covenant_id),
        delegate.utxo.covenant_id == Some(covenant_id),
        leader.utxo.lock == program.token_lock(leader.current.script),
        delegate.utxo.lock == program.token_lock(delegate.current.script),
        conserves(
            seq![leader.current.state, delegate.current.state],
            seq![leader_next.state, delegate_next.state],
        ),
        all_carry(
            seq![delegate.current.state, leader_next.state, delegate_next.state],
            leader.current.state.extension_commitment,
        ),
        valid_policy(leader_next.state),
        valid_policy(delegate_next.state),
        keeps_holding(
            leader.current.state,
            leader.utxo.amount,
            leader_next.state,
            TOKEN_OUTPUT_SOMPI,
        ),
        leader_witness.len() > 0,
        leader_witness[0] == PATH_BORROW,
        borrow_authorizes(
            tx,
            0,
            leader.current.state,
            leader_next.state,
            leader_witness.skip(1),
        ),
        owner_authorizes(
            tx,
            1,
            delegate.current.state.owner_scheme,
            delegate.current.state.owner,
            delegate_witness,
        ),
        bindings_hold(tx),
    ensures
        accepted(program, tx),
{
    let declared = seq![leader_next, delegate_next];
    assert(in_family(tx, 0, covenant_id) && in_family(tx, 1, covenant_id));
    assert forall|k: int|
        #![trigger tx.outputs[k]]
        0 <= k < tx.outputs.len() implies continues(tx, tx.outputs[k]) && authorizes_output(
        tx,
        0,
        k,
    ) && continues_family(tx, k, covenant_id) by {
        assert(k == 0 || k == 1);
    }
    reveal_with_fuel(family_inputs_below, 3);
    reveal_with_fuel(family_outputs_below, 3);
    let places = seq![0int, 1int];
    assert(continues_family(tx, 0, covenant_id)) by {
        let _ = tx.outputs[0];
    }
    assert(continues_family(tx, 1, covenant_id)) by {
        let _ = tx.outputs[1];
    }
    assert(family_inputs(tx, covenant_id) =~= places);
    assert(family_outputs(tx, covenant_id) =~= places);
    let before = spent_states(tx, places);
    let after = plain_states(declared);
    assert(before =~= seq![leader.current.state, delegate.current.state]);
    assert(after =~= seq![leader_next.state, delegate_next.state]);
    let others = seq![delegate.current.state, leader_next.state, delegate_next.state];
    assert(others[0] == before[1] && others[1] == after[0] && others[2] == after[1]);
    assert(all_hold_tokens(program, tx, places));
    assert(carry_states(program, tx, 0, places, declared));
    assert(input_verdict(program, tx, 0) is Ok);
    assert forall|k: int| 0 <= k < tx.outputs.len() implies !#[trigger] authorizes_output(
        tx,
        1,
        k,
    ) by {
        assert(k == 0 || k == 1);
    }
    assert(input_verdict(program, tx, 1) is Ok);
}

} // verus!
