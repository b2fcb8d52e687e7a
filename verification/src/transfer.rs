//! The transfer rules: which transactions a token family accepts.

use vstd::prelude::*;
use vstd::slice::slice_subrange;

use crate::authorization::{check_owner, owner_authorizes};
use crate::borrow::{borrow_authorizes, check_borrow, check_holding, keeps_holding};
use crate::bytes::same_word;
use crate::conservation::{all_carry, check_conservation, check_extension, conserves};
use crate::consensus::{
    bindings_hold, check_bindings, continues, in_family, is_continuation, is_in_family, run_script,
    script_accepts,
};
use crate::program::{ProgramView, TokenProgram};
use crate::state::{is_valid_policy, valid_policy, TokenState};
use crate::transaction::{
    encoded_views, same_lock, EncodedState, EncodedView, Entry, EntryView, InputView, Transaction,
    TransactionView, TxInput,
};

verus! {

/// The leader's witness goes on with its owner's authorization.
pub const PATH_NORMAL: u8 = 0x00;

/// The leader's witness goes on with a borrow authorization.
pub const PATH_BORROW: u8 = 0x01;

/// The most token inputs, and the most token outputs, of a transfer.
pub const MAX_TOKENS: usize = 3;

/// Why an input is rejected.
#[derive(Clone, Copy, Debug, PartialEq, Eq)]
pub enum Rejection {
    /// The consensus crate does not accept the outputs' covenant bindings.
    Binding,
    /// The script engine rejects an input that is not a token input.
    Script,
    /// A family input does not commit to the state and the program that it claims.
    Commitment,
    /// The input calls the entry of the other role.
    Role,
    /// The family has too many inputs, or no or too many outputs.
    Shape,
    /// The outputs do not carry the declared states, or the wrong input authorizes one.
    Continuation,
    /// An amount is negative, a total does not fit, or the totals differ.
    Conservation,
    /// A state has another extension commitment than the leader.
    Extension,
    /// A declared state has an unknown scheme or a negative threshold.
    Policy,
    /// The leader's witness names no path.
    Witness,
    /// The owner does not authorize the input.
    Authorization,
    /// The leader cannot be borrowed so.
    Borrow,
}

/// The first input that is rejected, and why.
#[derive(Clone, Copy, Debug, PartialEq, Eq)]
pub struct InputError {
    pub input_index: usize,
    pub reason: Rejection,
}

/// The inputs of a covenant family among the first `count`, in order.
pub open spec fn family_inputs_below(
    tx: TransactionView,
    covenant_id: [u8; 32],
    count: nat,
) -> Seq<int>
    decreases count,
{
    if count == 0 {
        seq![]
    } else {
        let rest = family_inputs_below(tx, covenant_id, (count - 1) as nat);
        if in_family(tx, count - 1, covenant_id) {
            rest.push(count - 1)
        } else {
            rest
        }
    }
}

/// The inputs of a covenant family, in order.
pub open spec fn family_inputs(tx: TransactionView, covenant_id: [u8; 32]) -> Seq<int> {
    family_inputs_below(tx, covenant_id, tx.inputs.len())
}

/// Whether an output continues a covenant family.
pub open spec fn continues_family(tx: TransactionView, output: int, covenant_id: [u8; 32]) -> bool {
    continues(tx, tx.outputs[output]) && tx.outputs[output].covenant->0.covenant_id == covenant_id
}

/// The outputs that continue a covenant family among the first `count`, in order.
pub open spec fn family_outputs_below(
    tx: TransactionView,
    covenant_id: [u8; 32],
    count: nat,
) -> Seq<int>
    decreases count,
{
    if count == 0 {
        seq![]
    } else {
        let rest = family_outputs_below(tx, covenant_id, (count - 1) as nat);
        if continues_family(tx, count - 1, covenant_id) {
            rest.push(count - 1)
        } else {
            rest
        }
    }
}

/// The outputs that continue a covenant family, in order.
pub open spec fn family_outputs(tx: TransactionView, covenant_id: [u8; 32]) -> Seq<int> {
    family_outputs_below(tx, covenant_id, tx.outputs.len())
}

/// Whether an input authorizes an output that continues its family.
pub open spec fn authorizes_output(tx: TransactionView, input: int, output: int) -> bool {
    continues(tx, tx.outputs[output]) && tx.outputs[output].covenant->0.authorizing_input == input
}

/// Whether an input spends a token output of the program: it belongs to a family and
/// its lock commits to the state that its call claims.
pub open spec fn holds_token(program: ProgramView, input: InputView) -> bool {
    &&& input.utxo.covenant_id is Some
    &&& input.call matches Some(call) && input.utxo.lock == program.token_lock(call.current.script)
}

/// The states that some token inputs spend.
pub open spec fn spent_states(tx: TransactionView, inputs: Seq<int>) -> Seq<TokenState> {
    Seq::new(inputs.len(), |k: int| tx.inputs[inputs[k]].call->0.current.state)
}

/// The states of some encoded states.
pub open spec fn plain_states(encoded: Seq<EncodedView>) -> Seq<TokenState> {
    Seq::new(encoded.len(), |k: int| encoded[k].state)
}

/// Whether every one of some inputs spends a token output of the program.
pub open spec fn all_hold_tokens(
    program: ProgramView,
    tx: TransactionView,
    inputs: Seq<int>,
) -> bool {
    forall|k: int| 0 <= k < inputs.len() ==> holds_token(program, tx.inputs[#[trigger] inputs[k]])
}

/// Whether some outputs carry the declared states one for one, all of them authorized
/// by the leader.
pub open spec fn carry_states(
    program: ProgramView,
    tx: TransactionView,
    leader: int,
    outputs: Seq<int>,
    declared: Seq<EncodedView>,
) -> bool {
    &&& declared.len() == outputs.len()
    &&& forall|k: int|
        0 <= k < outputs.len() ==> authorizes_output(tx, leader, #[trigger] outputs[k])
            && tx.outputs[outputs[k]].lock == program.token_lock(declared[k].script)
}

/// Whether every state's policy is one that an output may carry.
pub open spec fn all_valid_policies(states: Seq<TokenState>) -> bool {
    forall|k: int| 0 <= k < states.len() ==> valid_policy(#[trigger] states[k])
}

/// What the places of a family's inputs and outputs decide: the leader is the first input,
/// and there are not too few or too many of them.
pub open spec fn shape_verdict(inputs: Seq<int>, outputs: Seq<int>, index: int) -> Result<
    (),
    Rejection,
> {
    if inputs[0] != index {
        Err(Rejection::Role)
    } else if !(inputs.len() <= MAX_TOKENS && 1 <= outputs.len() <= MAX_TOKENS) {
        Err(Rejection::Shape)
    } else {
        Ok(())
    }
}

/// What the states before and after a transfer decide: the total is kept, all carry the
/// leader's extension commitment, and those after have valid policies.
pub open spec fn states_verdict(
    before: Seq<TokenState>,
    after: Seq<TokenState>,
    commitment: [u8; 32],
) -> Result<(), Rejection> {
    if !conserves(before, after) {
        Err(Rejection::Conservation)
    } else if !(all_carry(before, commitment) && all_carry(after, commitment)) {
        Err(Rejection::Extension)
    } else if !all_valid_policies(after) {
        Err(Rejection::Policy)
    } else {
        Ok(())
    }
}

/// What the leader's witness decides.
pub open spec fn witness_verdict(
    tx: TransactionView,
    index: int,
    current: TokenState,
    successor: int,
    next: TokenState,
    witness: Seq<u8>,
) -> Result<(), Rejection> {
    if witness.len() == 0 {
        Err(Rejection::Witness)
    } else if witness[0] == PATH_NORMAL {
        if owner_authorizes(tx, index, current.owner_scheme, current.owner, witness.skip(1)) {
            Ok(())
        } else {
            Err(Rejection::Authorization)
        }
    } else if witness[0] == PATH_BORROW {
        if keeps_holding(
            current,
            tx.inputs[index].utxo.amount,
            next,
            tx.outputs[successor].value,
        ) && borrow_authorizes(tx, index, current, next, witness.skip(1)) {
            Ok(())
        } else {
            Err(Rejection::Borrow)
        }
    } else {
        Err(Rejection::Witness)
    }
}

/// What the leader's entry decides.
pub open spec fn leader_verdict(
    program: ProgramView,
    tx: TransactionView,
    index: int,
    covenant_id: [u8; 32],
    current: TokenState,
    declared: Seq<EncodedView>,
    witness: Seq<u8>,
) -> Result<(), Rejection> {
    let inputs = family_inputs(tx, covenant_id);
    let outputs = family_outputs(tx, covenant_id);
    let before = spent_states(tx, inputs);
    let after = plain_states(declared);
    if shape_verdict(inputs, outputs, index) is Err {
        shape_verdict(inputs, outputs, index)
    } else if !all_hold_tokens(program, tx, inputs) {
        Err(Rejection::Commitment)
    } else if !carry_states(program, tx, index, outputs, declared) {
        Err(Rejection::Continuation)
    } else if states_verdict(before, after, current.extension_commitment) is Err {
        states_verdict(before, after, current.extension_commitment)
    } else {
        witness_verdict(tx, index, current, outputs[0], after[0], witness)
    }
}

/// What the delegates' entry decides.
pub open spec fn delegate_verdict(
    tx: TransactionView,
    index: int,
    covenant_id: [u8; 32],
    current: TokenState,
    witness: Seq<u8>,
) -> Result<(), Rejection> {
    if family_inputs(tx, covenant_id)[0] == index {
        Err(Rejection::Role)
    } else if exists|k: int|
        0 <= k < tx.outputs.len() && #[trigger] authorizes_output(tx, index, k) {
        Err(Rejection::Continuation)
    } else if !owner_authorizes(tx, index, current.owner_scheme, current.owner, witness) {
        Err(Rejection::Authorization)
    } else {
        Ok(())
    }
}

/// What the execution of an input decides.
pub open spec fn input_verdict(program: ProgramView, tx: TransactionView, index: int) -> Result<
    (),
    Rejection,
> {
    let input = tx.inputs[index];
    if !bindings_hold(tx) {
        Err(Rejection::Binding)
    } else {
        match input.call {
            None => if script_accepts(tx, index) {
                Ok(())
            } else {
                Err(Rejection::Script)
            },
            Some(call) => if !holds_token(program, input) {
                Err(Rejection::Commitment)
            } else {
                match call.entry {
                    EntryView::Transfer { next_states, witness } => leader_verdict(
                        program,
                        tx,
                        index,
                        input.utxo.covenant_id->0,
                        call.current.state,
                        next_states,
                        witness,
                    ),
                    EntryView::TransferDelegator { witness } => delegate_verdict(
                        tx,
                        index,
                        input.utxo.covenant_id->0,
                        call.current.state,
                        witness,
                    ),
                }
            },
        }
    }
}

/// Whether every input of a transaction is accepted.
pub open spec fn accepted(program: ProgramView, tx: TransactionView) -> bool {
    forall|i: int| 0 <= i < tx.inputs.len() ==> #[trigger] input_verdict(program, tx, i) is Ok
}

/// The family inputs below a count are the indices of members, in order.
pub proof fn lemma_family_inputs(tx: TransactionView, covenant_id: [u8; 32], count: nat)
    ensures
        ({
            let found = family_inputs_below(tx, covenant_id, count);
            &&& found.len() <= count
            &&& forall|k: int|
                0 <= k < found.len() ==> 0 <= #[trigger] found[k] < count && in_family(
                    tx,
                    found[k],
                    covenant_id,
                )
            &&& forall|j: int, k: int| 0 <= j < k < found.len() ==> found[j] < found[k]
            &&& forall|i: int|
                0 <= i < count && #[trigger] in_family(tx, i, covenant_id) ==> found.contains(i)
        }),
    decreases count,
{
    if count > 0 {
        lemma_family_inputs(tx, covenant_id, (count - 1) as nat);
        let rest = family_inputs_below(tx, covenant_id, (count - 1) as nat);
        let found = family_inputs_below(tx, covenant_id, count);
        assert forall|i: int|
            0 <= i < count && #[trigger] in_family(tx, i, covenant_id) implies found.contains(
            i,
        ) by {
            if i == count - 1 {
                assert(found[found.len() - 1] == i);
            } else {
                let k = choose|k: int| 0 <= k < rest.len() && rest[k] == i;
                assert(found[k] == i);
            }
        }
    }
}

/// The family outputs below a count are the indices of continuations, in order.
pub proof fn lemma_family_outputs(tx: TransactionView, covenant_id: [u8; 32], count: nat)
    ensures
        ({
            let found = family_outputs_below(tx, covenant_id, count);
            &&& found.len() <= count
            &&& forall|k: int|
                0 <= k < found.len() ==> 0 <= #[trigger] found[k] < count && continues_family(
                    tx,
                    found[k],
                    covenant_id,
                )
            &&& forall|j: int, k: int| 0 <= j < k < found.len() ==> found[j] < found[k]
            &&& forall|i: int|
                0 <= i < count && #[trigger] continues_family(tx, i, covenant_id)
                    ==> found.contains(i)
        }),
    decreases count,
{
    if count > 0 {
        lemma_family_outputs(tx, covenant_id, (count - 1) as nat);
        let rest = family_outputs_below(tx, covenant_id, (count - 1) as nat);
        let found = family_outputs_below(tx, covenant_id, count);
        assert forall|i: int|
            0 <= i < count && #[trigger] continues_family(tx, i, covenant_id) implies found.contains(
            i,
        ) by {
            if i == count - 1 {
                assert(found[found.len() - 1] == i);
            } else {
                let k = choose|k: int| 0 <= k < rest.len() && rest[k] == i;
                assert(found[k] == i);
            }
        }
    }
}

/// Positions as integers.
pub open spec fn positions(indices: Seq<usize>) -> Seq<int> {
    Seq::new(indices.len(), |k: int| indices[k] as int)
}

/// The inputs of a covenant family, in order.
pub fn find_family_inputs(tx: &Transaction, covenant_id: &[u8; 32]) -> (found: Vec<usize>)
    ensures
        positions(found@) == family_inputs(tx@, *covenant_id),
{
    let mut found: Vec<usize> = Vec::new();
    let mut i: usize = 0;
    assert(positions(found@) =~= family_inputs_below(tx@, *covenant_id, 0));
    while i < tx.inputs.len()
        invariant
            i <= tx.inputs@.len(),
            positions(found@) == family_inputs_below(tx@, *covenant_id, i as nat),
        decreases tx.inputs@.len() - i,
    {
        if is_in_family(tx, i, covenant_id) {
            let ghost before = found@;
            found.push(i);
            assert(positions(found@) =~= positions(before).push(i as int));
        }
        i += 1;
    }
    found
}

/// The outputs that continue a covenant family, in order.
pub fn find_family_outputs(tx: &Transaction, covenant_id: &[u8; 32]) -> (found: Vec<usize>)
    ensures
        positions(found@) == family_outputs(tx@, *covenant_id),
{
    let mut found: Vec<usize> = Vec::new();
    let mut k: usize = 0;
    assert(positions(found@) =~= family_outputs_below(tx@, *covenant_id, 0));
    while k < tx.outputs.len()
        invariant
            k <= tx.outputs@.len(),
            positions(found@) == family_outputs_below(tx@, *covenant_id, k as nat),
        decreases tx.outputs@.len() - k,
    {
        assert(tx@.outputs[k as int] == tx.outputs@[k as int]@);
        let member = match &tx.outputs[k].covenant {
            Some(binding) => is_continuation(tx, k) && same_word(&binding.covenant_id, covenant_id),
            None => false,
        };
        if member {
            let ghost before = found@;
            found.push(k);
            assert(positions(found@) =~= positions(before).push(k as int));
        }
        k += 1;
    }
    found
}

/// Whether an input authorizes an output that continues its family.
pub fn is_authorized_by(tx: &Transaction, input: usize, output: usize) -> (authorized: bool)
    requires
        output < tx.outputs@.len(),
    ensures
        authorized == authorizes_output(tx@, input as int, output as int),
{
    assert(tx@.outputs[output as int] == tx.outputs@[output as int]@);
    match &tx.outputs[output].covenant {
        Some(binding) => is_continuation(tx, output) && binding.authorizing_input as usize == input,
        None => false,
    }
}

/// Whether an input authorizes any output that continues its family.
pub fn authorizes_any(tx: &Transaction, input: usize) -> (found: bool)
    ensures
        found == exists|k: int|
            0 <= k < tx@.outputs.len() && #[trigger] authorizes_output(tx@, input as int, k),
{
    let mut k: usize = 0;
    while k < tx.outputs.len()
        invariant
            k <= tx.outputs@.len(),
            forall|j: int| 0 <= j < k ==> !#[trigger] authorizes_output(tx@, input as int, j),
        decreases tx.outputs@.len() - k,
    {
        if is_authorized_by(tx, input, k) {
            return true;
        }
        k += 1;
    }
    false
}

/// Whether an input spends a token output of the program.
pub fn is_token_input(program: &TokenProgram, input: &TxInput) -> (token: bool)
    ensures
        token == holds_token(program@, input@),
{
    if input.utxo.covenant_id.is_none() {
        return false;
    }
    match &input.call {
        Some(call) => {
            let lock = program.token_lock(call.current.script.as_slice());
            same_lock(&input.utxo.lock, &lock)
        },
        None => false,
    }
}

/// The states that some token inputs spend, where every one of them spends a token
/// output of the program.
pub fn collect_spent(program: &TokenProgram, tx: &Transaction, inputs: &Vec<usize>) -> (states: Option<
    Vec<TokenState>,
>)
    requires
        forall|k: int| 0 <= k < inputs@.len() ==> (#[trigger] inputs@[k]) < tx.inputs@.len(),
    ensures
        states is Some == all_hold_tokens(program@, tx@, positions(inputs@)),
        states matches Some(found) ==> found@ == spent_states(tx@, positions(inputs@)),
{
    let mut found: Vec<TokenState> = Vec::new();
    let mut k: usize = 0;
    while k < inputs.len()
        invariant
            k <= inputs@.len(),
            forall|j: int| 0 <= j < inputs@.len() ==> (#[trigger] inputs@[j]) < tx.inputs@.len(),
            forall|j: int|
                0 <= j < k ==> holds_token(program@, tx@.inputs[#[trigger] positions(inputs@)[j]]),
            found@ == spent_states(tx@, positions(inputs@)).take(k as int),
        decreases inputs@.len() - k,
    {
        let input = &tx.inputs[inputs[k]];
        assert(tx@.inputs[positions(inputs@)[k as int]] == input@);
        if !is_token_input(program, input) {
            return None;
        }
        match &input.call {
            Some(call) => found.push(call.current.state),
            None => return None,
        }
        k += 1;
        assert(spent_states(tx@, positions(inputs@)).take(k as int) =~= spent_states(
            tx@,
            positions(inputs@),
        ).take(k - 1).push(spent_states(tx@, positions(inputs@))[k - 1]));
    }
    assert(found@ =~= spent_states(tx@, positions(inputs@)));
    Some(found)
}

/// Whether some outputs carry the declared states one for one, all of them authorized
/// by the leader.
pub fn check_continuation(
    program: &TokenProgram,
    tx: &Transaction,
    leader: usize,
    outputs: &Vec<usize>,
    declared: &Vec<EncodedState>,
) -> (carried: bool)
    requires
        forall|k: int| 0 <= k < outputs@.len() ==> (#[trigger] outputs@[k]) < tx.outputs@.len(),
    ensures
        carried == carry_states(
            program@,
            tx@,
            leader as int,
            positions(outputs@),
            encoded_views(declared@),
        ),
{
    if declared.len() != outputs.len() {
        return false;
    }
    let ghost places = positions(outputs@);
    let ghost states = encoded_views(declared@);
    let mut k: usize = 0;
    while k < outputs.len()
        invariant
            k <= outputs@.len(),
            declared@.len() == outputs@.len(),
            places == positions(outputs@),
            states == encoded_views(declared@),
            forall|j: int| 0 <= j < outputs@.len() ==> (#[trigger] outputs@[j]) < tx.outputs@.len(),
            forall|j: int|
                0 <= j < k ==> authorizes_output(tx@, leader as int, #[trigger] places[j])
                    && tx@.outputs[places[j]].lock == program@.token_lock(states[j].script),
        decreases outputs@.len() - k,
    {
        let place: usize = outputs[k];
        let lock = program.token_lock(declared[k].script.as_slice());
        assert(places[k as int] == place);
        assert(tx@.outputs[place as int] == tx.outputs@[place as int]@);
        assert(states[k as int] == declared@[k as int]@);
        if !is_authorized_by(tx, leader, place) || !same_lock(&tx.outputs[place].lock, &lock) {
            return false;
        }
        k += 1;
    }
    true
}

/// The states of some encoded states.
pub fn collect_plain(encoded: &Vec<EncodedState>) -> (states: Vec<TokenState>)
    ensures
        states@ == plain_states(encoded_views(encoded@)),
{
    let mut states: Vec<TokenState> = Vec::new();
    let mut k: usize = 0;
    while k < encoded.len()
        invariant
            k <= encoded@.len(),
            states@ == plain_states(encoded_views(encoded@)).take(k as int),
        decreases encoded@.len() - k,
    {
        states.push(encoded[k].state);
        k += 1;
        assert(plain_states(encoded_views(encoded@)).take(k as int) =~= plain_states(
            encoded_views(encoded@),
        ).take(k - 1).push(plain_states(encoded_views(encoded@))[k - 1]));
    }
    assert(states@ =~= plain_states(encoded_views(encoded@)));
    states
}

/// Whether every state's policy is one that an output may carry.
pub fn check_policies(states: &Vec<TokenState>) -> (valid: bool)
    ensures
        valid == all_valid_policies(states@),
{
    let mut k: usize = 0;
    while k < states.len()
        invariant
            k <= states@.len(),
            forall|j: int| 0 <= j < k ==> valid_policy(#[trigger] states@[j]),
        decreases states@.len() - k,
    {
        if !is_valid_policy(&states[k]) {
            assert(!valid_policy(states@[k as int]));
            return false;
        }
        k += 1;
    }
    true
}

/// Decides by the places of a family's inputs and outputs.
pub fn check_shape(inputs: &Vec<usize>, outputs: &Vec<usize>, index: usize) -> (verdict: Result<
    (),
    Rejection,
>)
    requires
        inputs@.len() > 0,
    ensures
        verdict == shape_verdict(positions(inputs@), positions(outputs@), index as int),
{
    if inputs[0] != index {
        Err(Rejection::Role)
    } else if inputs.len() > MAX_TOKENS || outputs.len() < 1 || outputs.len() > MAX_TOKENS {
        Err(Rejection::Shape)
    } else {
        Ok(())
    }
}

/// Decides by the states before and after a transfer.
pub fn check_states(
    before: &Vec<TokenState>,
    after: &Vec<TokenState>,
    commitment: &[u8; 32],
) -> (verdict: Result<(), Rejection>)
    ensures
        verdict == states_verdict(before@, after@, *commitment),
{
    if !check_conservation(before, after) {
        Err(Rejection::Conservation)
    } else if !check_extension(before, commitment) || !check_extension(after, commitment) {
        Err(Rejection::Extension)
    } else if !check_policies(after) {
        Err(Rejection::Policy)
    } else {
        Ok(())
    }
}

/// Decides by the leader's witness.
pub fn check_witness(
    tx: &Transaction,
    index: usize,
    current: &TokenState,
    successor: usize,
    next: &TokenState,
    witness: &[u8],
) -> (verdict: Result<(), Rejection>)
    requires
        index < tx.inputs@.len(),
        successor < tx.outputs@.len(),
    ensures
        verdict == witness_verdict(
            tx@,
            index as int,
            *current,
            successor as int,
            *next,
            witness@,
        ),
{
    if witness.len() == 0 {
        return Err(Rejection::Witness);
    }
    let bytes = slice_subrange(witness, 1, witness.len());
    assert(bytes@ =~= witness@.skip(1));
    assert(tx@.inputs[index as int] == tx.inputs@[index as int]@);
    assert(tx@.outputs[successor as int] == tx.outputs@[successor as int]@);
    if witness[0] == PATH_NORMAL {
        if check_owner(tx, index, current.owner_scheme, &current.owner, bytes) {
            Ok(())
        } else {
            Err(Rejection::Authorization)
        }
    } else if witness[0] == PATH_BORROW {
        if check_holding(
            current,
            tx.inputs[index].utxo.amount,
            next,
            tx.outputs[successor].value,
        ) && check_borrow(tx, index, current, next, bytes) {
            Ok(())
        } else {
            Err(Rejection::Borrow)
        }
    } else {
        Err(Rejection::Witness)
    }
}

/// Executes the leader's entry.
pub fn execute_transfer(
    program: &TokenProgram,
    tx: &Transaction,
    index: usize,
    covenant_id: &[u8; 32],
    current: &TokenState,
    declared: &Vec<EncodedState>,
    witness: &[u8],
) -> (verdict: Result<(), Rejection>)
    requires
        index < tx.inputs@.len(),
        in_family(tx@, index as int, *covenant_id),
    ensures
        verdict == leader_verdict(
            program@,
            tx@,
            index as int,
            *covenant_id,
            *current,
            encoded_views(declared@),
            witness@,
        ),
{
    let inputs = find_family_inputs(tx, covenant_id);
    let outputs = find_family_outputs(tx, covenant_id);
    proof {
        lemma_family_inputs(tx@, *covenant_id, tx@.inputs.len());
        lemma_family_outputs(tx@, *covenant_id, tx@.outputs.len());
        assert(family_inputs(tx@, *covenant_id).contains(index as int));
        assert forall|k: int| 0 <= k < inputs@.len() implies (#[trigger] inputs@[k])
            < tx.inputs@.len() by {
            assert(positions(inputs@)[k] == inputs@[k]);
        }
        assert forall|k: int| 0 <= k < outputs@.len() implies (#[trigger] outputs@[k])
            < tx.outputs@.len() by {
            assert(positions(outputs@)[k] == outputs@[k]);
        }
    }
    match check_shape(&inputs, &outputs, index) {
        Ok(()) => {},
        Err(reason) => return Err(reason),
    }
    let before = match collect_spent(program, tx, &inputs) {
        Some(states) => states,
        None => return Err(Rejection::Commitment),
    };
    if !check_continuation(program, tx, index, &outputs, declared) {
        return Err(Rejection::Continuation);
    }
    let after = collect_plain(declared);
    match check_states(&before, &after, &current.extension_commitment) {
        Ok(()) => {},
        Err(reason) => return Err(reason),
    }
    check_witness(tx, index, current, outputs[0], &after[0], witness)
}

/// Executes the delegates' entry.
pub fn execute_delegator(
    tx: &Transaction,
    index: usize,
    covenant_id: &[u8; 32],
    current: &TokenState,
    witness: &[u8],
) -> (verdict: Result<(), Rejection>)
    requires
        index < tx.inputs@.len(),
        in_family(tx@, index as int, *covenant_id),
    ensures
        verdict == delegate_verdict(tx@, index as int, *covenant_id, *current, witness@),
{
    let inputs = find_family_inputs(tx, covenant_id);
    proof {
        lemma_family_inputs(tx@, *covenant_id, tx@.inputs.len());
        assert(family_inputs(tx@, *covenant_id).contains(index as int));
    }
    if inputs[0] == index {
        return Err(Rejection::Role);
    }
    if authorizes_any(tx, index) {
        return Err(Rejection::Continuation);
    }
    if !check_owner(tx, index, current.owner_scheme, &current.owner, witness) {
        return Err(Rejection::Authorization);
    }
    Ok(())
}

/// Executes one input of a transaction.
pub fn execute_input(program: &TokenProgram, tx: &Transaction, index: usize) -> (verdict: Result<
    (),
    Rejection,
>)
    requires
        index < tx.inputs@.len(),
    ensures
        verdict == input_verdict(program@, tx@, index as int),
{
    if !check_bindings(tx) {
        return Err(Rejection::Binding);
    }
    let input = &tx.inputs[index];
    assert(tx@.inputs[index as int] == input@);
    match &input.call {
        None => if run_script(tx, index) {
            Ok(())
        } else {
            Err(Rejection::Script)
        },
        Some(call) => {
            if !is_token_input(program, input) {
                return Err(Rejection::Commitment);
            }
            match &input.utxo.covenant_id {
                None => Err(Rejection::Commitment),
                Some(covenant_id) => match &call.entry {
                    Entry::Transfer { next_states, witness } => execute_transfer(
                        program,
                        tx,
                        index,
                        covenant_id,
                        &call.current.state,
                        next_states,
                        witness.as_slice(),
                    ),
                    Entry::TransferDelegator { witness } => execute_delegator(
                        tx,
                        index,
                        covenant_id,
                        &call.current.state,
                        witness.as_slice(),
                    ),
                },
            }
        },
    }
}

/// Executes the inputs of a transaction in order, up to the first that is rejected.
pub fn execute_transaction(program: &TokenProgram, tx: &Transaction) -> (verdict: Result<
    (),
    InputError,
>)
    ensures
        verdict is Ok == accepted(program@, tx@),
        verdict matches Err(error) ==> {
            &&& error.input_index < tx.inputs@.len()
            &&& input_verdict(program@, tx@, error.input_index as int) == Err::<(), Rejection>(
                error.reason,
            )
            &&& forall|i: int|
                0 <= i < error.input_index ==> #[trigger] input_verdict(program@, tx@, i) is Ok
        },
{
    let mut i: usize = 0;
    while i < tx.inputs.len()
        invariant
            i <= tx.inputs@.len(),
            forall|j: int| 0 <= j < i ==> #[trigger] input_verdict(program@, tx@, j) is Ok,
        decreases tx.inputs@.len() - i,
    {
        match execute_input(program, tx, i) {
            Ok(()) => {},
            Err(reason) => return Err(InputError { input_index: i, reason }),
        }
        i += 1;
    }
    Ok(())
}

} // verus!
