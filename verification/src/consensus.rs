//! Transactions as the consensus crates see them: signature hashes, identifiers,
//! covenant bindings and the script engine.

use kaspa_consensus_core::hashing::sighash::{
    calc_ecdsa_signature_hash, calc_schnorr_signature_hash, SigHashReusedValuesUnsync,
};
use kaspa_consensus_core::hashing::sighash_type::SigHashType;
use kaspa_consensus_core::subnets::SubnetworkId;
use kaspa_consensus_core::tx::{
    CovenantBinding, PopulatedTransaction, ScriptPublicKey, TransactionInput, TransactionOutpoint,
    TransactionOutput, UtxoEntry,
};
use kaspa_txscript::caches::Cache;
use kaspa_txscript::covenants::CovenantsContext;
use kaspa_txscript::{EngineCtx, TxScriptEngine};
use vstd::prelude::*;

use crate::bytes::{copy_bytes, same_word};
use crate::transaction::{
    Binding, ComputeCommit, InputView, Lock, LockView, Outpoint, OutputView, Transaction,
    TransactionView, TxInput, Utxo, UtxoView,
};

verus! {

/// An input of the consensus crate.
#[verifier::external_type_specification]
#[verifier::external_body]
pub struct ExTransactionInput(TransactionInput);

/// An output of the consensus crate.
#[verifier::external_type_specification]
#[verifier::external_body]
pub struct ExTransactionOutput(TransactionOutput);

/// An unspent output of the consensus crate.
#[verifier::external_type_specification]
#[verifier::external_body]
pub struct ExUtxoEntry(UtxoEntry);

/// What `TransactionInput::new` returns.
pub uninterp spec fn sig_op_input_of(
    previous: Outpoint,
    signature_script: Seq<u8>,
    sequence: u64,
    sig_op_count: u8,
) -> TransactionInput;

/// Calls `TransactionInput::new`: the input is made of these values alone.
#[verifier::external_body]
fn new_sig_op_input(
    previous: Outpoint,
    signature_script: Vec<u8>,
    sequence: u64,
    sig_op_count: u8,
) -> (input: TransactionInput)
    ensures
        input == sig_op_input_of(previous, signature_script@, sequence, sig_op_count),
{
    let outpoint = TransactionOutpoint::new(previous.transaction_id.into(), previous.index);
    TransactionInput::new(outpoint, signature_script, sequence, sig_op_count)
}

/// What `TransactionInput::new_with_compute_budget` returns.
pub uninterp spec fn budget_input_of(
    previous: Outpoint,
    signature_script: Seq<u8>,
    sequence: u64,
    compute_budget: u16,
) -> TransactionInput;

/// Calls `TransactionInput::new_with_compute_budget`: the input is made of these
/// values alone.
#[verifier::external_body]
fn new_budget_input(
    previous: Outpoint,
    signature_script: Vec<u8>,
    sequence: u64,
    compute_budget: u16,
) -> (input: TransactionInput)
    ensures
        input == budget_input_of(previous, signature_script@, sequence, compute_budget),
{
    let outpoint = TransactionOutpoint::new(previous.transaction_id.into(), previous.index);
    TransactionInput::new_with_compute_budget(outpoint, signature_script, sequence, compute_budget)
}

/// The input of the consensus crate that an input is, with a signature script.
pub open spec fn input_of(input: InputView, signature_script: Seq<u8>) -> TransactionInput {
    match input.compute_commit {
        ComputeCommit::SigOpCount(count) => sig_op_input_of(
            input.previous,
            signature_script,
            input.sequence,
            count,
        ),
        ComputeCommit::ComputeBudget(budget) => budget_input_of(
            input.previous,
            signature_script,
            input.sequence,
            budget,
        ),
    }
}

/// The input of the consensus crate that an input is, with a signature script.
fn convert_input(input: &TxInput, signature_script: Vec<u8>) -> (converted: TransactionInput)
    ensures
        converted == input_of(input@, signature_script@),
{
    match input.compute_commit {
        ComputeCommit::SigOpCount(count) => new_sig_op_input(
            input.previous,
            signature_script,
            input.sequence,
            count,
        ),
        ComputeCommit::ComputeBudget(budget) => new_budget_input(
            input.previous,
            signature_script,
            input.sequence,
            budget,
        ),
    }
}

/// What `TransactionOutput::with_covenant` returns.
pub uninterp spec fn output_of(value: u64, lock: LockView, covenant: Option<Binding>) -> TransactionOutput;

/// Calls `TransactionOutput::with_covenant`: the output is made of these values
/// alone.
#[verifier::external_body]
fn new_output(value: u64, lock: &Lock, covenant: Option<Binding>) -> (output: TransactionOutput)
    ensures
        output == output_of(value, lock@, covenant),
{
    TransactionOutput::with_covenant(
        value,
        ScriptPublicKey::from_vec(lock.version, lock.script.clone()),
        covenant.map(|b| CovenantBinding::new(b.authorizing_input, b.covenant_id.into())),
    )
}

/// What `UtxoEntry::new` returns.
pub uninterp spec fn entry_of(utxo: UtxoView) -> UtxoEntry;

/// Calls `UtxoEntry::new`: the entry is made of the unspent output's values alone.
#[verifier::external_body]
fn new_entry(utxo: &Utxo) -> (entry: UtxoEntry)
    ensures
        entry == entry_of(utxo@),
{
    let lock = ScriptPublicKey::from_vec(utxo.lock.version, utxo.lock.script.clone());
    let covenant_id = utxo.covenant_id.map(|id| id.into());
    UtxoEntry::new(utxo.amount, lock, utxo.daa_score, utxo.coinbase, covenant_id)
}

/// The inputs of a transaction, with their signature scripts left empty.
pub open spec fn bare_inputs(tx: TransactionView) -> Seq<TransactionInput> {
    Seq::new(tx.inputs.len(), |i: int| input_of(tx.inputs[i], Seq::<u8>::empty()))
}

/// The inputs of a transaction, with their signature scripts.
pub open spec fn full_inputs(tx: TransactionView) -> Seq<TransactionInput> {
    Seq::new(tx.inputs.len(), |i: int| input_of(tx.inputs[i], tx.inputs[i].signature_script))
}

/// The outputs of a transaction.
pub open spec fn outputs_of(tx: TransactionView) -> Seq<TransactionOutput> {
    Seq::new(
        tx.outputs.len(),
        |i: int| output_of(tx.outputs[i].value, tx.outputs[i].lock, tx.outputs[i].covenant),
    )
}

/// The outputs that a transaction spends.
pub open spec fn entries_of(tx: TransactionView) -> Seq<UtxoEntry> {
    Seq::new(tx.inputs.len(), |i: int| entry_of(tx.inputs[i].utxo))
}

/// Whether a byte is a signature hash type of the consensus: all, none or single,
/// each alone or with anyone-can-pay.
pub open spec fn consensus_hash_type(byte: u8) -> bool {
    byte == 0x01 || byte == 0x02 || byte == 0x04 || byte == 0x81 || byte == 0x82 || byte == 0x84
}

/// What `calc_schnorr_signature_hash` returns.
pub uninterp spec fn schnorr_digest_of(
    version: u16,
    inputs: Seq<TransactionInput>,
    outputs: Seq<TransactionOutput>,
    lock_time: u64,
    subnetwork_id: Seq<u8>,
    gas: u64,
    payload: Seq<u8>,
    entries: Seq<UtxoEntry>,
    index: int,
    hash_type: u8,
) -> Seq<u8>;

/// Calls `calc_schnorr_signature_hash`: the digest is a function of the transaction,
/// the outputs that it spends, the input and the hash type.
#[verifier::external_body]
fn schnorr_digest(
    version: u16,
    inputs: Vec<TransactionInput>,
    outputs: Vec<TransactionOutput>,
    lock_time: u64,
    subnetwork_id: [u8; 20],
    gas: u64,
    payload: Vec<u8>,
    entries: Vec<UtxoEntry>,
    index: usize,
    hash_type: u8,
) -> (digest: [u8; 32])
    requires
        inputs@.len() == entries@.len(),
        index < inputs@.len(),
        consensus_hash_type(hash_type),
    ensures
        digest@ == schnorr_digest_of(
            version,
            inputs@,
            outputs@,
            lock_time,
            subnetwork_id@,
            gas,
            payload@,
            entries@,
            index as int,
            hash_type,
        ),
{
    let network = SubnetworkId::from_bytes(subnetwork_id);
    let tx = kaspa_consensus_core::tx::Transaction::new(
        version, inputs, outputs, lock_time, network, gas, payload,
    );
    let hash_type = SigHashType::from_u8(hash_type).unwrap();
    let populated = PopulatedTransaction::new(&tx, entries);
    let reused = SigHashReusedValuesUnsync::new();
    calc_schnorr_signature_hash(&populated, index, hash_type, &reused).as_bytes()
}

/// What `calc_ecdsa_signature_hash` returns.
pub uninterp spec fn ecdsa_digest_of(
    version: u16,
    inputs: Seq<TransactionInput>,
    outputs: Seq<TransactionOutput>,
    lock_time: u64,
    subnetwork_id: Seq<u8>,
    gas: u64,
    payload: Seq<u8>,
    entries: Seq<UtxoEntry>,
    index: int,
    hash_type: u8,
) -> Seq<u8>;

/// Calls `calc_ecdsa_signature_hash`: the digest is a function of the transaction,
/// the outputs that it spends, the input and the hash type.
#[verifier::external_body]
fn ecdsa_digest(
    version: u16,
    inputs: Vec<TransactionInput>,
    outputs: Vec<TransactionOutput>,
    lock_time: u64,
    subnetwork_id: [u8; 20],
    gas: u64,
    payload: Vec<u8>,
    entries: Vec<UtxoEntry>,
    index: usize,
    hash_type: u8,
) -> (digest: [u8; 32])
    requires
        inputs@.len() == entries@.len(),
        index < inputs@.len(),
        consensus_hash_type(hash_type),
    ensures
        digest@ == ecdsa_digest_of(
            version,
            inputs@,
            outputs@,
            lock_time,
            subnetwork_id@,
            gas,
            payload@,
            entries@,
            index as int,
            hash_type,
        ),
{
    let network = SubnetworkId::from_bytes(subnetwork_id);
    let tx = kaspa_consensus_core::tx::Transaction::new(
        version, inputs, outputs, lock_time, network, gas, payload,
    );
    let hash_type = SigHashType::from_u8(hash_type).unwrap();
    let populated = PopulatedTransaction::new(&tx, entries);
    let reused = SigHashReusedValuesUnsync::new();
    calc_ecdsa_signature_hash(&populated, index, hash_type, &reused).as_bytes()
}

/// What `Transaction::id` returns.
pub uninterp spec fn transaction_id_of(
    version: u16,
    inputs: Seq<TransactionInput>,
    outputs: Seq<TransactionOutput>,
    lock_time: u64,
    subnetwork_id: Seq<u8>,
    gas: u64,
    payload: Seq<u8>,
) -> Seq<u8>;

/// Calls `Transaction::id`: the identifier is a function of the transaction.
#[verifier::external_body]
fn identifier(
    version: u16,
    inputs: Vec<TransactionInput>,
    outputs: Vec<TransactionOutput>,
    lock_time: u64,
    subnetwork_id: [u8; 20],
    gas: u64,
    payload: Vec<u8>,
) -> (id: [u8; 32])
    ensures
        id@ == transaction_id_of(
            version,
            inputs@,
            outputs@,
            lock_time,
            subnetwork_id@,
            gas,
            payload@,
        ),
{
    let network = SubnetworkId::from_bytes(subnetwork_id);
    kaspa_consensus_core::tx::Transaction::new(
        version, inputs, outputs, lock_time, network, gas, payload,
    ).id().as_bytes()
}

/// Whether `CovenantsContext::from_tx` accepts a transaction.
pub uninterp spec fn covenants_accept(
    version: u16,
    inputs: Seq<TransactionInput>,
    outputs: Seq<TransactionOutput>,
    lock_time: u64,
    subnetwork_id: Seq<u8>,
    gas: u64,
    payload: Seq<u8>,
    entries: Seq<UtxoEntry>,
) -> bool;

/// Calls `CovenantsContext::from_tx`: whether it accepts is a function of the
/// transaction and the outputs that it spends. It accepts a transaction whose bound
/// outputs all continue a family, and refuses one with an output that is bound to an
/// input out of range. The inputs, the outputs and the entries are those of the
/// transaction, converted.
#[verifier::external_body]
fn check_covenants(
    tx: &Transaction,
    inputs: Vec<TransactionInput>,
    outputs: Vec<TransactionOutput>,
    entries: Vec<UtxoEntry>,
) -> (accepted: bool)
    requires
        inputs@ == bare_inputs(tx@),
        outputs@ == outputs_of(tx@),
        entries@ == entries_of(tx@),
    ensures
        accepted == covenants_accept(
            tx@.version,
            inputs@,
            outputs@,
            tx@.lock_time,
            tx@.subnetwork_id,
            tx@.gas,
            tx@.payload,
            entries@,
        ),
        all_continue(tx@) ==> accepted,
        accepted ==> all_bound_in_range(tx@),
{
    let network = SubnetworkId::from_bytes(tx.subnetwork_id);
    let (lock_time, payload) = (tx.lock_time, tx.payload.clone());
    let tx = kaspa_consensus_core::tx::Transaction::new(
        tx.version, inputs, outputs, lock_time, network, tx.gas, payload,
    );
    CovenantsContext::from_tx(&PopulatedTransaction::new(&tx, entries)).is_ok()
}

/// Whether `TxScriptEngine::execute` accepts an input of a transaction, false where
/// `CovenantsContext::from_tx` refuses the transaction.
pub uninterp spec fn engine_accepts(
    version: u16,
    inputs: Seq<TransactionInput>,
    outputs: Seq<TransactionOutput>,
    lock_time: u64,
    subnetwork_id: Seq<u8>,
    gas: u64,
    payload: Seq<u8>,
    entries: Seq<UtxoEntry>,
    index: int,
) -> bool;

/// Calls `TxScriptEngine::execute` on one input, with the transaction's covenants:
/// whether it accepts is a function of the transaction, the outputs that it spends
/// and the input.
#[verifier::external_body]
fn execute_script(
    version: u16,
    inputs: Vec<TransactionInput>,
    outputs: Vec<TransactionOutput>,
    lock_time: u64,
    subnetwork_id: [u8; 20],
    gas: u64,
    payload: Vec<u8>,
    entries: Vec<UtxoEntry>,
    index: usize,
) -> (accepted: bool)
    requires
        inputs@.len() == entries@.len(),
        index < inputs@.len(),
    ensures
        accepted == engine_accepts(
            version,
            inputs@,
            outputs@,
            lock_time,
            subnetwork_id@,
            gas,
            payload@,
            entries@,
            index as int,
        ),
{
    let network = SubnetworkId::from_bytes(subnetwork_id);
    let tx = kaspa_consensus_core::tx::Transaction::new(
        version, inputs, outputs, lock_time, network, gas, payload,
    );
    let full = PopulatedTransaction::new(&tx, entries);
    let Ok(covenants) = CovenantsContext::from_tx(&full) else { return false };
    let (cache, reused) = (Cache::new(0), SigHashReusedValuesUnsync::new());
    let ctx = EngineCtx::new(&cache).with_reused(&reused).with_covenants_ctx(&covenants);
    let (input, entry, flags) = (&tx.inputs[index], &full.entries[index], Default::default());
    TxScriptEngine::from_transaction_input(&full, input, index, entry, ctx, flags).execute().is_ok()
}

/// The inputs of a transaction for the consensus crate, without signature scripts.
fn convert_bare_inputs(tx: &Transaction) -> (inputs: Vec<TransactionInput>)
    ensures
        inputs@ == bare_inputs(tx@),
{
    let mut inputs: Vec<TransactionInput> = Vec::new();
    let mut i: usize = 0;
    while i < tx.inputs.len()
        invariant
            i <= tx.inputs@.len(),
            inputs@ == bare_inputs(tx@).take(i as int),
        decreases tx.inputs@.len() - i,
    {
        let script: Vec<u8> = Vec::new();
        assert(script@ =~= Seq::<u8>::empty());
        inputs.push(convert_input(&tx.inputs[i], script));
        i += 1;
        assert(bare_inputs(tx@).take(i as int) =~= bare_inputs(tx@).take(i - 1).push(
            bare_inputs(tx@)[i - 1],
        ));
    }
    assert(bare_inputs(tx@).take(i as int) =~= bare_inputs(tx@));
    inputs
}

/// The inputs of a transaction for the consensus crate, with signature scripts.
fn convert_full_inputs(tx: &Transaction) -> (inputs: Vec<TransactionInput>)
    ensures
        inputs@ == full_inputs(tx@),
{
    let mut inputs: Vec<TransactionInput> = Vec::new();
    let mut i: usize = 0;
    while i < tx.inputs.len()
        invariant
            i <= tx.inputs@.len(),
            inputs@ == full_inputs(tx@).take(i as int),
        decreases tx.inputs@.len() - i,
    {
        let script = copy_bytes(tx.inputs[i].signature_script.as_slice());
        inputs.push(convert_input(&tx.inputs[i], script));
        i += 1;
        assert(full_inputs(tx@).take(i as int) =~= full_inputs(tx@).take(i - 1).push(
            full_inputs(tx@)[i - 1],
        ));
    }
    assert(full_inputs(tx@).take(i as int) =~= full_inputs(tx@));
    inputs
}

/// The outputs of a transaction for the consensus crate.
fn convert_outputs(tx: &Transaction) -> (outputs: Vec<TransactionOutput>)
    ensures
        outputs@ == outputs_of(tx@),
{
    let mut outputs: Vec<TransactionOutput> = Vec::new();
    let mut i: usize = 0;
    while i < tx.outputs.len()
        invariant
            i <= tx.outputs@.len(),
            outputs@ == outputs_of(tx@).take(i as int),
        decreases tx.outputs@.len() - i,
    {
        let output = &tx.outputs[i];
        outputs.push(new_output(output.value, &output.lock, output.covenant));
        i += 1;
        assert(outputs_of(tx@).take(i as int) =~= outputs_of(tx@).take(i - 1).push(
            outputs_of(tx@)[i - 1],
        ));
    }
    assert(outputs_of(tx@).take(i as int) =~= outputs_of(tx@));
    outputs
}

/// The outputs that a transaction spends, for the consensus crate.
fn convert_entries(tx: &Transaction) -> (entries: Vec<UtxoEntry>)
    ensures
        entries@ == entries_of(tx@),
{
    let mut entries: Vec<UtxoEntry> = Vec::new();
    let mut i: usize = 0;
    while i < tx.inputs.len()
        invariant
            i <= tx.inputs@.len(),
            entries@ == entries_of(tx@).take(i as int),
        decreases tx.inputs@.len() - i,
    {
        entries.push(new_entry(&tx.inputs[i].utxo));
        i += 1;
        assert(entries_of(tx@).take(i as int) =~= entries_of(tx@).take(i - 1).push(
            entries_of(tx@)[i - 1],
        ));
    }
    assert(entries_of(tx@).take(i as int) =~= entries_of(tx@));
    entries
}

/// The digest that a Schnorr signature of an input signs. No signature hash covers
/// the signature scripts.
pub open spec fn schnorr_hash(tx: TransactionView, index: int, hash_type: u8) -> Seq<u8> {
    schnorr_digest_of(
        tx.version,
        bare_inputs(tx),
        outputs_of(tx),
        tx.lock_time,
        tx.subnetwork_id,
        tx.gas,
        tx.payload,
        entries_of(tx),
        index,
        hash_type,
    )
}

/// The digest that a Schnorr signature of an input signs.
pub fn schnorr_signature_hash(tx: &Transaction, index: usize, hash_type: u8) -> (digest: [u8; 32])
    requires
        index < tx.inputs@.len(),
        consensus_hash_type(hash_type),
    ensures
        digest@ == schnorr_hash(tx@, index as int, hash_type),
{
    schnorr_digest(
        tx.version,
        convert_bare_inputs(tx),
        convert_outputs(tx),
        tx.lock_time,
        tx.subnetwork_id,
        tx.gas,
        copy_bytes(tx.payload.as_slice()),
        convert_entries(tx),
        index,
        hash_type,
    )
}

/// The digest that an ECDSA signature of an input signs. No signature hash covers
/// the signature scripts.
pub open spec fn ecdsa_hash(tx: TransactionView, index: int, hash_type: u8) -> Seq<u8> {
    ecdsa_digest_of(
        tx.version,
        bare_inputs(tx),
        outputs_of(tx),
        tx.lock_time,
        tx.subnetwork_id,
        tx.gas,
        tx.payload,
        entries_of(tx),
        index,
        hash_type,
    )
}

/// The digest that an ECDSA signature of an input signs.
pub fn ecdsa_signature_hash(tx: &Transaction, index: usize, hash_type: u8) -> (digest: [u8; 32])
    requires
        index < tx.inputs@.len(),
        consensus_hash_type(hash_type),
    ensures
        digest@ == ecdsa_hash(tx@, index as int, hash_type),
{
    ecdsa_digest(
        tx.version,
        convert_bare_inputs(tx),
        convert_outputs(tx),
        tx.lock_time,
        tx.subnetwork_id,
        tx.gas,
        copy_bytes(tx.payload.as_slice()),
        convert_entries(tx),
        index,
        hash_type,
    )
}

/// The identifier of a transaction, which does not cover the signature scripts.
pub open spec fn id_of(tx: TransactionView) -> Seq<u8> {
    transaction_id_of(
        tx.version,
        bare_inputs(tx),
        outputs_of(tx),
        tx.lock_time,
        tx.subnetwork_id,
        tx.gas,
        tx.payload,
    )
}

/// The identifier of a transaction.
pub fn transaction_id(tx: &Transaction) -> (id: [u8; 32])
    ensures
        id@ == id_of(tx@),
{
    identifier(
        tx.version,
        convert_bare_inputs(tx),
        convert_outputs(tx),
        tx.lock_time,
        tx.subnetwork_id,
        tx.gas,
        copy_bytes(tx.payload.as_slice()),
    )
}

/// Whether two transactions differ at most in how their inputs are unlocked: in signature
/// scripts and token calls.
pub open spec fn same_but_unlocking(a: TransactionView, b: TransactionView) -> bool {
    &&& a.version == b.version
    &&& a.outputs == b.outputs
    &&& a.lock_time == b.lock_time
    &&& a.subnetwork_id == b.subnetwork_id
    &&& a.gas == b.gas
    &&& a.payload == b.payload
    &&& a.inputs.len() == b.inputs.len()
    &&& forall|i: int|
        #![trigger a.inputs[i]]
        #![trigger b.inputs[i]]
        0 <= i < a.inputs.len() ==> {
            &&& a.inputs[i].previous == b.inputs[i].previous
            &&& a.inputs[i].sequence == b.inputs[i].sequence
            &&& a.inputs[i].compute_commit == b.inputs[i].compute_commit
            &&& a.inputs[i].utxo == b.inputs[i].utxo
        }
}

/// Unlocking the inputs changes neither what is signed nor the identifier.
pub proof fn law_hashes_ignore_unlocking(
    a: TransactionView,
    b: TransactionView,
    index: int,
    hash_type: u8,
)
    requires
        same_but_unlocking(a, b),
    ensures
        schnorr_hash(a, index, hash_type) == schnorr_hash(b, index, hash_type),
        ecdsa_hash(a, index, hash_type) == ecdsa_hash(b, index, hash_type),
        id_of(a) == id_of(b),
{
    assert(bare_inputs(a) =~= bare_inputs(b));
    assert(entries_of(a) =~= entries_of(b));
}

/// Whether an input belongs to a covenant family.
pub open spec fn in_family(tx: TransactionView, input: int, covenant_id: [u8; 32]) -> bool {
    tx.inputs[input].utxo.covenant_id == Some(covenant_id)
}

/// Whether an output continues the covenant family of the input that authorizes it.
pub open spec fn continues(tx: TransactionView, output: OutputView) -> bool {
    match output.covenant {
        Some(binding) => binding.authorizing_input < tx.inputs.len() && in_family(
            tx,
            binding.authorizing_input as int,
            binding.covenant_id,
        ),
        None => false,
    }
}

/// Whether every output that is bound to a covenant family continues it.
pub open spec fn all_continue(tx: TransactionView) -> bool {
    forall|k: int|
        #![trigger tx.outputs[k]]
        0 <= k < tx.outputs.len() ==> tx.outputs[k].covenant is None || continues(
            tx,
            tx.outputs[k],
        )
}

/// Whether every output that is bound to a covenant family names an input.
pub open spec fn all_bound_in_range(tx: TransactionView) -> bool {
    forall|k: int|
        #![trigger tx.outputs[k]]
        0 <= k < tx.outputs.len() && tx.outputs[k].covenant is Some
            ==> tx.outputs[k].covenant->0.authorizing_input < tx.inputs.len()
}

/// Whether the consensus crate accepts the outputs' covenant bindings.
pub open spec fn bindings_hold(tx: TransactionView) -> bool {
    covenants_accept(
        tx.version,
        bare_inputs(tx),
        outputs_of(tx),
        tx.lock_time,
        tx.subnetwork_id,
        tx.gas,
        tx.payload,
        entries_of(tx),
    )
}

/// Whether an input belongs to a covenant family.
pub fn is_in_family(tx: &Transaction, input: usize, covenant_id: &[u8; 32]) -> (member: bool)
    requires
        input < tx.inputs@.len(),
    ensures
        member == in_family(tx@, input as int, *covenant_id),
{
    match &tx.inputs[input].utxo.covenant_id {
        Some(id) => same_word(id, covenant_id),
        None => false,
    }
}

/// Whether an output continues the covenant family of the input that authorizes it.
pub fn is_continuation(tx: &Transaction, output: usize) -> (continuation: bool)
    requires
        output < tx.outputs@.len(),
    ensures
        continuation == continues(tx@, tx@.outputs[output as int]),
{
    match &tx.outputs[output].covenant {
        Some(binding) => (binding.authorizing_input as usize) < tx.inputs.len() && is_in_family(
            tx,
            binding.authorizing_input as usize,
            &binding.covenant_id,
        ),
        None => false,
    }
}

/// Whether the consensus crate accepts the outputs' covenant bindings: it does where all of
/// them continue a family, and it does not where one names no input.
pub fn check_bindings(tx: &Transaction) -> (valid: bool)
    ensures
        valid == bindings_hold(tx@),
        all_continue(tx@) ==> valid,
        valid ==> all_bound_in_range(tx@),
{
    check_covenants(tx, convert_bare_inputs(tx), convert_outputs(tx), convert_entries(tx))
}

/// Whether the script engine accepts an input.
pub open spec fn script_accepts(tx: TransactionView, index: int) -> bool {
    engine_accepts(
        tx.version,
        full_inputs(tx),
        outputs_of(tx),
        tx.lock_time,
        tx.subnetwork_id,
        tx.gas,
        tx.payload,
        entries_of(tx),
        index,
    )
}

/// Runs the script engine on an input.
pub fn run_script(tx: &Transaction, index: usize) -> (accepted: bool)
    requires
        index < tx.inputs@.len(),
    ensures
        accepted == script_accepts(tx@, index as int),
{
    execute_script(
        tx.version,
        convert_full_inputs(tx),
        convert_outputs(tx),
        tx.lock_time,
        tx.subnetwork_id,
        tx.gas,
        copy_bytes(tx.payload.as_slice()),
        convert_entries(tx),
        index,
    )
}

} // verus!
