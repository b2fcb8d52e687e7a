//! Transactions with the outputs that they spend, as plain values.

use vstd::prelude::*;

use crate::bytes::{copy_bytes, same_bytes};
use crate::state::TokenState;

verus! {

/// The place of an output: its transaction and its position there.
#[derive(Clone, Copy, Debug, PartialEq, Eq)]
pub struct Outpoint {
    pub transaction_id: [u8; 32],
    pub index: u32,
}

/// A locking script and its version.
#[derive(Clone, Debug, PartialEq, Eq)]
pub struct Lock {
    pub version: u16,
    pub script: Vec<u8>,
}

/// Binds an output to a covenant family and to the input that authorizes it.
#[derive(Clone, Copy, Debug, PartialEq, Eq)]
pub struct Binding {
    pub authorizing_input: u16,
    pub covenant_id: [u8; 32],
}

/// An unspent output.
#[derive(Clone, Debug, PartialEq, Eq)]
pub struct Utxo {
    pub amount: u64,
    pub lock: Lock,
    pub daa_score: u64,
    pub coinbase: bool,
    pub covenant_id: Option<[u8; 32]>,
}

/// A token state with the script bytes that the compiled program holds it in. The program's
/// codec makes the pair; the rules take its word that the script holds the state.
#[derive(Clone, Debug, PartialEq, Eq)]
pub struct EncodedState {
    pub state: TokenState,
    pub script: Vec<u8>,
}

/// The entry of the token program that an input calls, with its arguments.
#[derive(Clone, Debug, PartialEq, Eq)]
pub enum Entry {
    Transfer { next_states: Vec<EncodedState>, witness: Vec<u8> },
    TransferDelegator { witness: Vec<u8> },
}

/// The state that a token input spends and the entry that it calls.
#[derive(Clone, Debug, PartialEq, Eq)]
pub struct TokenCall {
    pub current: EncodedState,
    pub entry: Entry,
}

/// What an input commits to compute: signature operations in transactions of version 0, a
/// budget in later ones.
#[derive(Clone, Copy, Debug, PartialEq, Eq)]
pub enum ComputeCommit {
    SigOpCount(u8),
    ComputeBudget(u16),
}

/// An input with the output that it spends. A token input has a call; any other
/// input is unlocked by its signature script alone.
#[derive(Clone, Debug, PartialEq, Eq)]
pub struct TxInput {
    pub previous: Outpoint,
    pub signature_script: Vec<u8>,
    pub sequence: u64,
    pub compute_commit: ComputeCommit,
    pub utxo: Utxo,
    pub call: Option<TokenCall>,
}

/// An output.
#[derive(Clone, Debug, PartialEq, Eq)]
pub struct TxOutput {
    pub value: u64,
    pub lock: Lock,
    pub covenant: Option<Binding>,
}

/// A transaction.
#[derive(Clone, Debug, PartialEq, Eq)]
pub struct Transaction {
    pub version: u16,
    pub inputs: Vec<TxInput>,
    pub outputs: Vec<TxOutput>,
    pub lock_time: u64,
    pub subnetwork_id: [u8; 20],
    pub gas: u64,
    pub payload: Vec<u8>,
}

/// The contents of a [`Lock`].
pub struct LockView {
    pub version: u16,
    pub script: Seq<u8>,
}

/// The contents of a [`Utxo`].
pub struct UtxoView {
    pub amount: u64,
    pub lock: LockView,
    pub daa_score: u64,
    pub coinbase: bool,
    pub covenant_id: Option<[u8; 32]>,
}

/// The contents of an [`EncodedState`].
pub struct EncodedView {
    pub state: TokenState,
    pub script: Seq<u8>,
}

/// The contents of an [`Entry`].
pub enum EntryView {
    Transfer { next_states: Seq<EncodedView>, witness: Seq<u8> },
    TransferDelegator { witness: Seq<u8> },
}

/// The contents of a [`TokenCall`].
pub struct CallView {
    pub current: EncodedView,
    pub entry: EntryView,
}

/// The contents of a [`TxInput`].
pub struct InputView {
    pub previous: Outpoint,
    pub signature_script: Seq<u8>,
    pub sequence: u64,
    pub compute_commit: ComputeCommit,
    pub utxo: UtxoView,
    pub call: Option<CallView>,
}

/// The contents of a [`TxOutput`].
pub struct OutputView {
    pub value: u64,
    pub lock: LockView,
    pub covenant: Option<Binding>,
}

/// The contents of a [`Transaction`].
pub struct TransactionView {
    pub version: u16,
    pub inputs: Seq<InputView>,
    pub outputs: Seq<OutputView>,
    pub lock_time: u64,
    pub subnetwork_id: Seq<u8>,
    pub gas: u64,
    pub payload: Seq<u8>,
}

impl View for Lock {
    type V = LockView;

    open spec fn view(&self) -> LockView {
        LockView { version: self.version, script: self.script@ }
    }
}

impl View for Utxo {
    type V = UtxoView;

    open spec fn view(&self) -> UtxoView {
        UtxoView {
            amount: self.amount,
            lock: self.lock@,
            daa_score: self.daa_score,
            coinbase: self.coinbase,
            covenant_id: self.covenant_id,
        }
    }
}

impl View for EncodedState {
    type V = EncodedView;

    open spec fn view(&self) -> EncodedView {
        EncodedView { state: self.state, script: self.script@ }
    }
}

/// The contents of a list of encoded states.
pub open spec fn encoded_views(states: Seq<EncodedState>) -> Seq<EncodedView> {
    Seq::new(states.len(), |i: int| states[i]@)
}

impl View for Entry {
    type V = EntryView;

    open spec fn view(&self) -> EntryView {
        match *self {
            Entry::Transfer { next_states, witness } => EntryView::Transfer {
                next_states: encoded_views(next_states@),
                witness: witness@,
            },
            Entry::TransferDelegator { witness } => EntryView::TransferDelegator {
                witness: witness@,
            },
        }
    }
}

impl View for TokenCall {
    type V = CallView;

    open spec fn view(&self) -> CallView {
        CallView { current: self.current@, entry: self.entry@ }
    }
}

impl View for TxInput {
    type V = InputView;

    open spec fn view(&self) -> InputView {
        InputView {
            previous: self.previous,
            signature_script: self.signature_script@,
            sequence: self.sequence,
            compute_commit: self.compute_commit,
            utxo: self.utxo@,
            call: match self.call {
                Some(call) => Some(call@),
                None => None,
            },
        }
    }
}

impl View for TxOutput {
    type V = OutputView;

    open spec fn view(&self) -> OutputView {
        OutputView { value: self.value, lock: self.lock@, covenant: self.covenant }
    }
}

impl View for Transaction {
    type V = TransactionView;

    open spec fn view(&self) -> TransactionView {
        TransactionView {
            version: self.version,
            inputs: Seq::new(self.inputs@.len(), |i: int| self.inputs@[i]@),
            outputs: Seq::new(self.outputs@.len(), |i: int| self.outputs@[i]@),
            lock_time: self.lock_time,
            subnetwork_id: self.subnetwork_id@,
            gas: self.gas,
            payload: self.payload@,
        }
    }
}

/// Whether two locks are the same.
pub fn same_lock(a: &Lock, b: &Lock) -> (same: bool)
    ensures
        same == (a@ == b@),
{
    a.version == b.version && same_bytes(a.script.as_slice(), b.script.as_slice())
}

/// A copy of a lock.
pub fn copy_lock(lock: &Lock) -> (copy: Lock)
    ensures
        copy@ == lock@,
{
    Lock { version: lock.version, script: copy_bytes(lock.script.as_slice()) }
}

/// A copy of an unspent output.
pub fn copy_utxo(utxo: &Utxo) -> (copy: Utxo)
    ensures
        copy@ == utxo@,
{
    Utxo {
        amount: utxo.amount,
        lock: copy_lock(&utxo.lock),
        daa_score: utxo.daa_score,
        coinbase: utxo.coinbase,
        covenant_id: utxo.covenant_id,
    }
}

/// A copy of an encoded state.
pub fn copy_encoded(encoded: &EncodedState) -> (copy: EncodedState)
    ensures
        copy@ == encoded@,
{
    EncodedState { state: encoded.state, script: copy_bytes(encoded.script.as_slice()) }
}

} // verus!
