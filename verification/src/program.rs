//! The compiled token program: the locks of token outputs and the entry tags.

use vstd::prelude::*;
use vstd::utf8::encode_utf8;

use crate::bytes::{append, copy_bytes};
use crate::crypto::{blake3_hash, blake3_of, pay_to_script_hash, script_hash_lock, script_hash_of};
use crate::transaction::{Lock, LockView};

verus! {

/// The compiled program: what stands in its script before and behind the state.
#[derive(Clone, Debug, PartialEq, Eq)]
pub struct TokenProgram {
    pub prefix: Vec<u8>,
    pub suffix: Vec<u8>,
}

/// The contents of a [`TokenProgram`].
pub struct ProgramView {
    pub prefix: Seq<u8>,
    pub suffix: Seq<u8>,
}

impl View for TokenProgram {
    type V = ProgramView;

    open spec fn view(&self) -> ProgramView {
        ProgramView { prefix: self.prefix@, suffix: self.suffix@ }
    }
}

impl ProgramView {
    /// The redeem script of a token output: the program with the state's script in
    /// its place.
    pub open spec fn redeem_script(self, state_script: Seq<u8>) -> Seq<u8> {
        self.prefix + state_script + self.suffix
    }

    /// The lock of a token output: it commits to the redeem script.
    pub open spec fn token_lock(self, state_script: Seq<u8>) -> LockView {
        script_hash_lock(script_hash_of(self.redeem_script(state_script)))
    }
}

impl TokenProgram {
    /// The redeem script of a token output.
    pub fn redeem_script(&self, state_script: &[u8]) -> (script: Vec<u8>)
        ensures
            script@ == self@.redeem_script(state_script@),
    {
        let mut script = copy_bytes(self.prefix.as_slice());
        append(&mut script, state_script);
        append(&mut script, self.suffix.as_slice());
        script
    }

    /// The lock of a token output.
    pub fn token_lock(&self, state_script: &[u8]) -> (lock: Lock)
        ensures
            lock@ == self@.token_lock(state_script@),
    {
        let redeem_script = self.redeem_script(state_script);
        pay_to_script_hash(redeem_script.as_slice())
    }
}

/// The kind of a state field.
#[derive(Clone, Copy, Debug, PartialEq, Eq)]
pub enum FieldKind {
    Int,
    Byte,
    Word,
}

/// A field of the state layout.
#[derive(Clone, Copy, Debug, PartialEq, Eq)]
pub struct StateField {
    pub name: &'static str,
    pub kind: FieldKind,
}

/// The state layout: the names and kinds of the fields, in order.
pub open spec fn layout() -> Seq<(Seq<char>, FieldKind)> {
    seq![
        ("amount"@, FieldKind::Int),
        ("owner"@, FieldKind::Word),
        ("owner_scheme"@, FieldKind::Byte),
        ("borrow_scheme"@, FieldKind::Byte),
        ("borrow_guard"@, FieldKind::Word),
        ("extension_commitment"@, FieldKind::Word),
    ]
}

/// The fields of the state, in the order of the layout.
pub fn state_layout() -> (fields: Vec<StateField>)
    ensures
        fields@.len() == layout().len(),
        forall|i: int|
            0 <= i < fields@.len() ==> (fields@[i].name@, (#[trigger] fields@[i]).kind)
                == layout()[i],
{
    let mut fields: Vec<StateField> = Vec::new();
    fields.push(StateField { name: "amount", kind: FieldKind::Int });
    fields.push(StateField { name: "owner", kind: FieldKind::Word });
    fields.push(StateField { name: "owner_scheme", kind: FieldKind::Byte });
    fields.push(StateField { name: "borrow_scheme", kind: FieldKind::Byte });
    fields.push(StateField { name: "borrow_guard", kind: FieldKind::Word });
    fields.push(StateField { name: "extension_commitment", kind: FieldKind::Word });
    fields
}

/// How a field kind is written in an entry's signature.
pub open spec fn kind_text(kind: FieldKind) -> Seq<char> {
    match kind {
        FieldKind::Int => "int"@,
        FieldKind::Byte => "byte"@,
        FieldKind::Word => "byte[32]"@,
    }
}

/// The kinds of the first `count` fields of the layout, with commas between them.
pub open spec fn kinds_text(count: nat) -> Seq<u8>
    decreases count,
{
    if count == 0 {
        seq![]
    } else {
        let kind = encode_utf8(kind_text(layout()[count - 1].1));
        if count == 1 {
            kind
        } else {
            kinds_text((count - 1) as nat) + encode_utf8(","@) + kind
        }
    }
}

/// The signature of the leader's entry: a list of states, written by their field
/// kinds, and a witness.
pub open spec fn transfer_text() -> Seq<u8> {
    encode_utf8("transfer({"@) + kinds_text(layout().len()) + encode_utf8("}[],byte[])"@)
}

/// The signature of the delegates' entry: a witness.
pub open spec fn transfer_delegator_text() -> Seq<u8> {
    encode_utf8("transfer_delegator(byte[])"@)
}

/// The signature of the leader's entry.
pub fn transfer_signature() -> (signature: Vec<u8>)
    ensures
        signature@ == transfer_text(),
{
    let fields = state_layout();
    let mut signature = copy_bytes("transfer({".as_bytes());
    let ghost start = signature@;
    let mut i: usize = 0;
    assert(signature@ =~= start + kinds_text(0));
    while i < fields.len()
        invariant
            i <= fields@.len(),
            fields@.len() == layout().len(),
            forall|j: int|
                0 <= j < fields@.len() ==> (fields@[j].name@, (#[trigger] fields@[j]).kind)
                    == layout()[j],
            signature@ == start + kinds_text(i as nat),
        decreases fields@.len() - i,
    {
        if i > 0 {
            append(&mut signature, ",".as_bytes());
        }
        match fields[i].kind {
            FieldKind::Int => append(&mut signature, "int".as_bytes()),
            FieldKind::Byte => append(&mut signature, "byte".as_bytes()),
            FieldKind::Word => append(&mut signature, "byte[32]".as_bytes()),
        }
        i += 1;
        assert(signature@ =~= start + kinds_text(i as nat));
    }
    append(&mut signature, "}[],byte[])".as_bytes());
    signature
}

/// The signature of the delegates' entry.
pub fn transfer_delegator_signature() -> (signature: Vec<u8>)
    ensures
        signature@ == transfer_delegator_text(),
{
    copy_bytes("transfer_delegator(byte[])".as_bytes())
}

/// The tag that a digest starts with: its first four bytes.
pub fn tag_of(digest: &[u8; 32]) -> (tag: [u8; 4])
    ensures
        tag@ == digest@.take(4),
{
    let tag = [digest[0], digest[1], digest[2], digest[3]];
    assert(tag@ =~= digest@.take(4));
    tag
}

/// The dispatch tag of an entry: the first four bytes of the BLAKE3 hash of its
/// signature.
pub fn dispatch_tag(signature: &[u8]) -> (tag: [u8; 4])
    ensures
        tag@ == blake3_of(signature@).take(4),
{
    tag_of(&blake3_hash(signature))
}

} // verus!
